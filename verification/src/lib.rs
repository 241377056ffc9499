pub mod point;
pub mod widget;
pub mod context;
pub mod context_laws;
pub mod shapes;
pub mod trajectory;
pub mod style;
pub mod button;
pub mod checkbox;
pub mod handler;
pub mod slider;
