# guikit

Immediate pointer handling for small raylib interfaces: a context that
routes mouse input to widgets (hover, press, capture and drag), buttons,
checkboxes and sliders, styles that react to interaction, and the generic
plumbing of slider tracks (paths, trajectories, scales, slicers).

`src/` is the library, verified with Verus. It is generic in the position
type and the style values, so it holds no floating-point code:

- `point` — `Vec2` and its arithmetic over any scalar type.
- `widget` — the `Widget` trait and the hooks a context calls.
- `context` — `GuiContext`: the frame-by-frame dispatch, specified by the
  model in `frame_step`; `context_laws` states what every frame keeps.
- `shapes`, `trajectory` — shape, trajectory, scale and path traits, and the
  combinators built on them.
- `style` — styles and the style functions that react to widget state.
- `button`, `checkbox`, `handler`, `slider` — the widgets and their builders.

`app/` holds the raylib side: `f32` shapes and paths, drawing, the default
theme and the frame loop.
