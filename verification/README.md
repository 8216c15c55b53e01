# eucalyptus

The logic of a toolkit for bars and on-screen displays on a Wayland desktop, written
in Verus.

- `src/scale.rs`: lengths at whole and fractional scales, stated and computed on
  integers. `tests/scale.rs` compares the results with `f64`.
- `src/event.rs`, `src/action.rs`: what the compositor reports, what the user
  interface is told, what the program requests.
- `src/client.rs`: the surfaces and devices of the client.
- `src/surface_state.rs`: one window.
- `src/application.rs`: the application. It decides and answers with effects, which
  its caller carries out in order.
- `src/run.rs`: the run of the application. It hands out one effect at a time, and the
  first one that fails ends it.
- `src/laws.rs`: what holds of the application as a whole.
- `src/program.rs`: the functions that a program is made of.
- `src/config.rs`: the settings, and where they are kept.
- `src/volume.rs`: the widget that shows the volume.

`app/` talks to the compositor, the graphics card and the disk.
