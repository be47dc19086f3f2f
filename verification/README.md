# windows_duo

When a laptop lid closes or opens, Windows Duo captures the screen, covers it
with a full-screen window and warps the picture as if the screen were turning
about its hinge, blurring and darkening the far side as the lid folds.

`src/` is the verified library:

- `simulation.rs`: the lid timeline (closing, holding, opening) on a
  nanosecond clock, with the laws of the timeline.
- `demo.rs`: the main loop's decisions: scheduling a demo when the lid moves,
  starting, drawing and stopping it.
- `power.rs`: how window messages become lid and tray events, the event queue
  from the watcher thread, the single-instance check and the tray tooltip.
- `picture.rs`: the padded picture built from a screen capture, and the order
  in which mip levels are filled.
- `config.rs`: the whole-number settings and their defaults.

`app/` is the Windows program around it: windows, the GPU renderer, the
floating-point geometry and effect parameters, GDI capture, the Win32 message
loop and the settings file.
