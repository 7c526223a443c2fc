# PauseCat

A break reminder for Windows: a tray icon, a work/break timer, a blurred
full-screen overlay hosted in a web view, a settings window, and a self-updater.

- `src/` is the verified library (Verus): the settings model and its sanitising
  rule, the break timer as a state machine, the application's event handling as
  a state machine, the updater's release decisions, and the text protocols
  spoken with the two web views. Contracts are stated over views (`@`) of the
  data; laws that relate several calls are public proof functions beside the
  code they are about.
- `app/` is the Windows program around it: windows, tray, registry, screen
  capture, the floating-point blur, HTTP, files and threads. It feeds events to
  the library's state machines and carries out the actions they return.
- `tests/` runs the library on concrete values.
