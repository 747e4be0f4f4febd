# screenshot_native

The native screenshot pipeline of a desktop client, written in Verus: choosing a capture
route (CPU, Windows Graphics Capture or DXGI Desktop Duplication), ranking DXGI outputs
against a desktop selection, mapping a selection into an output frame, the selection
state machine driven by pointer and key input, the native overlay session and its
window policy, building selected-only PNG images and their clipboard/file/OCR/translation
bridges, and the copy-to-clipboard effect with its verification.

- `src/` is the verified library. Every public function carries a contract; laws that
  span several functions are public proof functions next to the code they speak of.
  Calls into `base64`, `image` and `std::time` go through a few trusted wrappers whose
  doc comments say what is believed of them.
- `tests/` exercises the library on concrete values.
- `app/` is the process glue: the `arboard` clipboard sinks, the state shared between
  screenshot runs (session counters, the overlay session and the channel to its
  thread), and serde forms of the values that cross the IPC boundary.

Windows-only work (Direct3D, DXGI, Win32 windows) is not part of this build; the
decisions taken between those calls are library functions that take the calls'
results as plain values.
