# xbelite2

Driver logic for the Xbox Elite Wireless Controller Series 2, verified with
Verus.

- `src/` is the library. It decodes the controller's HID and GIP reports,
  lays out and edits the hardware profile pages, frames GIP commands,
  transforms input through software profiles, builds rumble reports and the
  virtual gamepad's records, answers the daemon's control-socket requests,
  and holds the configuration model of the GUI. The library's own
  functions carry contracts proved by Verus; the few calls into std and
  serde_json (lowercasing, UTF-16 decoding, JSON reading and writing) go
  through small trusted wrappers whose contracts are taken as given. The
  public `lemma_*` proof functions state the laws that tie the functions
  together.
- `app/` is the program around it: the input daemon (device discovery,
  `poll`, uinput, the control socket) and the command-line tools (profile
  read/write over the kernel module's GIP device, the Bluetooth test tool,
  the evdev dump, the raw-USB GIP probe). It reads and writes devices and
  files and leaves every decision to the library.
- `tests/` runs the library on concrete values.
