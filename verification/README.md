# emulanders

The verified core of a Skylanders NFC emulation sysmodule for the Nintendo Switch.
The game talks to the `nfc:mf:u` and `nfc:user` services; the sysmodule answers
for them from a 1 KiB Mifare Classic dump selected by the user.

- `src/` — the library, verified with Verus:
  - `emu.rs`: the service state (emulation status, placed figure, intercepted
    processes, debug log, both NFC devices) and its operations;
  - `skylander.rs`: the figure dump and block access;
  - `fsext.rs`: SD card paths (flag files, file names, extensions);
  - `ipc/`: the two emulated NFC devices, their state machines, the byte layout
    of read answers and tag information, and the control service.
- `app/` — the sysmodule around it: global state behind a lock, SD card I/O,
  kernel events and the IPC servers. It builds only against the Switch `nx`
  bindings.
- `tests/` — tests of the library.
