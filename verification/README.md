# bigcedilla

An input-method proxy for KWin/Plasma 6 that restores `ç` / `Ç` for a dead
acute followed by `c` / `C`, while every other key reaches the application
unchanged.

- `src/` is the verified library (Verus):
  - `compose.rs`: the compose state machine, its model (`press_spec`,
    `release_spec`) and the laws proved over it;
  - `session.rs`: the per-connection keyboard session, which turns each
    `wl_keyboard.key` event into the requests to send upstream;
  - `keymap.rs`: extraction of the keymap text from the block the compositor
    sends;
  - `child.rs`: the choice of the child on-screen keyboard.
- `app/` is the program around it: Wayland protocol plumbing (wl-proxy),
  xkbcommon lookups, `mmap` of the keymap, environment and file-system
  probes, and spawning of the child keyboard.
- `tests/` exercises the library on concrete inputs.
