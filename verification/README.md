# rust_autoclicker

An auto clicker for Windows whose logic is a library verified with Verus.

- `src/` is the library. Every function in it carries a contract that Verus
  proves, but for one trusted wrapper that reads the system clock to seed the
  generator:
  - `rng`: the xoshiro256+ generator, seeded through SplitMix64, and
    Lemire's reduction to a range;
  - `timing`: nanoseconds between time-stamp-counter readings;
  - `clicker`: how a run is planned from the form, and a state machine that
    decides, reading by reading, what the click loop does next;
  - `keys`: key names, the hotkey's text, and the keyboard hooks' decisions;
  - `decimal`: integer text written as `to_string` writes it and read as
    `str::parse::<i32>` reads it;
  - `settings`: the `Key=value` settings file, written and read back;
  - `ui`: window titles, button captions, and what commands and the hotkey do;
  - `wide`: UTF-16 strings with a terminating NUL.
- `app/main.rs` is the Windows program: the window and its dialogs, the
  hooks, the settings file on disk, and the click thread, which carries out
  what the library decides.
- `tests/` runs the library on concrete values.
