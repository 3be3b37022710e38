# The curse of the headless goose

A small fighting game for a keypad and a 320x480 display, with its rules
proved correct by Verus.

- `src/` is the verified library: moves, cooldowns and fighters, the turn
  engine, the story and the scene state machines, the savegame format, the
  keypad decoding and the screen layout.
- `app/` is the program around it: a duel on the command line on a host,
  and the firmware for the RP2040 board (display, EEPROM, keypad pins).
- `tests/` runs the library on concrete values.
