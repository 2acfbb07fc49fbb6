# skylode-tui

The terminal front-end of Skylode, a solo idle mining game, as a verified library.

`src/` holds the interface's logic with its contracts, proved by Verus: the
preferences and the Settings screen (`config`, `overlay::settings`), the key map and
the reducer that turns an action into the next interface state and a command for the
run (`keymap`, `reducer`), the list cursors (`cursor`), the blast flashes (`flash`),
the command line (`cli`), the event loop's decisions (`event`), the frame clock's
step schedule and mine-key reading (`clock`), the wording of news
and refusals (`announce`), and the text every screen and box prints (`format`,
`overlay::*`).

`app/` is the program around it: the command line and the environment, the terminal
and its event thread, ratatui drawing, and the serde copy of the preferences.
