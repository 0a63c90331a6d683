# water_workspace

The decisions of a terminal workspace window, written in Verus and proved
against contracts: which workspace, tab and pane a window shows, how keys, the
wheel and the mouse become terminal input, how selections, smooth scrolling,
dialogs and drags evolve, and what each part of the window shows.

- `src/` is the library. A window is a `view::WorkspaceView`; its view is a
  plain record (`view::ViewModel`), and every method says which step on that
  record it takes. Whatever has to happen outside is asked for as a
  `command::Effect`. Statements about several steps are the proof functions
  whose names begin with `law_`.
- `tests/` runs the library on concrete values.
- `app/` is the window around it: drawing, measuring in pixels, talking to
  servers. Floating point stays there; the library is handed what was measured,
  as bits or as plain answers.

Distances of fractions of a row are carried by their bits
(`offset::RowOffset`), so that their sign, their whole part and whether a
fraction is left are exact.
