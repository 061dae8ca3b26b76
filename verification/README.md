# kaijutsu_app

The decision logic of a modal, cell-based workspace client, verified with Verus, and the
application around it.

- `src/` is the library. Every item of it is verified.
  - `input/` turns a frame of raw input into actions: bindings and their file format, contexts and
    the keyboard grab, the prefix key, multi-key sequences, compose editing, block navigation.
    `input/vim/` runs the vim machine of the compose area and carries out the edits it asks for:
    motions, targets, registers.
  - `dj/` follows the beat clock, and decides on clicks, MIDI cues and audio cues.
  - `dashboard/` is the lobby: kernels, contexts, seats.
  - `llm` keeps a conversation, and the turns that a model is shown.
  - `layout`, `textbuf`, `strutil` and `time` are what these stand on: lines and columns of a text
    that is addressed by bytes, splices at character boundaries, small string functions, moments.
- `tests/` runs the library on concrete values.
- `app/` is the application: the window, the devices, the files, the network, and everything that
  needs floating point.

Public proof functions named `law_..` state what holds across functions, such as that the written
bindings read back, that putting back what was deleted restores the text, or that each beat is
clicked at most once.
