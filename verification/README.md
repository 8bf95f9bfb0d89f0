# voca

Voca is a terminal coding assistant: the user types (or speaks) a request, a
language model answers in a streamed chat, and the model may call tools that
look at and change the working folder. Speech goes through a Python sidecar.

The decisions of the program live in `src/`, a library verified with Verus:

- `model`, `app`: the session state, its view as plain values, and the
  transitions of the chat (bubbles, streaming, scrolling, the banner).
- `agent`, `events`: how each event (a key, the mouse, a streamed answer,
  speech, tool results, a key that became known) changes the state and which
  actions the program must then perform.
- `commands`, `history`: spoken shortcuts and the trimming of the conversation
  sent to the model.
- `ui`: what the screen shows, as styled lines and rectangles.
- `voice`, `tools`, `cli`, `stream`, `text`: the sidecar's JSON lines and package
  search, the working-folder check and the tool summaries, the command line and
  key names, the lines of a streamed answer and the joining of tool-call pieces,
  and the text operations the rest is written with.

Public proof functions named `law_*` state the properties that hold across
calls. `tests/` runs the library on concrete values. `app/` is the program
around it: the terminal, the event loop, HTTP streaming, the tools' file and
process work, and the sidecar process.
