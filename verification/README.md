# herdr-sidebar

A file explorer for a terminal multiplexer that shares one pane with a source-control view. Its
logic is a library whose behaviour is stated in contracts and proved by Verus.

- `src/`: the library. It takes and hands back plain values; what it wants done outside it says as
  effects.
- `app/`: the program around it: files, the terminal, the host's socket.
- `tests/`: the library run on concrete values.

The view's state is `explorer::App`; what an event does to it is a function on its view,
`AppView`. What holds of all events is proved in `laws`, what holds of the files that are written
and read in the modules that write and read them.
