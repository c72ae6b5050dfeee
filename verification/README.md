# Verso

The decision logic of the Verso browser shell and of the controller that embeds it,
verified with Verus.

A browser process and a host process talk over two message types. The library in
`src/` holds what either side decides: what a message calls for, which window an
event concerns, what a question is answered, in which order the browser is brought
up, and when it goes down. It does no input or output. A function takes what
happened and returns the one thing to do next; the caller does it and hands back
what came of it.

| module | what it decides |
| --- | --- |
| `controller` | the host's side: commands, questions, callbacks |
| `startup` | where the settings come from, and what is started in which order |
| `verso`, `window` | the shell's state and that of its windows |
| `webview_messages` | what a message from the host calls for |
| `servo_messages` | one turn of handling what the compositor and the engine say |
| `window_events` | what an event of the windowing system calls for |
| `embedder`, `messages`, `ids` | the messages and the numbers in them |
| `foreign` | what is taken from other crates, and what is believed of it |
| `laws` | what holds across functions and over time |

`app/` is the program around it: channels, processes, windows, logging. `tests/`
runs the library on concrete values.
