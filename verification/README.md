# i3ipc

The IPC protocol of the [i3 window manager](https://i3wm.org/docs/ipc.html), as a library
verified with [Verus](https://github.com/verus-lang/verus).

`src/` holds the protocol and does no I/O. It decides, and says what is to be read, written or run:

| module | what it holds |
| --- | --- |
| `connect` | finding i3's socket and connecting to it |
| `request` | the requests, each with the type of its reply, and what can be subscribed to |
| `exchange` | one request and its reply |
| `listener` | receiving events |
| `frame` | the framing of messages, and what is proved of streams of frames |
| `json`, `decode` | JSON documents, and reading values from them |
| `reply`, `node`, `bar`, `rect` | what i3 replies |
| `event` | the events that i3 sends |
| `error` | what can go wrong |
| `text` | comparing and converting strings |

Each decision of `connect`, `exchange` and `listener` is a `step`: it takes a report of what came of
the last task and gives the next one. `app/` owns the socket, performs the tasks and offers
`I3Connection` and `I3EventListener`.

JSON is parsed by `serde_json`, and the numbers in a frame's header are written and read by
`byteorder`. What is taken on trust of these two and of std stands in the contracts of a few
functions marked `external_body`, in `json`, `frame`, `text` and `error`.
