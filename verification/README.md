# audio_transport

Moves audio from a render callback to a local socket without ever blocking or allocating in the
callback, and archives between two peers. The library in `src/` is verified with Verus: what each
function does is stated in its contract and proved. `app/` holds the C interface and what the
library cannot hold: threads, sockets, atomics and floating-point samples.

## How audio travels

The callback offers one quantum of interleaved 24-bit samples with its place on the sample clock.
It is copied into a buffer that was allocated beforehand and put into a ring. A worker takes
everything out of the ring, hands all buffers but the newest back, and writes the newest as one
packet: length, sample clock, frame header, audio. What is stale is dropped and counted, never
played late. The worker keeps the connection up and announces the track's names when they change
and every two seconds.

A stable handle lets the processor behind it be replaced while callbacks run. Readers note the epoch
they come in, and are counted in its slot; a replaced processor is freed once the slot that was left
has no readers.

## Modules

| module | what it holds |
| --- | --- |
| `bytes` | numbers as bytes, and that they read back |
| `frame` | a quantum, its header and its packet |
| `ring` | the two rings between callback and worker |
| `render` | the callback's side |
| `worker` | the worker as a machine from events to actions |
| `status` | flags and counters |
| `clock` | the time that the status reports |
| `text`, `metadata` | the names of a track and the message that announces them |
| `processor`, `handle`, `gate` | a processor, the stable handle, and its reader epochs |
| `admission` | who may use the render side, with any number of threads |
| `naming` | naming a track while its processor is replaced |
| `boundary` | the calls of a host, with missing handles and texts |
| `archive`, `ledger` | the archive transport, and where each of its messages is |
| `laws` | what holds across the parts |

The outside crates `rtrb` (rings) and `frame-header` (headers), and a few functions of the standard
library, are called through small wrappers whose contracts are taken on trust; each says so above
its signature. `app/` uses `matchbox_socket` and `tokio` for the archive socket.
