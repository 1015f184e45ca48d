# windup

An accumulator that collects items over a window of time and hands them to a processor in batches.
The window adapts to how full the batches are or how long they take.

The library under `src/` decides what becomes of each item, when a batch is made and what goes into
it, who is told what and who is woken, how the window changes, what the statistics show, when the
main loop ends, and through which phases a shutdown goes. It does no waiting; a function takes what
has happened and answers with what is to be done, and its contract says which answer that is. Where
a channel, a clock or a user's own collector has the last word, the contract says what it was asked
and what is made of its reply.

The crate under `app/` does the waiting on tokio: it runs the main loop, the background tasks and the
timers, awaits the collector, and holds the controllers whose arithmetic is floating point. It calls
the weigher, the collector and the controller without holding the lock on the shared state.

| Module | Holds |
|--------|-------|
| `config` | the configuration, and the functions that put an accumulator together |
| `handle` | submitting items, and controlling a running accumulator |
| `accumulator` | what the main loop and the shutdown do with items, timers, requests and reports |
| `shared` | the state that handles and main loop share |
| `item`, `batch`, `flush` | items, batches, replies, and what comes of a flush |
| `controller`, `metrics` | adjusting the window, and what is measured for it |
| `stats` | counters and percentiles |
| `time`, `text`, `trace`, `error` | moments, numbers as text, levels of events, errors |
| `channel` | the channels and signals of tokio that the library uses |
| `system`, `run`, `laws` | the model, whole runs of it, and what is proved of them |

An accumulator and the state that it shares are modelled as a `System`. Each function takes one
system to another; `run` strings these steps together, and proves among other things that no item
is lost or processed twice, that items keep their order, that batch numbers ascend, that no batch of
the buffer is larger than it may be, and that the limits on the queue, on batches in flight and on
the window hold at every point. `controller` and `stats` hold the laws on backing off and on
percentiles.

State that handles and main loop share is passed to the functions as a `&mut SharedState`, so that
contracts can speak of it. A program keeps it behind a lock, as `app/` does.
