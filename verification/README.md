# zubr_pipeline

A dataflow pipeline library: processing nodes joined by bounded channels,
a graph that holds the nodes while no thread runs them, a scheduler that
decides where each node runs, and state machines that decide when a thread
runs, pauses or stops.

The library under `src/` is written in Verus. Every function carries a
contract, and the contracts are proved; the laws of the library (a killed
thread stays killed, a node handed to the scheduler ends up in exactly one
place, a standard output reaches each running channel once, a decimal form
reads back as its number, ...) are public proof functions next to the code
they speak of.

- `data_management`, `buffer_management`: the values that travel through
  channels, moved by swapping.
- `comms_core`: channels with buffer pools and back-pressure; `linear_comms`,
  `multichannel_comms`, `multiplexed_comms`, `comms_top_level`: the ways a
  node sends and receives.
- `formats`, `interfaces`, `step_dispatch`: what a step returns, how it is
  sent, and which handler of a step takes an input.
- `node_types`, `series_nodes`, `interleaved_separator`, `building_node`,
  `node_builder`: the nodes, how they are wired and built.
- `pipeline_graph`, `scheduler`: the graph and the work-stealing decisions.
- `pipeline_thread`, `thread_state_space`: the thread-per-node state machine.
- `audio_blocks`, `interleaving`, `sample_cursor`: cutting sample streams
  into blocks, splitting interleaved channels, handing samples out.
- `logging`: the log filter and the layout of a log line.

Waiting to receive from a channel happens outside the library: a receiver
in `src/` is handed what came out of its channels (`None` where a sender was
gone) and says exactly what input that makes. A synchronous send still waits
for room in its channel, as `std`'s bounded channels do. Senders record, as ghost state, every
send they made and whether the channel took it, so that their contracts can
say which values went into which channel, in what order.

`app/` holds what a verifier does not take: the blocking and asynchronous
waits on channels, the asynchronous sends, the thread pools, the terminal logger, and the sources that decode
audio files or compute floating-point signals.
