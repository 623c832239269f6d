# sea_streamer

The logic of a client of Redis streams, verified with Verus.

- `src/dispatch.rs` is the task behind a producer, as a machine: what to send, when to try again,
  what to answer. `src/dispatch_laws.rs` states what holds of it over any course of events.
- `src/producer.rs` is the producer in front of it, `src/sharder.rs` decides which shard of a stream
  a message goes to.
- `src/consumer.rs` and `src/redis_consumer.rs` hold the options of consumers.
- `src/task.rs` stands in where no async runtime is enabled.
- `src/foreign.rs` holds everything that is relied upon without proof.
- `app/` runs the machine: sockets, sleeps and futures.
