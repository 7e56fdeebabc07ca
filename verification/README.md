# lighthouse

Autoscaling decisions for any kind of infrastructure, with the decision logic
verified by Verus.

- `src/` is the verified library: metric values (IEEE-754 encodings with
  verified comparisons), string-keyed maps, configuration types and builders,
  policy builders and schedules, the engine's decision state (metrics cache,
  cooldowns, policy evaluation, recommendations, command handling), the
  metrics-store configuration and query planning, and the predictive
  configuration.
- `app/` holds what runs around it: the asynchronous engine loop and its
  handle, the user callbacks, the SQLite store, and the floating-point
  statistics and forecasts.
- `tests/` exercises the library.
