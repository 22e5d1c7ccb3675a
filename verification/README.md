# tower_request

Middleware settings for outbound requests: how they are configured and merged with defaults, and the
stack of `tower` middleware (rate limit, concurrency limit, retries, timeout) that they describe.

The library under `src/` is verified with Verus.

- `config`: the configuration, with values left open, and how it is merged with defaults
- `concurrency`, `adaptive_concurrency`: how many requests may be under way at once
- `settings`: settings with nothing left open, and the sinks and distributed services made of them
- `layer`, `stack`: services in their middleware, described from the outside inwards
- `retries`: whether a request is tried again, and after what wait
- `laws`: what holds of the library as a whole
- `time`, `middleware`: what the library relies on of `std` and of `tower`

`app/` builds the described services with `tower` and reads the configuration with `serde`.
