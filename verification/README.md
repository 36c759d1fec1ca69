# abpl

Error values that keep their causal chain, the text renderings of such
chains, and a sleep that another thread can cut short.

- `src/error.rs`: `UnserializableError` (an error recorded as its messages
  and kinds, cause by cause), `ErrorTrace` and its rendering, and the
  renderings of an error under the `{}`, `{:-}`, `{:+}`, `{:-.N}`, `{:#}`,
  `{:-#}` and `{:+#}` format flags.
- `src/thread/cancelable.rs`: `Sleeper` / `SleeperHandle` over a rendezvous
  channel, and the step function that decides each step of a sleep.
- `src/laws.rs`: properties across calls: depth limits cut chains to a
  prefix or suffix, plain rendering is the message, erased traces render
  the same, every sleep ends, a wake-up ends the sleep.
- `src/text.rs`: string helpers (joining, trimming, decimal rendering).
- `app/lib.rs`: what stays next to std's runtime and the outside derives:
  the clock and thread sleeping, location and backtrace capture, walking
  `Error::source`, exit codes, and the serde/utoipa forms of the types.
