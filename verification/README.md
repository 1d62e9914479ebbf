# obs_capture

A screen recorder on libobs whose decisions are verified with Verus.

`src/` is the verified library. It holds no libobs call itself; it decides
what the recording sessions do:

- `settings` — the key/value settings given to libobs objects (`obs_data_t`
  semantics: one value per key, a write replaces the previous value);
- `presets` — the encoder, output and source settings the sessions use;
- `plan` — the vocabulary of a session: each libobs call with its parameters
  as plain values, a check on its result and how a failure is reported;
- `sessions` — the plans of the recording sessions (raw libobs and the
  libobs-wrapper context);
- `names` — which objects a call creates and which it acts on; the session
  plans are proved to act only on objects created earlier in them;
- `runner` — the driver that hands out the steps of a plan one by one, stops at
  the first failed check, and the laws it keeps;
- `messages` — the line printed, or the panic message, when a check fails;
- `window_select`, `encoders`, `scene_item`, `logging` — choosing the window
  and the encoder to record, setting up a new scene item, and the log lines.

`app/` is the program: it makes the libobs calls that the plans name and
reports their results to the driver.  `tests/` runs the library on concrete
values.
