# ai_ping

The decision logic of a time-to-first-token probe for OpenAI-style chat-completion
endpoints, verified with Verus.

- `src/` is the verified library:
  - `text`: character-level helpers (trimming, searching, clipping, decimal digits);
  - `url`: the chat-completions address of a configured endpoint;
  - `json`: the JSON model of a stream chunk and the reading of its visible output;
  - `loose`: the fallback reading of data lines that are not standard JSON;
  - `attempt`: one timed attempt (request, response head, event-stream scanning, report);
  - `retry`: retries of a failed probe and the laws of the whole probe;
  - `probe`: local clock, network clock offset, latency to a public host;
  - `model`: the records that are reported.
- `app/` is the Tauri shell: HTTP I/O, timers, persistence, serde copies of the records.
- `tests/` exercises the library on concrete values.
