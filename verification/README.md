# ryu-quests

An auto-detecting todo list, and a keep pile for what is collected while working.

- **Tasks** have a completion condition in natural language. On a schedule the engine
  gathers what the user has recently been doing, asks a judge model whether the task looks
  done, and suggests its completion or completes it, per the detection mode.
- **Captures** (notes, links, prompts, snippets) are kept verbatim with where they came
  from. They are never judged and carry no scheduled job.

## Layout

`src/` is the library, verified with Verus but for functions of other crates and of std,
whose contracts are taken on trust: `chrono::Utc::now`, `DateTime::to_rfc3339` and
`DateTime::parse_from_rfc3339`; `humantime::parse_duration`; `uuid::Uuid::new_v4`;
`serde_json::from_slice` (into a `Value` and into a map of strings), `to_vec_pretty`, and
`get`, `as_str`, `as_bool` and `Display` of `Value`; and `String::push`. Each stands in an
item of its own with a comment that says what is claimed.

The library does no I/O: an operation on a quest gives a *plan* (rows to write, jobs to
sync, events to send), and a detection pass is a state machine that says what to do next
outside.

| module | what it holds |
|---|---|
| `text` | trimming, words, lines, bytes, numbers, prefixes |
| `verdict` | the judge's prompt, reading its reply, evidence snippets |
| `quest` | quests, and every change that one goes through |
| `clock` | moments, timestamps, snoozes |
| `detection`, `interval` | modes, and durations in words |
| `prefs`, `engine` | preferences and the settings that follow from them |
| `plan` | events, detections, actions, runs, and a model of the world outside |
| `operations` | the operations as plans |
| `json`, `context` | tool replies and evidence |
| `judge` | detection passes |
| `board`, `api`, `auth` | the board, the HTTP surface, admission and process settings |
| `laws` | what holds of all of it together |

`app/` is the process around the library: SQLite, HTTP, server-sent events, preferences in
a file, and the copies of types that carry serde derives.
