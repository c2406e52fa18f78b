# pattern_pursuit

The backend of *Pattern Pursuit*, a browser game: players sign in with Google,
play, and submit their results to a leaderboard.

- `src/` is the verified library (Verus): configuration (`config`), decimal
  notation (`decimal`), store keys (`keys`), records (`model`), session tokens
  (`token`), cookies (`session`), request authentication as a state machine
  (`auth`), scoring and ranking (`leaderboard`), and the Google OAuth exchange
  (`oauth`). Each function states what it returns; the `lemma_*` proof functions
  state the properties the library keeps across calls.
- `app/` is the actix-web server around it: routes, the Redis client, HTTP
  calls to Google, and the serde/redis forms of the library's records.
- `tests/` runs the library on concrete values.
