# recap-bot

A Telegram bot that stores the messages of its chats and, on request, has a
language model summarize them, rank the most active members with a toxicity
assessment, recap one user, or answer when it is mentioned.

The logic of the bot is a Verus library (`src/`); the program around it
(`app/`) talks to Telegram, Postgres, Redis and the language model.

## Layout

- `src/` — the verified library
  - `formatters/`, `services/` — the texts sent to the language model and to
    the chats, and what each request does with what the stores return
  - `repositories/` — grouping and ranking of the members read from the
    database
  - `validators/`, `commands/`, `handlers/` — usernames, command arguments,
    mentions
  - `infra/rate_limiter.rs` — the per-user request limit
  - `app.rs`, `errors.rs`, `metrics.rs`, `domain/`, `config.rs` — shared types
  - `text.rs`, `clock.rs`, `html.rs` — the calls into `std`, `chrono` and
    `teloxide`, each with the contract it is trusted to meet
- `app/` — `main`, the Telegram handlers, the SQL queries, the Redis counter,
  the HTTP client, the health and metrics endpoints
- `tests/` — tests of the library

Times are Unix times in seconds (UTC) inside the library; the program converts
the `chrono` values it reads from Telegram and Postgres. The system prompts are
read at start-up from `prompts/system.txt`, `prompts/top_members.txt`,
`prompts/response_to_user.txt` and `prompts/user_recap.txt`.
