# team_bot

A bot that keeps a team informed. It runs tasks and sends what they report to
Zulip. There are three types of tasks:

* notifications, made by hand or taken from an Exchange calendar,
* checks for failed builds on TeamCity,
* checks for reviews on Gerrit that meet a condition.

## Layout

* `src/` is the library, verified with Verus: when a task runs next and what is
  done with it, what each worker asks for and reports, how requests are repeated,
  how calendar events become tasks, and what the HTTP interface answers to errors.
  The parts that call other crates are marked `external_body`; the comment above
  each says what is relied on.
* `tests/` runs the library together with the crates that it calls.
* `app/` is the program: the database, HTTP, the clock and the configuration file.

## Start

The program reads `config.json` and these variables, from the environment or from
`.env`: `TEAM_BOT_LOG_LEVEL`, `DATABASE_URL`, `HOST`, `PORT`, `EXCHANGE_URL`,
`EXCHANGE_LOGIN` and `EXCHANGE_PASSWORD`. The database is SQLite; `sqlx db create`
and `sqlx migrate run` set it up.
