# Gluestick

A self-hosted pastebin: users share code, notes and other text as "pastes", public or secret,
through web pages and a JSON API.

The project is a Verus library with a thin server around it.

- `src/` is the verified library. It holds the rules of the site as functions with contracts:
  what makes a file name, description, body, user name, address or password acceptable and
  which message each refusal carries (`models`, `params`); how forms are checked and what comes
  back when they are refused (`controllers`, `views`); cursor pagination (`helpers::pagination`);
  the text helpers of the pages, line-wise truncation of text and HTML and relative times
  (`helpers::view_helper`); tokens, API keys and their hashes (`models::session`,
  `models::api_session`, `auth`); and the server's settings (`config`). Calls into `argon2`,
  `sha2`, `rand`, `uuid`, `jiff`, `syntect` and `validator` stand behind small trusted items
  whose contracts say what those crates promise.
- `app/` is the server: routing with `axum`, the SQLite database, cookies and headers, and the
  HTML of the pages. It reads requests, asks the library what to do, and answers.
- `tests/` exercises the library on concrete values.
