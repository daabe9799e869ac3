# topos

Full-text search for the TROW forum: a back end that copies the forum's posts into a
Meilisearch index and answers searches, and a search page.

The library (`src/`) holds the logic, with its contracts proved by Verus:

- `text`, `text_cleaner`: whitespace, trimming, words, decimal numbers, and the plain text of
  a rendered post (tags removed, character references decoded by `html_escape`).
- `config`: the back end's settings, read from the environment (`TROW_API_URL` and the rest),
  which env files are loaded for the profile, how a loaded file joins the environment without
  overriding it, and where env files are looked for.
- `search`, `endpoints`: the search engine request built from a query, the admin token check,
  and the routes and index settings.
- `sync_flag`: the flag that keeps document synchronisations from overlapping.
- `sync_posts`, `documents`, `resume_point`: the synchronisation run as a state machine,
  the documents built from topic pages, and the resume point.
- `models`, `config_dev`, `config_prod`, `home_page`, `search_view`, `page_text`, `page_events`:
  the search page's data, its state machines and what it renders.

`app/` is the two programs around the library: the back end (HTTP server, Redis, HTTP
clients, the scheduler and env-file reading) and, built for `wasm32`, the search page's
rendering and browser effects.
