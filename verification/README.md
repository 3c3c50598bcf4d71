# nusaca

The verified core of NUSACA, a service that stores BMKG weather forecasts for
Indonesian provinces and serves them over HTTP.

- `src/` — the library, verified with Verus:
  - `model`: the BMKG forecast document;
  - `forecast`: forecast addresses, the checker's source argument, areas
    without parameters;
  - `scrape`: the records a forecast turns into (predictions, new regions,
    the issue record);
  - `scrape_run`: storing one forecast as a state machine driven by the
    database's answers, with its invariant, progress measure and laws;
  - `schema`: table identifiers and the migration as plain statements, with
    laws on foreign keys, primary keys, seeds and drop order;
  - `weather`: the day a prediction request selects (through chrono's
    `%Y%m%d`), the required region code, the scraping interval;
  - `region`, `summary`, `settings`: what the HTTP layer reports and how it
    connects;
  - `text`: verified string routines.
- `tests/` — tests of the library.
- `app/` — the HTTP server, the database access, the HTTP fetch and XML
  reading of forecasts, the migration runner, and the forecast checker
  (`nusaca check-forecast [path | url=<province>]`).
