# cardeal

A vehicle-intelligence service for the Swedish used-car market: it looks up a
registration plate in a Redis cache, in PostgreSQL, and in the Swedish
registries (Biluppgifter.se, Transportstyrelsen), builds a report of the
vehicle, has a language model analyse it, and answers over HTTP.

## Layout

- `src/` — the library, verified with Verus.
  - `text.rs`: trimming, substring search, decimal numbers, UTF-8 length.
  - `models.rs`: rows, report sections, calendar dates, and the conversions
    from rows to sections.
  - `external.rs`: reading the Transportstyrelsen page and API answer, the
    rows to store for registry data, and the fetch from the registries as a
    machine of stages.
  - `ai.rs`: the questions put to the model and what is kept of its answers.
  - `config.rs`: the configuration computed from the environment's settings.
  - `services.rs`: building reports, and the full report, free report and
    comparison queries as machines from stage and event to the next stage.
- `app/` — the server: HTTP routes, database and cache access, HTTP calls to
  the registries and the model. It drives the library's machines: each stage
  names the request to make, and its answer is the next event.
- `tests/` — tests of the library.
