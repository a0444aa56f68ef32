# glance_mind_agent

A comment-analysis agent for TikTok, Facebook, Instagram, Reddit and Twitter.
This crate is its decision logic, a Verus library verified against its
contracts: how crawl tasks from the Redis queue are read, how contents and
comments are paged through (TikHub API, Facebook scraper API), what is asked
of an OpenAI-compatible model and how its replies are read, and which rows
are stored.

- `src/text.rs` — string helpers with specifications (trimming, case,
  decimal numbers, UTF-8 byte lengths and prefixes).
- `src/domain/` — contents, comments, reply suggestions, task settings,
  the extra-option map, and the error types with their messages.
- `src/pagination.rs` — the cursor pagination state machine (target count,
  repeated cursors, empty pages) and the shortfall it reports.
- `src/config/platform.rs` — the platform registry.
- `src/protocol.rs` — the crawl-task wire records.
- `src/ports.rs` — the records repositories hand back.
- `src/adapters/` — per-platform rules: error mapping, search plans,
  conversions of API records into contents and comments, page loops and
  crawls, the OpenAI prompts, retries and response parsing, the Redis task
  mapping, the storage rows and routing of the PostgreSQL repository, and
  in-memory stand-ins for the services.
- `src/fixtures.rs`, `src/concurrency.rs` — fixture file names and rate
  limiter settings.

`app/` holds the program around the library: command-line and environment
handling, logging, the Redis connection, and the serde records of the queue.
It reads tasks and acknowledges them; the HTTP and database calls of the
crawl are not made there.
`tests/` exercises the library on concrete values.
