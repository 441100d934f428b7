# knowledge_vault

A personal knowledge vault: books are submitted by ISBN or title, their metadata is
fetched from Open Library and Google Books, Gemini extracts concepts from them, and the
concepts and their relations are stored as a graph in SurrealDB.

## Layout

- `src/` is the library, written in Verus and verified. Every decision the service makes
  stands there with a contract: ISBN and credential validation, the login lockout, account
  setup, personal access tokens and session tokens, work submission and retry, the
  discovery worker, and the queries the graph reads and writes are made of. Work that
  alternates I/O and decisions is written as a step function from a state and the outcome
  of the last action to the next state and action. The public `law_*` proof functions state
  the properties that hold across functions and calls.
- `app/` is the HTTP server, the database and message-queue plumbing, and the outside
  clients. It runs the library's step functions and performs the actions they return.
- `tests/` exercises the library on concrete values.
