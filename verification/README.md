# invoicevault

The rules of an invoice archive, verified with Verus: how recognized
invoices are cleaned and accepted, how searches, exports and dashboard
statistics are turned into SQL, how duplicates are scored and resolved, how
the assistant's tool loop and its streamed answers are driven, how mail
attachments are picked, and how spreadsheets are read for inspection.

Layout:

- `src/` — the verified library. Each module states its behaviour as
  `requires`/`ensures` over spec functions; properties that relate several
  calls are public proof functions named `law_*`. Calls into `chrono`,
  `base64`, `mailparse`, `mime_guess`, `serde_json` and a few std
  functions go through small trusted wrappers whose contracts state the
  outside result, or name it where stating it would take pages.
- `tests/` — tests on concrete values, including runs of the library's SQL on
  an in-memory SQLite database.
- `app/` — a command-line program around the library: SQLite access,
  the model provider's HTTP API, image decoding and PDF rendering, CSV/XLSX
  files, writing mail attachments out, invoice details, and the duplicate
  checks and resolutions run on the database.
