# full_service account bookkeeping

- `src/` — the verified library (Verus): account ids (`account_id`, `encoding`),
  the rows of the `accounts` table (`models`), the lookups' answers
  (`account`), the resumable operations that create, rename/delete and mark
  spent (`create`, `update`, `spend`, with their vocabulary in `statement`),
  the meaning of the statements for the `accounts`, `txos` and
  `account_txo_statuses` tables and the laws on what reads back (`tables`), and the mirror's URI scheme (`uri`).
- `app/` — the diesel side: the schema, diesel row types, the `AccountModel`
  trait that carries the library's statements out on an SQLite connection, and
  the values only the MobileCoin crates compute (account key digest, key image
  encoding, URI scheme trait).
- `tests/` — tests of the library.
