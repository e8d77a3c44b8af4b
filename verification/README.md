# annex_pos

The back end of a point-of-sale system for a prison annex canteen, as a
library verified with Verus. Residents buy items with money on their annex
accounts; staff record sales, stock changes and price changes; the club
account statements the accountant sends are read and become the accounts'
funds; and the records of the old Access database are migrated once.

## Layout

- `src/` — the verified library.
  - `models.rs`, `repos.rs`: the records and the repositories they are stored
    in; each repository is a trait whose methods state what they do to a
    mathematical model of the stored records.
  - `operators.rs`, `products.rs`, `transactions.rs`, `club.rs`, `auth.rs`:
    the use cases, with their rules (unique MDOC numbers, products brought
    back after a deletion, sales stored together in one unit of work, the
    weekly spending window, the staff password and session).
  - `legacy.rs`: the migration of the old database's rows.
  - `statement.rs`: reading a club account statement's text.
  - `receipt.rs`, `printer.rs`: the lines of a receipt, the printer names and
    what each report prints.
  - `text.rs`, `pattern.rs`, `datetime.rs`, `paging.rs`, `error.rs`: text,
    regular expressions (the `regex` crate), dates and times (chrono), pages
    of search results, and errors.
- `tests/` — tests of the library, with in-memory repositories.
- `app/` — what talks to the world: SQLite, the old database over ODBC, PDF
  receipts and the printer, the log, and the staff commands.
