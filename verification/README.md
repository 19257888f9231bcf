# billing

Invoicing for the accounts-receivable and accounts-payable ledgers: pricing invoices, deriving
payment-term schedules, settling invoices against payments, and emitting balanced ledger posts.

The library (`src/`) is written in Verus; every function carries a contract that the verifier
proves. The shell (`app/`) holds what touches the outside world: Postgres, the ledger and
reconciliation ports, the tax engine, and the wire shapes.

Modules of the library:

- `dec`: exact decimals (`Dec`), with `rust_decimal` doing the arithmetic.
- `calendar`: calendar days, with `chrono` doing the date arithmetic.
- `pricing`: line nets, tax totals by basis, invoice drafts, and documents priced by the tax engine.
- `terms`: payment-term validation, due dates, and the installment schedule an invoice gets.
- `settlement`: the clamp a payment applies to an invoice, its reversal, and the installments'
  drawdown.
- `posting`: the balanced ledger posts of sales and purchase invoices, and credit notes.
- `entity`: the billing records (invoices, payments, payment terms, refunds and the rest), each
  with a typed id, a constructor, accessors, a partial update and a builder.
- `events`, `error`, `domain`, `text`: events, errors, the closed vocabularies, string helpers.

Among the properties proved: a payment never settles more than is owed and a reversal never
restores more than was settled; an installment schedule's dates ascend and its amounts add up to
the invoice total; an invoice's post balances exactly when its total is its nets plus its taxes,
and an invoice posts balanced from what it was created with; a credit note of a balanced post
balances; an installment drawdown moves exactly the applied amount up to the open room, and
rewinding it last installment first restores the schedule it started from; a percent term's
rounding remainder is carried by its last installment; a term validates exactly when it is well
formed; and a reversal with nothing to restore is decided before the ledger edge is touched.
