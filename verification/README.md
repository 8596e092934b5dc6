# tenant_ar

Accounts-receivable reminder logic for a tenant contract, verified with Verus.

- `src/dates.rs`: `YYYY-MM-DD` due dates, the civil-date day numbering and its laws.
- `src/invoices.rs`: invoice records, upsert validation and merging, the overdue rule.
- `src/listing.rs`: listing filters and the paged scan that collects matching invoices.
- `src/remind.rs`: the reminder workflow as a state machine: cooldown, email, bookkeeping.
- `src/tenant.rs`: names of the tenant's key-value maps (via `hex::encode`).
- `src/text.rs`: text equality and decimal rendering.
- `app/`: JSON parsing and rendering with serde, and the host interface (key-value store,
  clock, logging, HTTP) that drives the library.
