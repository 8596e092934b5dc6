//! Accounts-receivable reminder logic for a tenant contract: invoice
//! validation, civil-date arithmetic, listing filters, upsert merging and the
//! reminder workflow, each with a contract proved by Verus.

use vstd::prelude::*;

pub mod dates;
pub mod invoices;
pub mod listing;
pub mod remind;
pub mod tenant;
pub mod text;

verus! {

/// Version of the contract, `MAJOR.MINOR.PATCH`.
pub const CONTRACT_VERSION: &'static str = "0.1.0";

} // verus!
