//! How a document-store table is billed, as chosen when it is created.

use vstd::prelude::*;

verus! {

/// The billing mode a table is created with: pay per request, or
/// provisioned with fixed read and write capacity units.
pub enum TableType {
    OnDemand,
    Provisioned(i64, i64),
}

} // verus!
