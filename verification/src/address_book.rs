//! Resolution of a service name to candidate addresses.
//!
//! The discovery service answers a query with a table mapping instance ids
//! to addresses; transport and decoding live with the caller's environment,
//! which hands the decoded table (or the fact that the query failed) to
//! [`addresses_from_table`]. Discovery failure degrades to an empty
//! [`AddressSet`] rather than an error: callers treat an empty set as
//! "service unavailable" and fail the operation before any dispatch.

use crate::cursor::AddressSet;
use vstd::prelude::*;

verus! {

/// Maps the discovery service's id-to-address table to an address set: the
/// addresses in table order, with the instance ids dropped. A failed query
/// (no table at all) yields the empty set.
pub fn addresses_from_table(table: Option<Vec<(String, String)>>) -> (r: AddressSet)
    ensures
        table is None ==> r@.len() == 0,
        table matches Some(t) ==> r@.len() == t@.len() && (forall|i: int|
            0 <= i < t@.len() ==> r@[i] == #[trigger] t@[i].1),
{
    match table {
        None => AddressSet::empty(),
        Some(t) => {
            let mut addrs: Vec<String> = Vec::new();
            let mut i: usize = 0;
            while i < t.len()
                invariant
                    i <= t.len(),
                    addrs@.len() == i as int,
                    forall|j: int| 0 <= j < i as int ==> addrs@[j] == #[trigger] t@[j].1,
                decreases t.len() - i,
            {
                addrs.push(t[i].1.clone());
                i = i + 1;
            }
            AddressSet::new(addrs)
        },
    }
}

} // verus!
