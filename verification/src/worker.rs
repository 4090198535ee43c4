//! The computing half of the fetch worker. The worker thread blocks on the
//! refresh-request channel, performs one fetch-and-extract call to the
//! external collaborator, and streams the records back. The collaborator
//! yields records in the source's natural order, newest last; before sending
//! them the worker normalizes that to the newest-first insertion order the
//! dashboard expects, which is a plain reversal.

use crate::record::ThwDatum;
use vstd::prelude::*;

verus! {

/// Reverse a fetched batch into insertion order: the collaborator's
/// newest-last order becomes the newest-first order the task list inserts
/// in.
pub fn normalize_records(records: Vec<ThwDatum>) -> (out: Vec<ThwDatum>)
    ensures
        out@ == records@.reverse(),
{
    let ghost orig = records@;
    let mut records = records;
    let mut out: Vec<ThwDatum> = Vec::new();
    while records.len() > 0
        invariant
            records@.len() <= orig.len(),
            records@ == orig.take(records@.len() as int),
            out@ == orig.skip(records@.len() as int).reverse(),
        decreases records@.len(),
    {
        let ghost n = records@.len() as int;
        let r = records.pop().unwrap();
        out.push(r);
        proof {
            assert(records@ =~= orig.take(n - 1));
            assert(out@ =~= orig.skip(n - 1).reverse());
        }
    }
    proof {
        assert(out@ =~= orig.reverse());
    }
    out
}

} // verus!
