//! Status reporting: one record per instance, its identifier and its
//! serialized status.

use vstd::prelude::*;
use crate::ident::{hyphenated, uuid_text};

verus! {

/// An instance's hyphenated identifier and its serialized status.
#[derive(Debug, PartialEq, Eq)]
pub struct KeyValuePair {
    pub key: String,
    pub value: String,
}

impl View for KeyValuePair {
    type V = (Seq<char>, Seq<char>);

    open spec fn view(&self) -> (Seq<char>, Seq<char>) {
        (self.key@, self.value@)
    }
}

/// The records for a list of instance statuses: one for each status that
/// serialized (`Some`), in order; a status that did not serialize is skipped.
pub open spec fn status_pairs(entries: Seq<(u128, Option<String>)>) -> Seq<(Seq<char>, Seq<char>)>
    decreases entries.len(),
{
    if entries.len() == 0 {
        Seq::empty()
    } else {
        let rest = status_pairs(entries.drop_last());
        match entries.last().1 {
            Some(v) => rest.push((hyphenated(entries.last().0), v@)),
            None => rest,
        }
    }
}

/// The views of a list of records.
pub open spec fn pair_views(pairs: Seq<KeyValuePair>) -> Seq<(Seq<char>, Seq<char>)> {
    pairs.map_values(|p: KeyValuePair| p@)
}

/// Builds the status records from each instance's identifier and its
/// serialized status, skipping the statuses that did not serialize.
pub fn collect_network_infos(entries: &Vec<(u128, Option<String>)>) -> (r: Vec<KeyValuePair>)
    ensures
        pair_views(r@) == status_pairs(entries@),
{
    let mut r: Vec<KeyValuePair> = Vec::new();
    let mut i: usize = 0;
    while i < entries.len()
        invariant
            i <= entries@.len(),
            pair_views(r@) == status_pairs(entries@.take(i as int)),
        decreases entries@.len() - i,
    {
        proof {
            assert(entries@.take(i + 1).drop_last() =~= entries@.take(i as int));
            assert(entries@.take(i + 1).last() == entries@[i as int]);
        }
        let entry = &entries[i];
        match &entry.1 {
            Some(v) => {
                let pair = KeyValuePair { key: uuid_text(entry.0), value: v.clone() };
                let ghost before = r@;
                r.push(pair);
                proof {
                    assert(pair_views(r@) =~= pair_views(before).push(pair@));
                }
            },
            None => {},
        }
        i = i + 1;
    }
    proof {
        assert(entries@.take(i as int) =~= entries@);
    }
    r
}

} // verus!
