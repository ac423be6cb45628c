//! Resolved player identities, as returned by the remote batch name lookup.
//!
//! The lookup itself is a network call made outside the library; the answer
//! is best-effort, so an id missing from the result is a resolution failure
//! for that player only. This module holds the record type and the lookup
//! within a resolved batch.

use vstd::prelude::*;

verus! {

/// One resolved identity: a player id with its display name and tag.
#[derive(Debug, Clone)]
pub struct NameService {
    pub uuid: String,
    pub game_name: String,
    pub tag_line: String,
}

/// Mathematical model of a resolved identity.
#[verifier::ext_equal]
pub ghost struct NameSvcRec {
    pub uuid: Seq<char>,
    pub game_name: Seq<char>,
    pub tag_line: Seq<char>,
}

impl View for NameService {
    type V = NameSvcRec;

    open spec fn view(&self) -> NameSvcRec {
        NameSvcRec { uuid: self.uuid@, game_name: self.game_name@, tag_line: self.tag_line@ }
    }
}

/// Position of the first entry for `uuid` in a resolved batch, if any.
pub open spec fn spec_find_name(names: Seq<NameSvcRec>, uuid: Seq<char>) -> Option<int>
    decreases names.len(),
{
    if names.len() == 0 {
        None
    } else if names[0].uuid == uuid {
        Some(0)
    } else {
        match spec_find_name(names.drop_first(), uuid) {
            Some(i) => Some(i + 1),
            None => None,
        }
    }
}

/// `spec_find_name` finds the first entry for `uuid`, and finds none
/// exactly when the batch holds no entry for `uuid`.
pub proof fn lemma_spec_find_name(names: Seq<NameSvcRec>, uuid: Seq<char>)
    ensures
        match spec_find_name(names, uuid) {
            Some(i) => 0 <= i < names.len() && names[i].uuid == uuid && (forall|k: int|
                0 <= k < i ==> (#[trigger] names[k]).uuid != uuid),
            None => forall|k: int| 0 <= k < names.len() ==> (#[trigger] names[k]).uuid != uuid,
        },
    decreases names.len(),
{
    if names.len() == 0 {
    } else if names[0].uuid == uuid {
    } else {
        let df = names.drop_first();
        lemma_spec_find_name(df, uuid);
        match spec_find_name(df, uuid) {
            Some(i) => {
                assert(df[i] == names[i + 1]);
                assert forall|k: int| 0 <= k < i + 1 implies (#[trigger] names[k]).uuid != uuid by {
                    if k > 0 {
                        assert(df[k - 1] == names[k]);
                        assert(df[k - 1].uuid != uuid);
                    }
                }
            },
            None => {
                assert forall|k: int|
                    0 <= k < names.len() implies (#[trigger] names[k]).uuid != uuid by {
                    if k > 0 {
                        assert(df[k - 1] == names[k]);
                        assert(df[k - 1].uuid != uuid);
                    }
                }
            },
        }
    }
}

/// Find the first resolved identity for `uuid` in a batch.
pub fn find_name(names: &Vec<NameService>, uuid: &String) -> (r: Option<usize>)
    ensures
        match r {
            Some(i) => i < names@.len() && spec_find_name(
                names@.map_values(|n: NameService| n@),
                uuid@,
            ) == Some(i as int),
            None => spec_find_name(names@.map_values(|n: NameService| n@), uuid@) is None,
        },
{
    let ghost view = names@.map_values(|n: NameService| n@);
    let n = names.len();
    let mut i: usize = 0;
    while i < n
        invariant
            n == names@.len(),
            i <= n,
            view == names@.map_values(|q: NameService| q@),
            forall|k: int| 0 <= k < i ==> (#[trigger] view[k]).uuid != uuid@,
        decreases n - i,
    {
        if names[i].uuid == *uuid {
            proof {
                lemma_spec_find_name(view, uuid@);
                assert(view[i as int].uuid == uuid@);
                if spec_find_name(view, uuid@) is None {
                    assert(false);
                }
                let j = spec_find_name(view, uuid@)->Some_0;
                if j < i {
                    assert(view[j].uuid == uuid@);
                    assert(false);
                } else if i < j {
                    assert(view[i as int].uuid != uuid@);
                    assert(false);
                }
            }
            return Some(i);
        }
        i += 1;
    }
    proof {
        lemma_spec_find_name(view, uuid@);
        if spec_find_name(view, uuid@) is Some {
            let j = spec_find_name(view, uuid@)->Some_0;
            assert(view[j].uuid == uuid@);
            assert(false);
        }
    }
    None
}

} // verus!
