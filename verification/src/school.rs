use vstd::prelude::*;
use vstd::seq_lib::group_filter_ensures;
use crate::errors::ApiError;
use crate::model::School;
use crate::text::{contains_substring, spec_contains_sub};

verus! {

/// Whether a school's name contains the query as a substring.
pub open spec fn school_matches(s: School, query: Seq<char>) -> bool {
    spec_contains_sub(s.name@, query)
}

/// All schools whose name contains `query` as a substring, in directory
/// order. The reported match count is the length of the returned list.
pub fn search_schools(list: &Vec<School>, query: &str) -> (r: Vec<School>)
    ensures
        r@ == list@.filter(|s: School| school_matches(s, query@)),
{
    let ghost pred = |s: School| school_matches(s, query@);
    let mut r: Vec<School> = Vec::new();
    let mut i: usize = 0;
    while i < list.len()
        invariant
            i <= list.len(),
            r@ == list@.take(i as int).filter(pred),
            pred == (|s: School| school_matches(s, query@)),
        decreases list.len() - i,
    {
        if contains_substring(list[i].name.as_str(), query) {
            r.push(list[i].dup());
        }
        proof {
            assert(list@.take(i + 1).drop_last() =~= list@.take(i as int));
            assert(list@.take(i + 1).last() == list@[i as int]);
            reveal_with_fuel(Seq::filter, 2);
        }
        i += 1;
    }
    proof {
        assert(list@.take(list@.len() as int) =~= list@);
    }
    r
}

/// Every school whose name contains the query appears in the search
/// result; nothing that matches is left out.
pub proof fn lemma_search_complete(list: Seq<School>, query: Seq<char>, i: int)
    requires
        0 <= i < list.len(),
        school_matches(list[i], query),
    ensures
        list.filter(|s: School| school_matches(s, query)).contains(list[i]),
{
    broadcast use group_filter_ensures;

    assert(list.filter(|s: School| school_matches(s, query)).contains(list[i]));
}

/// Only matching schools appear in the search result.
pub proof fn lemma_search_sound(list: Seq<School>, query: Seq<char>, i: int)
    requires
        0 <= i < list.filter(|s: School| school_matches(s, query)).len(),
    ensures
        school_matches(list.filter(|s: School| school_matches(s, query))[i], query),
{
    broadcast use group_filter_ensures;

    assert(school_matches(list.filter(|s: School| school_matches(s, query))[i], query));
}

/// Validates a school identifier against the directory: the first school
/// whose id equals `school_id` exactly, or a fatal `Lookup` error when the
/// directory holds none.
pub fn resolve_school(list: &Vec<School>, school_id: &String) -> (r: Result<School, ApiError>)
    ensures
        r is Ok <==> (exists|i: int|
            0 <= i < list@.len() && (#[trigger] list@[i]).id@ == school_id@),
        r matches Ok(s) ==> (exists|i: int|
            0 <= i < list@.len() && (#[trigger] list@[i]) == s && s.id@ == school_id@
                && (forall|k: int| 0 <= k < i ==> list@[k].id@ != school_id@)),
        r matches Err(e) ==> (e matches ApiError::Lookup { key } && key@ == school_id@),
{
    let mut i: usize = 0;
    while i < list.len()
        invariant
            i <= list.len(),
            forall|k: int| 0 <= k < i ==> (#[trigger] list@[k]).id@ != school_id@,
        decreases list.len() - i,
    {
        if list[i].id.eq(school_id) {
            return Ok(list[i].dup());
        }
        i += 1;
    }
    Err(ApiError::Lookup { key: school_id.clone() })
}

} // verus!
