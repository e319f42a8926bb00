//! The scenarios loaded in the application, and the checks made before one
//! is executed or removed.
use vstd::prelude::*;

use crate::text::{push_str, str_eq, to_owned_string};
use crate::types::ScenarioInfo;

verus! {

/// `i` is the first scenario with id `id`.
pub open spec fn is_first_scenario(ss: Seq<ScenarioInfo>, id: Seq<char>, i: int) -> bool {
    &&& 0 <= i < ss.len()
    &&& ss[i].id@ == id
    &&& forall|j: int| 0 <= j < i ==> ss[j].id@ != id
}

/// Some scenario has id `id`.
pub open spec fn has_scenario(ss: Seq<ScenarioInfo>, id: Seq<char>) -> bool {
    exists|i: int| 0 <= i < ss.len() && ss[i].id@ == id
}

/// The message for an unknown scenario.
pub open spec fn scenario_not_found(id: Seq<char>) -> Seq<char> {
    "Scenario not found: "@ + id
}

/// The predicate "this scenario does not have id `id`".
pub open spec fn other_scenario(id: Seq<char>) -> spec_fn(ScenarioInfo) -> bool {
    |s: ScenarioInfo| s.id@ != id
}

fn not_found(id: &str) -> (r: String)
    ensures
        r@ == scenario_not_found(id@),
{
    let mut m = to_owned_string("Scenario not found: ");
    push_str(&mut m, id);
    m
}

/// Finds the first scenario with the given id.
pub fn find_scenario(ss: &[ScenarioInfo], id: &str) -> (r: Option<usize>)
    ensures
        match r {
            Some(i) => is_first_scenario(ss@, id@, i as int),
            None => !has_scenario(ss@, id@),
        },
{
    let mut i: usize = 0;
    while i < ss.len()
        invariant
            i <= ss@.len(),
            forall|j: int| 0 <= j < i ==> ss@[j].id@ != id@,
        decreases ss@.len() - i,
    {
        if str_eq(ss[i].id.as_str(), id) {
            return Some(i);
        }
        i = i + 1;
    }
    None
}

/// The scenario to execute for a request: the first with the given id,
/// which must have at least one turn.
pub fn scenario_for_execution(ss: &[ScenarioInfo], scenario_id: &str) -> (r: Result<ScenarioInfo, String>)
    ensures
        match r {
            Ok(s) => exists|i: int|
                is_first_scenario(ss@, scenario_id@, i) && s.id == ss@[i].id && s.name == ss@[i].name
                    && s.description == ss@[i].description && s.turns@ == ss@[i].turns@
                    && s.created_at == ss@[i].created_at && s.turns@.len() > 0,
            Err(e) => if has_scenario(ss@, scenario_id@) {
                exists|i: int|
                    is_first_scenario(ss@, scenario_id@, i) && ss@[i].turns@.len() == 0
                        && e@ == "Scenario has no turns"@
            } else {
                e@ == scenario_not_found(scenario_id@)
            },
        },
{
    match find_scenario(ss, scenario_id) {
        None => Err(not_found(scenario_id)),
        Some(i) => {
            if ss[i].turns.len() == 0 {
                Err(to_owned_string("Scenario has no turns"))
            } else {
                Ok(ss[i].clone())
            }
        },
    }
}

/// Removes every scenario with the given id; fails when there is none.
pub fn delete_scenario(ss: &mut Vec<ScenarioInfo>, scenario_id: &str) -> (r: Result<(), String>)
    ensures
        final(ss)@ == old(ss)@.filter(other_scenario(scenario_id@)),
        has_scenario(old(ss)@, scenario_id@) <==> r is Ok,
        r matches Err(e) ==> e@ == scenario_not_found(scenario_id@),
{
    let ghost old_ss = old(ss)@;
    let ghost keep = other_scenario(scenario_id@);
    let len_before = ss.len();
    let mut j: usize = ss.len();
    assert(old_ss.skip(old_ss.len() as int) =~= Seq::<ScenarioInfo>::empty());
    assert(old_ss.take(old_ss.len() as int) =~= old_ss);
    proof {
        reveal(Seq::filter);
    }
    while j > 0
        invariant
            j <= old_ss.len(),
            len_before == old_ss.len(),
            keep == other_scenario(scenario_id@),
            ss@ == old_ss.take(j as int) + old_ss.skip(j as int).filter(keep),
        decreases j,
    {
        j = j - 1;
        let ghost tail = old_ss.skip(j + 1);
        assert(old_ss.skip(j as int) =~= seq![old_ss[j as int]] + tail);
        proof {
            tail.lemma_filter_prepend(old_ss[j as int], keep);
        }
        assert(old_ss.take(j + 1) =~= old_ss.take(j as int).push(old_ss[j as int]));
        assert(ss@[j as int] == old_ss[j as int]);
        if str_eq(ss[j].id.as_str(), scenario_id) {
            assert(!keep(old_ss[j as int]));
            ss.remove(j);
            assert(ss@ =~= old_ss.take(j as int) + old_ss.skip(j as int).filter(keep));
        } else {
            assert(keep(old_ss[j as int]));
            assert(ss@ =~= old_ss.take(j as int) + old_ss.skip(j as int).filter(keep));
        }
    }
    assert(old_ss.skip(0) =~= old_ss);
    assert(old_ss.take(0) =~= Seq::<ScenarioInfo>::empty());
    assert(ss@ =~= old_ss.filter(keep));
    proof {
        old_ss.lemma_filter_len(keep);
        if has_scenario(old_ss, scenario_id@) {
            let w = choose|i: int| 0 <= i < old_ss.len() && old_ss[i].id@ == scenario_id@;
            assert(!old_ss.filter(keep).contains(old_ss[w])) by {
                broadcast use vstd::seq_lib::group_filter_ensures;

            }
            assert(old_ss.contains(old_ss[w]));
            if old_ss.filter(keep).len() == old_ss.len() {
                crate::playlist::lemma_filter_len_same(old_ss, keep);
            }
        } else {
            assert forall|i: int| 0 <= i < old_ss.len() implies keep(old_ss[i]) by {}
            crate::playlist::lemma_filter_all(old_ss, keep);
        }
    }
    if ss.len() == len_before {
        return Err(not_found(scenario_id));
    }
    Ok(())
}

} // verus!
