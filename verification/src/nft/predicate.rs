//! Predicates over the traits selected so far.
//!
//! A predicate is a list of clauses separated by `|`. A clause `group:value`
//! asks for that value in that group; a clause without `:` asks for the value
//! in any group. A predicate holds when each of its clauses does.

use crate::nft::metadata::{traits_view, Trait, TraitView};
use crate::text::{
    char_count, find_from, index_of, lemma_index_of_bounds, piece, split,
};
use vstd::prelude::*;

verus! {

/// Whether some selected trait answers `clause`.
pub open spec fn clause_holds(clause: Seq<char>, selected: Seq<TraitView>) -> bool {
    let i = index_of(clause, ':');
    if 0 <= i < clause.len() {
        exists|k: int|
            0 <= k < selected.len() && #[trigger] selected[k].trait_type == clause.take(i)
                && selected[k].value == clause.skip(i + 1)
    } else {
        exists|k: int| 0 <= k < selected.len() && #[trigger] selected[k].value == clause
    }
}

/// Whether every clause of `predicate` is answered by a selected trait.
pub open spec fn predicate_holds(predicate: Seq<char>, selected: Seq<TraitView>) -> bool {
    forall|i: int|
        0 <= i < split(predicate, '|').len() ==> clause_holds(
            #[trigger] split(predicate, '|')[i],
            selected,
        )
}

/// A predicate holds when its first clause does and what follows the first
/// `|` holds; one without `|` is its own single clause.
pub proof fn lemma_predicate_unfold(predicate: Seq<char>, selected: Seq<TraitView>)
    ensures
        predicate_holds(predicate, selected) == {
            let i = index_of(predicate, '|');
            if 0 <= i < predicate.len() {
                clause_holds(predicate.take(i), selected) && predicate_holds(
                    predicate.skip(i + 1),
                    selected,
                )
            } else {
                clause_holds(predicate, selected)
            }
        },
{
    let i = index_of(predicate, '|');
    let all = split(predicate, '|');
    if 0 <= i < predicate.len() {
        let rest = split(predicate.skip(i + 1), '|');
        assert(all == seq![predicate.take(i)] + rest);
        assert(all[0] == predicate.take(i));
        assert forall|j: int| 0 <= j < rest.len() implies rest[j] == all[j + 1] by {}
        if predicate_holds(predicate, selected) {
            assert(clause_holds(all[0], selected));
            assert forall|j: int| 0 <= j < rest.len() implies clause_holds(
                #[trigger] rest[j],
                selected,
            ) by {
                assert(clause_holds(all[j + 1], selected));
            }
        }
        if clause_holds(predicate.take(i), selected) && predicate_holds(
            predicate.skip(i + 1),
            selected,
        ) {
            assert forall|j: int| 0 <= j < all.len() implies clause_holds(
                #[trigger] all[j],
                selected,
            ) by {
                if j > 0 {
                    assert(all[j] == rest[j - 1]);
                }
            }
        }
    } else {
        assert(all == seq![predicate]);
        assert(all[0] == predicate);
    }
}

/// Whether a selected trait answers `clause`.
#[verifier::loop_isolation(false)]
pub fn clause_satisfied(clause: &str, selected: &Vec<Trait>) -> (r: bool)
    ensures
        r == clause_holds(clause@, traits_view(selected@)),
{
    let ghost views = traits_view(selected@);
    let n = char_count(clause);
    assert(clause@.skip(0) =~= clause@);
    let i = find_from(clause, 0, ':');
    let mut k: usize = 0;
    if i < n {
        let group = piece(clause, 0, i);
        let value = piece(clause, i + 1, n);
        assert(group@ =~= clause@.take(i as int));
        assert(value@ =~= clause@.skip(i + 1));
        while k < selected.len()
            invariant
                k <= selected.len(),
                views == traits_view(selected@),
                forall|j: int|
                    0 <= j < k ==> !(#[trigger] views[j].trait_type == group@ && views[j].value
                        == value@),
            decreases selected.len() - k,
        {
            if selected[k].trait_type == group && selected[k].value == value {
                assert(views[k as int].trait_type == group@ && views[k as int].value == value@);
                return true;
            }
            k += 1;
        }
        false
    } else {
        let whole = clause.to_owned();
        while k < selected.len()
            invariant
                k <= selected.len(),
                views == traits_view(selected@),
                whole@ == clause@,
                forall|j: int| 0 <= j < k ==> #[trigger] views[j].value != clause@,
            decreases selected.len() - k,
        {
            if selected[k].value == whole {
                assert(views[k as int].value == clause@);
                return true;
            }
            k += 1;
        }
        false
    }
}

/// Whether the selected traits answer every clause of `predicate`.
pub fn predicate_satisfied(predicate: &str, selected: &Vec<Trait>) -> (r: bool)
    ensures
        r == predicate_holds(predicate@, traits_view(selected@)),
{
    let ghost views = traits_view(selected@);
    let n = char_count(predicate);
    let mut start: usize = 0;
    assert(predicate@.skip(0) =~= predicate@);
    loop
        invariant
            start <= n,
            n == predicate@.len(),
            views == traits_view(selected@),
            predicate_holds(predicate@, views) == predicate_holds(
                predicate@.skip(start as int),
                views,
            ),
        decreases n - start,
    {
        let ghost rest = predicate@.skip(start as int);
        let end = find_from(predicate, start, '|');
        let clause = piece(predicate, start, end);
        proof {
            lemma_predicate_unfold(rest, views);
            lemma_index_of_bounds(rest, '|');
            assert(clause@ =~= rest.take(end - start));
            if end >= n {
                assert(clause@ =~= rest);
            } else {
                assert(rest.skip(end - start + 1) =~= predicate@.skip(end + 1));
            }
        }
        if !clause_satisfied(clause.as_str(), selected) {
            return false;
        }
        if end >= n {
            return true;
        }
        start = end + 1;
    }
}

} // verus!
