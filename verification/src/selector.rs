use crate::account::{is_below, is_subaccount_name, Identifier};
use crate::text::same_text;
use vstd::prelude::*;

verus! {

/// The operator's choice of which accounts a run offers for removal.
#[derive(Debug, Clone, PartialEq, Eq)]
pub enum MasterFilter {
    /// Every account.
    Wildcard,
    /// This account and the accounts below it.
    Account(Identifier),
}

/// One stored account that is not the beneficiary, and whether the filter lets it through.
#[derive(Debug, Clone, PartialEq, Eq)]
pub struct Candidate {
    pub name: String,
    pub included: bool,
}

impl View for Candidate {
    type V = (Seq<char>, bool);

    open spec fn view(&self) -> (Seq<char>, bool) {
        (self.name@, self.included)
    }
}

/// The texts of `names`, in order.
pub open spec fn texts(names: Seq<String>) -> Seq<Seq<char>> {
    names.map_values(|name: String| name@)
}

/// The views of `candidates`, in order.
pub open spec fn views(candidates: Seq<Candidate>) -> Seq<(Seq<char>, bool)> {
    candidates.map_values(|candidate: Candidate| candidate@)
}

/// Whether `filter` lets `name` through: no filter and the wildcard admit every name, a master
/// account admits itself and what lies below it.
pub open spec fn admits(filter: Option<MasterFilter>, name: Seq<char>) -> bool {
    match filter {
        None => true,
        Some(MasterFilter::Wildcard) => true,
        Some(MasterFilter::Account(master)) => name == master@ || is_subaccount_name(
            name,
            master@,
        ),
    }
}

/// The test that tells the beneficiary's name from every other.
pub open spec fn is_other(beneficiary: Seq<char>) -> spec_fn(Seq<char>) -> bool {
    |name: Seq<char>| name != beneficiary
}

/// The pairing of a name with the filter's answer on it.
pub open spec fn marked(filter: Option<MasterFilter>) -> spec_fn(Seq<char>) -> (Seq<char>, bool) {
    |name: Seq<char>| (name, admits(filter, name))
}

/// The names that stay when the beneficiary's is taken out of `names`.
pub open spec fn others(names: Seq<Seq<char>>, beneficiary: Seq<char>) -> Seq<Seq<char>> {
    names.filter(is_other(beneficiary))
}

/// The candidates among `names`: every name but the beneficiary's, in the order given, each with
/// the filter's answer.
pub open spec fn selection(
    names: Seq<Seq<char>>,
    beneficiary: Seq<char>,
    filter: Option<MasterFilter>,
) -> Seq<(Seq<char>, bool)> {
    others(names, beneficiary).map_values(marked(filter))
}

/// Whether `filter` lets `name` through.
pub fn filter_admits(filter: &Option<MasterFilter>, name: &str) -> (admitted: bool)
    ensures
        admitted == admits(*filter, name@),
{
    match filter {
        None => true,
        Some(MasterFilter::Wildcard) => true,
        Some(MasterFilter::Account(master)) => same_text(name, master.as_str()) || is_below(
            name,
            master.as_str(),
        ),
    }
}

/// Picks the candidates for removal among the stored names. The beneficiary is never one of
/// them; every other name comes out once for each time it was given, in the order given, marked
/// with whether the filter includes it.
pub fn select(names: &Vec<String>, beneficiary: &Identifier, filter: &Option<MasterFilter>) -> (candidates: Vec<Candidate>)
    ensures
        views(candidates@) == selection(texts(names@), beneficiary@, *filter),
{
    let mut candidates: Vec<Candidate> = Vec::new();
    let ghost keep = is_other(beneficiary@);
    let ghost mark = marked(*filter);
    let mut i: usize = 0;
    while i < names.len()
        invariant
            i <= names.len(),
            keep == is_other(beneficiary@),
            mark == marked(*filter),
            views(candidates@) == texts(names@).take(i as int).filter(keep).map_values(mark),
        decreases names.len() - i,
    {
        let name = &names[i];
        proof {
            let before = texts(names@).take(i as int);
            let now = texts(names@).take(i + 1);
            assert(now.drop_last() =~= before);
            assert(now.last() == name@);
            reveal(Seq::filter);
            assert(now.filter(keep) == if keep(name@) {
                before.filter(keep).push(name@)
            } else {
                before.filter(keep)
            });
        }
        if !same_text(name.as_str(), beneficiary.as_str()) {
            let included = filter_admits(filter, name.as_str());
            let ghost earlier = candidates@;
            candidates.push(Candidate { name: name.clone(), included });
            proof {
                let kept = texts(names@).take(i as int).filter(keep);
                assert(views(candidates@) =~= views(earlier).push((name@, included)));
                assert(kept.push(name@).map_values(mark) =~= kept.map_values(mark).push(
                    mark(name@),
                ));
            }
        }
        i += 1;
    }
    assert(texts(names@).take(names.len() as int) =~= texts(names@));
    candidates
}

/// Whether the candidate at `place` of the selection is the stored name at `entry`: that name
/// is not the beneficiary's, and `place` names that are not the beneficiary's stand before it.
pub open spec fn is_entry_of(
    names: Seq<Seq<char>>,
    beneficiary: Seq<char>,
    place: int,
    entry: int,
) -> bool {
    &&& 0 <= entry < names.len()
    &&& names[entry] != beneficiary
    &&& others(names.take(entry), beneficiary).len() == place
}

/// The names that are not the beneficiary's among the first `n` stored names are the first of
/// all such names, and a name that stays is the next of them.
proof fn lemma_others_of_prefix(names: Seq<Seq<char>>, beneficiary: Seq<char>, n: int)
    requires
        0 <= n < names.len(),
    ensures
        others(names.take(n), beneficiary).is_prefix_of(others(names, beneficiary)),
        others(names.take(n + 1), beneficiary) == if names[n] != beneficiary {
            others(names.take(n), beneficiary).push(names[n])
        } else {
            others(names.take(n), beneficiary)
        },
        others(names.take(n + 1), beneficiary).is_prefix_of(others(names, beneficiary)),
{
    let keep = is_other(beneficiary);
    reveal(Seq::filter);
    assert(names.take(n + 1).drop_last() =~= names.take(n));
    assert(names.take(n) + names.skip(n) =~= names);
    assert(names.take(n + 1) + names.skip(n + 1) =~= names);
    Seq::filter_distributes_over_add(names.take(n), names.skip(n), keep);
    Seq::filter_distributes_over_add(names.take(n + 1), names.skip(n + 1), keep);
}

/// Finds the stored name that the candidate at `place` was selected from. Gives its place
/// among `names`, or `None` where the selection has no candidate at `place`.
pub fn entry_of(names: &Vec<String>, beneficiary: &Identifier, place: usize) -> (entry: Option<usize>)
    ensures
        match entry {
            Some(at) => is_entry_of(texts(names@), beneficiary@, place as int, at as int) && place
                < others(texts(names@), beneficiary@).len() && others(
                texts(names@),
                beneficiary@,
            )[place as int] == names@[at as int]@,
            None => place >= others(texts(names@), beneficiary@).len(),
        },
{
    let mut passed: usize = 0;
    let mut i: usize = 0;
    while i < names.len()
        invariant
            i <= names.len(),
            passed <= i,
            passed <= place,
            passed == others(texts(names@).take(i as int), beneficiary@).len(),
        decreases names.len() - i,
    {
        proof {
            lemma_others_of_prefix(texts(names@), beneficiary@, i as int);
        }
        if !same_text(names[i].as_str(), beneficiary.as_str()) {
            if passed == place {
                proof {
                    let all = texts(names@);
                    let found = others(all.take(i + 1), beneficiary@);
                    assert(all[i as int] == names@[i as int]@);
                    assert(found.len() == place + 1);
                    assert(found[place as int] == all[i as int]);
                    assert(others(all, beneficiary@).subrange(0, found.len() as int)[place as int]
                        == others(all, beneficiary@)[place as int]);
                }
                return Some(i);
            }
            passed += 1;
        }
        i += 1;
    }
    assert(texts(names@).take(names.len() as int) =~= texts(names@));
    None
}

/// Whether `entry` stands in `candidates`, and no other place of `candidates` holds its name.
pub open spec fn listed_once(candidates: Seq<(Seq<char>, bool)>, entry: (Seq<char>, bool)) -> bool {
    exists|i: int|
        0 <= i < candidates.len() && #[trigger] candidates[i] == entry && forall|j: int|
            0 <= j < candidates.len() && (#[trigger] candidates[j]).0 == entry.0 ==> j == i
}

/// The selection lists the names that are not the beneficiary's, place by place, each with the
/// filter's answer.
pub proof fn lemma_selection_entries(
    names: Seq<Seq<char>>,
    beneficiary: Seq<char>,
    filter: Option<MasterFilter>,
)
    ensures
        selection(names, beneficiary, filter).len() == others(names, beneficiary).len(),
        forall|i: int|
            0 <= i < others(names, beneficiary).len() ==> #[trigger] selection(
                names,
                beneficiary,
                filter,
            )[i] == (others(names, beneficiary)[i], admits(filter, others(names, beneficiary)[i])),
{
}

/// Taking elements out of a sequence without repetitions leaves none repeated.
proof fn lemma_filter_keeps_distinct(names: Seq<Seq<char>>, keep: spec_fn(Seq<char>) -> bool)
    requires
        names.no_duplicates(),
    ensures
        names.filter(keep).no_duplicates(),
    decreases names.len(),
{
    reveal(Seq::filter);
    if names.len() > 0 {
        let rest = names.drop_last();
        lemma_filter_keeps_distinct(rest, keep);
        if keep(names.last()) {
            let kept = rest.filter(keep);
            assert forall|i: int| 0 <= i < kept.len() implies kept[i] != names.last() by {
                if kept[i] == names.last() {
                    assert(kept.contains(names.last()));
                    rest.lemma_filter_contains_rev(keep, names.last());
                    let j = choose|j: int| 0 <= j < rest.len() && rest[j] == names.last();
                    assert(names[j] == names[names.len() - 1]);
                }
            }
        }
    }
}

/// The beneficiary is never a candidate, whatever is stored and whatever the filter.
pub proof fn law_beneficiary_excluded(
    names: Seq<Seq<char>>,
    beneficiary: Seq<char>,
    filter: Option<MasterFilter>,
)
    ensures
        forall|i: int|
            0 <= i < selection(names, beneficiary, filter).len() ==> (#[trigger] selection(
                names,
                beneficiary,
                filter,
            )[i]).0 != beneficiary,
{
    lemma_selection_entries(names, beneficiary, filter);
    let kept = others(names, beneficiary);
    assert forall|i: int| 0 <= i < selection(names, beneficiary, filter).len() implies (
    #[trigger] selection(names, beneficiary, filter)[i]).0 != beneficiary by {
        names.lemma_filter_pred(is_other(beneficiary), i);
    }
}

/// Every stored name that is not the beneficiary's is a candidate exactly once, with the
/// filter's answer, when no name is stored twice.
pub proof fn law_each_name_once(
    names: Seq<Seq<char>>,
    beneficiary: Seq<char>,
    filter: Option<MasterFilter>,
    name: Seq<char>,
)
    requires
        names.no_duplicates(),
        names.contains(name),
        name != beneficiary,
    ensures
        listed_once(selection(names, beneficiary, filter), (name, admits(filter, name))),
{
    let keep = is_other(beneficiary);
    let kept = others(names, beneficiary);
    let chosen = selection(names, beneficiary, filter);
    lemma_selection_entries(names, beneficiary, filter);
    lemma_filter_keeps_distinct(names, keep);
    let at = choose|at: int| 0 <= at < names.len() && names[at] == name;
    names.lemma_filter_contains(keep, at);
    let i = choose|i: int| 0 <= i < kept.len() && kept[i] == name;
    assert(chosen[i] == (name, admits(filter, name)));
    assert forall|j: int| 0 <= j < chosen.len() && (#[trigger] chosen[j]).0 == name implies j
        == i by {
        assert(kept[j] == kept[i]);
    }
}

/// With the wildcard, or with no filter at all, every stored name that is not the
/// beneficiary's is a candidate exactly once and is included, when no name is stored twice.
pub proof fn law_wildcard_includes_all(
    names: Seq<Seq<char>>,
    beneficiary: Seq<char>,
    filter: Option<MasterFilter>,
    name: Seq<char>,
)
    requires
        names.no_duplicates(),
        names.contains(name),
        name != beneficiary,
        filter is None || filter matches Some(MasterFilter::Wildcard),
    ensures
        listed_once(selection(names, beneficiary, filter), (name, true)),
{
    law_each_name_once(names, beneficiary, filter, name);
}

/// With a master account as the filter, a candidate is included exactly when it is the master
/// itself or lies below it.
pub proof fn law_master_includes_subaccounts(
    names: Seq<Seq<char>>,
    beneficiary: Seq<char>,
    master: Identifier,
)
    ensures
        forall|i: int|
            #![trigger selection(names, beneficiary, Some(MasterFilter::Account(master)))[i]]
            0 <= i < selection(names, beneficiary, Some(MasterFilter::Account(master))).len() ==> {
                let entry = selection(names, beneficiary, Some(MasterFilter::Account(master)))[i];
                entry.1 <==> entry.0 == master@ || is_subaccount_name(entry.0, master@)
            },
{
    lemma_selection_entries(names, beneficiary, Some(MasterFilter::Account(master)));
}

} // verus!
