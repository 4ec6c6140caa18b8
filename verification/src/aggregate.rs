//! Gathering the reports of all projects into one, in the order of the
//! manifest, whatever the order in which the probes end.

use vstd::prelude::*;

use crate::error::{RepoStatusError, RepoStatusErrorView};
use crate::text::{join_with, joined};

verus! {

/// How the probe of one project ended: with its report, or with a failure.
pub type Outcome = Result<String, RepoStatusError>;

/// An `Outcome` as a mathematical value.
pub type OutcomeView = Result<Seq<char>, RepoStatusErrorView>;

/// The mathematical value of an outcome.
pub open spec fn outcome_view(outcome: Outcome) -> OutcomeView {
    match outcome {
        Ok(report) => Ok(report@),
        Err(failure) => Err(failure@),
    }
}

/// The mathematical values of a list of outcomes.
pub open spec fn outcome_views(outcomes: Seq<Outcome>) -> Seq<OutcomeView> {
    outcomes.map_values(|outcome: Outcome| outcome_view(outcome))
}

/// The reports that are not empty, in their order, one under the other.
pub open spec fn combined(reports: Seq<Seq<char>>) -> Seq<char> {
    joined(reports.filter(|report: Seq<char>| report.len() > 0), "\n"@)
}

/// The reports of a list of outcomes; for a failure, the empty report.
pub open spec fn reports_of(outcomes: Seq<OutcomeView>) -> Seq<Seq<char>> {
    outcomes.map_values(
        |outcome: OutcomeView|
            match outcome {
                Ok(report) => report,
                Err(_) => Seq::empty(),
            },
    )
}

/// `index` is the place of the first failure among `outcomes`.
pub open spec fn is_first_failure(outcomes: Seq<OutcomeView>, index: int) -> bool {
    &&& 0 <= index < outcomes.len()
    &&& outcomes[index] is Err
    &&& forall|earlier: int| 0 <= earlier < index ==> (#[trigger] outcomes[earlier]) is Ok
}

/// No probe failed.
pub open spec fn all_succeeded(outcomes: Seq<OutcomeView>) -> bool {
    forall|index: int| 0 <= index < outcomes.len() ==> (#[trigger] outcomes[index]) is Ok
}

/// `result` is what the probes' outcomes, taken in the order of the manifest,
/// add up to: where none failed, their reports combined; else the failure
/// that stands first in that order.
pub open spec fn is_aggregate(outcomes: Seq<OutcomeView>, result: OutcomeView) -> bool {
    match result {
        Ok(text) => all_succeeded(outcomes) && text == combined(reports_of(outcomes)),
        Err(failure) => exists|index: int|
            #[trigger] is_first_failure(outcomes, index) && outcomes[index] == Err::<
                Seq<char>,
                RepoStatusErrorView,
            >(failure),
    }
}

/// Joins the reports that are not empty with a line break between each two:
/// a clean project adds nothing, not even an empty line.
pub fn join_reports(reports: &Vec<String>) -> (text: String)
    ensures
        text@ == combined(reports.deep_view()),
{
    let ghost all = reports.deep_view();
    let ghost kept_if = |report: Seq<char>| report.len() > 0;
    let mut kept: Vec<String> = Vec::new();
    let mut i: usize = 0;
    assert(all.take(0) =~= Seq::empty());
    assert(all.take(0).filter(kept_if) =~= Seq::empty()) by {
        reveal(Seq::filter);
    }
    while i < reports.len()
        invariant
            i <= reports.len(),
            all == reports.deep_view(),
            kept_if == |report: Seq<char>| report.len() > 0,
            kept.deep_view() == all.take(i as int).filter(kept_if),
        decreases reports.len() - i,
    {
        let report = &reports[i];
        let ghost before = kept.deep_view();
        proof {
            assert(all.take(i as int + 1) =~= all.take(i as int).push(report@));
            all.take(i as int).lemma_filter_push(report@, kept_if);
        }
        if !report.as_str().is_empty() {
            kept.push(report.clone());
            assert(kept.deep_view() =~= before.push(report@));
        }
        i += 1;
    }
    assert(all.take(i as int) =~= all);
    join_with(&kept, "\n")
}

/// Adds up the outcomes of the probes, which stand in the order of the
/// manifest. One failure fails the whole: the first in that order is handed
/// back, and no report.
pub fn aggregate(outcomes: Vec<Outcome>) -> (result: Outcome)
    ensures
        is_aggregate(outcome_views(outcomes@), outcome_view(result)),
{
    let ghost views = outcome_views(outcomes@);
    let mut pending = outcomes;
    let mut reports: Vec<String> = Vec::new();
    let mut i: usize = 0;
    while i < pending.len()
        invariant
            i <= pending.len(),
            pending@ == outcomes@,
            views == outcome_views(outcomes@),
            reports.deep_view() == reports_of(views.take(i as int)),
            forall|earlier: int| 0 <= earlier < i ==> (#[trigger] views[earlier]) is Ok,
        decreases pending.len() - i,
    {
        let ghost before = reports.deep_view();
        match &pending[i] {
            Ok(report) => {
                reports.push(report.clone());
                assert(reports.deep_view() =~= reports_of(views.take(i as int + 1))) by {
                    assert(views.take(i as int + 1) =~= views.take(i as int).push(views[i as int]));
                    assert(reports.deep_view() =~= before.push(report@));
                }
            },
            Err(_) => {
                let failed = pending.remove(i);
                let failure = failed.unwrap_err();
                assert(is_first_failure(views, i as int));
                assert(views[i as int] == Err::<Seq<char>, RepoStatusErrorView>(failure@));
                return Err(failure);
            },
        }
        i += 1;
    }
    assert(views.take(i as int) =~= views);
    Ok(join_reports(&reports))
}

/// The mathematical value of a place: empty, or the outcome that it holds.
pub open spec fn slot_view(slot: Option<Outcome>) -> Option<OutcomeView> {
    match slot {
        Some(outcome) => Some(outcome_view(outcome)),
        None => None,
    }
}

/// Every place holds an outcome.
pub open spec fn filled(slots: Seq<Option<OutcomeView>>) -> bool {
    forall|index: int| 0 <= index < slots.len() ==> (#[trigger] slots[index]) is Some
}

/// The outcomes that the places hold, in the order of the places.
pub open spec fn outcomes_in(slots: Seq<Option<OutcomeView>>) -> Seq<OutcomeView> {
    slots.map_values(|slot: Option<OutcomeView>| slot->Some_0)
}

/// The places after `outcome` is put at `index`; unchanged where there is no
/// such place.
pub open spec fn placed(
    slots: Seq<Option<OutcomeView>>,
    index: int,
    outcome: OutcomeView,
) -> Seq<Option<OutcomeView>> {
    if 0 <= index < slots.len() {
        slots.update(index, Some(outcome))
    } else {
        slots
    }
}

/// The places after each of `completions`, a place and the outcome for it,
/// is put there in turn.
pub open spec fn placed_all(
    slots: Seq<Option<OutcomeView>>,
    completions: Seq<(int, OutcomeView)>,
) -> Seq<Option<OutcomeView>>
    decreases completions.len(),
{
    if completions.len() == 0 {
        slots
    } else {
        placed(
            placed_all(slots, completions.drop_last()),
            completions.last().0,
            completions.last().1,
        )
    }
}

/// One of `completions` is for the place `index`.
pub open spec fn names(completions: Seq<(int, OutcomeView)>, index: int) -> bool {
    exists|turn: int| 0 <= turn < completions.len() && (#[trigger] completions[turn]).0 == index
}

/// One place for the outcome of each project's probe, in the order of the
/// manifest. The probes run side by side and end in any order; each puts its
/// outcome at its own place, and the whole is read off when all have ended.
pub struct Aggregator {
    slots: Vec<Option<Outcome>>,
}

impl View for Aggregator {
    type V = Seq<Option<OutcomeView>>;

    closed spec fn view(&self) -> Seq<Option<OutcomeView>> {
        self.slots@.map_values(|slot: Option<Outcome>| slot_view(slot))
    }
}

impl Aggregator {
    /// As many empty places as there are projects.
    pub fn new(count: usize) -> (aggregator: Aggregator)
        ensures
            aggregator@ == Seq::new(count as nat, |index: int| None::<OutcomeView>),
    {
        let mut slots: Vec<Option<Outcome>> = Vec::new();
        let mut i: usize = 0;
        while i < count
            invariant
                i <= count,
                slots.len() == i,
                forall|index: int| 0 <= index < i ==> (#[trigger] slots[index]) is None,
            decreases count - i,
        {
            slots.push(None);
            i += 1;
        }
        let aggregator = Aggregator { slots };
        assert(aggregator@ =~= Seq::new(count as nat, |index: int| None::<OutcomeView>));
        aggregator
    }

    /// The number of places.
    pub fn len(&self) -> (count: usize)
        ensures
            count == self@.len(),
    {
        self.slots.len()
    }

    /// Puts the outcome of the project at `index` at its place, over what
    /// the place held. Tells whether there is such a place; where there is
    /// none, nothing changes.
    pub fn record(&mut self, index: usize, outcome: Outcome) -> (known: bool)
        ensures
            known == (index < old(self)@.len()),
            final(self)@ == placed(old(self)@, index as int, outcome_view(outcome)),
    {
        if index < self.slots.len() {
            self.slots.set(index, Some(outcome));
            assert(self@ =~= placed(old(self)@, index as int, outcome_view(outcome)));
            true
        } else {
            false
        }
    }

    /// Every probe has ended.
    pub fn is_complete(&self) -> (complete: bool)
        ensures
            complete == filled(self@),
    {
        let mut i: usize = 0;
        while i < self.slots.len()
            invariant
                i <= self.slots.len(),
                forall|index: int| 0 <= index < i ==> (#[trigger] self@[index]) is Some,
            decreases self.slots.len() - i,
        {
            if self.slots[i].is_none() {
                assert(self@[i as int] is None);
                return false;
            }
            i += 1;
        }
        true
    }

    /// What the outcomes add up to, once every probe has ended; `None`
    /// while a place is still empty.
    pub fn finish(self) -> (result: Option<Outcome>)
        ensures
            result is Some <==> filled(self@),
            result matches Some(sum) ==> is_aggregate(outcomes_in(self@), outcome_view(sum)),
    {
        let ghost places = self@;
        let mut slots = self.slots;
        let mut outcomes: Vec<Outcome> = Vec::new();
        while slots.len() > 0
            invariant
                places == self@,
                slots.len() + outcomes.len() == places.len(),
                forall|index: int|
                    0 <= index < slots.len() ==> places[index] == slot_view(
                        #[trigger] slots[index],
                    ),
                forall|offset: int|
                    0 <= offset < outcomes.len() ==> places[places.len() - 1 - offset] == Some(
                        outcome_view(#[trigger] outcomes[offset]),
                    ),
            decreases slots.len(),
        {
            let ghost at = slots.len() - 1;
            match slots.pop() {
                Some(Some(outcome)) => {
                    outcomes.push(outcome);
                },
                _ => {
                    assert(places[at] is None);
                    return None;
                },
            }
        }
        let mut ordered: Vec<Outcome> = Vec::new();
        while outcomes.len() > 0
            invariant
                places == self@,
                ordered.len() + outcomes.len() == places.len(),
                forall|offset: int|
                    0 <= offset < outcomes.len() ==> places[places.len() - 1 - offset] == Some(
                        outcome_view(#[trigger] outcomes[offset]),
                    ),
                forall|index: int|
                    0 <= index < ordered.len() ==> places[index] == Some(
                        outcome_view(#[trigger] ordered[index]),
                    ),
            decreases outcomes.len(),
        {
            match outcomes.pop() {
                Some(outcome) => {
                    ordered.push(outcome);
                },
                None => {},
            }
        }
        assert forall|index: int| 0 <= index < places.len() implies (#[trigger] places[index])
            is Some by {
            assert(places[index] == Some(outcome_view(ordered[index])));
        }
        assert(outcome_views(ordered@) =~= outcomes_in(places));
        Some(aggregate(ordered))
    }
}

/// Whatever the order in which the probes end, the places hold the outcomes
/// in the order of the manifest: once each place has been named by a
/// completion, and each completion has carried the outcome of its project,
/// the places are exactly the outcomes, each at its own index.
pub proof fn completion_order_is_immaterial(
    outcomes: Seq<OutcomeView>,
    completions: Seq<(int, OutcomeView)>,
)
    requires
        forall|index: int| 0 <= index < outcomes.len() ==> #[trigger] names(completions, index),
        forall|turn: int|
            0 <= turn < completions.len() && 0 <= (#[trigger] completions[turn]).0
                < outcomes.len() ==> completions[turn].1 == outcomes[completions[turn].0],
    ensures
        placed_all(Seq::new(outcomes.len(), |index: int| None::<OutcomeView>), completions)
            == outcomes.map_values(|outcome: OutcomeView| Some(outcome)),
        filled(
            placed_all(Seq::new(outcomes.len(), |index: int| None::<OutcomeView>), completions),
        ),
        outcomes_in(
            placed_all(Seq::new(outcomes.len(), |index: int| None::<OutcomeView>), completions),
        ) == outcomes,
{
    let empty = Seq::new(outcomes.len(), |index: int| None::<OutcomeView>);
    places_after(outcomes, empty, completions);
    let places = placed_all(empty, completions);
    assert(places =~= outcomes.map_values(|outcome: OutcomeView| Some(outcome)));
    assert(outcomes_in(places) =~= outcomes);
}

/// After a run of completions a place that one of them named holds the
/// outcome of its project, and every other place is as it was.
proof fn places_after(
    outcomes: Seq<OutcomeView>,
    slots: Seq<Option<OutcomeView>>,
    completions: Seq<(int, OutcomeView)>,
)
    requires
        slots.len() == outcomes.len(),
        forall|turn: int|
            0 <= turn < completions.len() && 0 <= (#[trigger] completions[turn]).0
                < outcomes.len() ==> completions[turn].1 == outcomes[completions[turn].0],
    ensures
        placed_all(slots, completions).len() == outcomes.len(),
        forall|index: int|
            0 <= index < outcomes.len() ==> (#[trigger] placed_all(slots, completions)[index]) == (
            if names(completions, index) {
                Some(outcomes[index])
            } else {
                slots[index]
            }),
    decreases completions.len(),
{
    if completions.len() > 0 {
        let earlier = completions.drop_last();
        let last = completions.last();
        places_after(outcomes, slots, earlier);
        assert forall|index: int| 0 <= index < outcomes.len() implies (#[trigger] placed_all(
            slots,
            completions,
        )[index]) == (if names(completions, index) {
            Some(outcomes[index])
        } else {
            slots[index]
        }) by {
            if last.0 == index {
                assert(completions[completions.len() - 1].0 == index);
            } else {
                if names(completions, index) {
                    let turn = choose|turn: int|
                        0 <= turn < completions.len() && (#[trigger] completions[turn]).0 == index;
                    assert(earlier[turn].0 == index);
                }
                if names(earlier, index) {
                    let turn = choose|turn: int|
                        0 <= turn < earlier.len() && (#[trigger] earlier[turn]).0 == index;
                    assert(completions[turn].0 == index);
                }
            }
        }
    }
}

/// The outcomes of the probes add up to one result only.
pub proof fn aggregate_is_unique(outcomes: Seq<OutcomeView>, first: OutcomeView, second: OutcomeView)
    requires
        is_aggregate(outcomes, first),
        is_aggregate(outcomes, second),
    ensures
        first == second,
{
    if first is Err {
        let at = choose|index: int|
            #[trigger] is_first_failure(outcomes, index) && outcomes[index] == Err::<
                Seq<char>,
                RepoStatusErrorView,
            >(first->Err_0);
        if second is Err {
            let other = choose|index: int|
                #[trigger] is_first_failure(outcomes, index) && outcomes[index] == Err::<
                    Seq<char>,
                    RepoStatusErrorView,
                >(second->Err_0);
            if at < other {
                assert(outcomes[at] is Ok);
            } else if other < at {
                assert(outcomes[other] is Ok);
            }
        } else {
            assert(outcomes[at] is Ok);
        }
    } else if second is Err {
        let other = choose|index: int|
            #[trigger] is_first_failure(outcomes, index) && outcomes[index] == Err::<
                Seq<char>,
                RepoStatusErrorView,
            >(second->Err_0);
        assert(outcomes[other] is Ok);
    }
}

} // verus!
