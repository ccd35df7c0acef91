//! The life of a shared resource, told as a state machine.
//!
//! A group of owners starts with one owner. Each owner may make another, go
//! away, or try to take the resource back for itself. The resource is
//! destroyed when the last owner goes away, and handed out undestroyed when
//! the only owner takes it back. This module states that machine and proves
//! what follows from it.

use vstd::prelude::*;

verus! {

/// Where a shared resource stands.
pub enum Stage {
    /// Alive, with this many owners.
    Live(nat),
    /// Destroyed: the last owner went away.
    Destroyed,
    /// Handed back undestroyed to what was its only owner.
    Reclaimed,
}

/// What one owner of a group does.
pub enum Event {
    /// It makes one more owner.
    Clone,
    /// It goes away.
    Drop,
    /// It tries to take the resource back for itself.
    Reclaim,
}

impl Stage {
    /// Whether there is an owner left who could do anything.
    pub open spec fn alive(self) -> bool {
        self matches Stage::Live(n) && n >= 1
    }

    /// The number of owners.
    pub open spec fn owners(self) -> nat {
        match self {
            Stage::Live(n) => n,
            _ => 0,
        }
    }

    /// The stage that follows when one of the owners does `event`.
    pub open spec fn after(self, event: Event) -> Stage {
        match (self, event) {
            (Stage::Live(n), Event::Clone) => Stage::Live(n + 1),
            (Stage::Live(n), Event::Drop) => if n > 1 {
                Stage::Live((n - 1) as nat)
            } else {
                Stage::Destroyed
            },
            (Stage::Live(n), Event::Reclaim) => if n > 1 {
                Stage::Live(n)
            } else {
                Stage::Reclaimed
            },
            (gone, _) => gone,
        }
    }

    /// Whether `event`, done at this stage, destroys the resource.
    pub open spec fn destroys(self, event: Event) -> bool {
        self == Stage::Live(1) && event == Event::Drop
    }
}

/// Whether the events can happen one after the other from `start` on: each
/// needs an owner to do it.
pub open spec fn admits(start: Stage, events: Seq<Event>) -> bool
    decreases events.len(),
{
    events.len() == 0 || (start.alive() && admits(start.after(events[0]), events.drop_first()))
}

/// The stage reached from `start` when the events have happened.
pub open spec fn outcome(start: Stage, events: Seq<Event>) -> Stage
    decreases events.len(),
{
    if events.len() == 0 {
        start
    } else {
        outcome(start.after(events[0]), events.drop_first())
    }
}

/// How often the resource is destroyed while the events happen.
pub open spec fn teardowns(start: Stage, events: Seq<Event>) -> nat
    decreases events.len(),
{
    if events.len() == 0 {
        0
    } else {
        (if start.destroys(events[0]) {
            1nat
        } else {
            0nat
        }) + teardowns(start.after(events[0]), events.drop_first())
    }
}

/// How many of the events are `kind`.
pub open spec fn tally(events: Seq<Event>, kind: Event) -> nat
    decreases events.len(),
{
    if events.len() == 0 {
        0
    } else {
        (if events[0] == kind {
            1nat
        } else {
            0nat
        }) + tally(events.drop_first(), kind)
    }
}

/// The books of a group that starts with `m` owners: owners are neither made
/// nor lost but by the events, and the resource is destroyed exactly when the
/// group ends by its last owner going away.
pub proof fn lemma_books(m: nat, events: Seq<Event>)
    requires
        m >= 1,
        admits(Stage::Live(m), events),
    ensures
        match outcome(Stage::Live(m), events) {
            Stage::Live(n) => {
                &&& n >= 1
                &&& n + tally(events, Event::Drop) == m + tally(events, Event::Clone)
                &&& teardowns(Stage::Live(m), events) == 0
            },
            Stage::Destroyed => {
                &&& tally(events, Event::Drop) == m + tally(events, Event::Clone)
                &&& teardowns(Stage::Live(m), events) == 1
            },
            Stage::Reclaimed => {
                &&& tally(events, Event::Drop) + 1 == m + tally(events, Event::Clone)
                &&& teardowns(Stage::Live(m), events) == 0
            },
        },
    decreases events.len(),
{
    reveal_with_fuel(admits, 2);
    reveal_with_fuel(outcome, 2);
    reveal_with_fuel(teardowns, 2);
    reveal_with_fuel(tally, 2);
    if events.len() > 0 {
        let next = Stage::Live(m).after(events[0]);
        let rest = events.drop_first();
        match next {
            Stage::Live(n) => {
                lemma_books(n, rest);
            },
            _ => {
                assert(rest.len() == 0);
            },
        }
    }
}

/// Of events that can happen, any shorter beginning can happen too, and it
/// ends at a stage that is alive: there is an owner to do what comes next.
pub proof fn lemma_beginning(start: Stage, events: Seq<Event>, k: int)
    requires
        admits(start, events),
        0 <= k < events.len(),
    ensures
        admits(start, events.take(k)),
        outcome(start, events.take(k)).alive(),
    decreases events.len(),
{
    let head = events.take(k);
    if k > 0 {
        let rest = events.drop_first();
        lemma_beginning(start.after(events[0]), rest, k - 1);
        assert(head.drop_first() =~= rest.take(k - 1));
        assert(head[0] == events[0]);
    }
}

/// A group whose resource nobody tried to take back is alive as long as
/// fewer owners went away than there ever were.
pub proof fn lemma_alive_without_reclaim(m: nat, events: Seq<Event>)
    requires
        m >= 1,
        admits(Stage::Live(m), events),
        tally(events, Event::Reclaim) == 0,
        tally(events, Event::Drop) < m + tally(events, Event::Clone),
    ensures
        outcome(Stage::Live(m), events).alive(),
{
    lemma_books(m, events);
    lemma_never_reclaimed(m, events);
}

/// A resource that no owner tried to take back was not handed back.
pub proof fn lemma_never_reclaimed(m: nat, events: Seq<Event>)
    requires
        m >= 1,
        admits(Stage::Live(m), events),
        tally(events, Event::Reclaim) == 0,
    ensures
        outcome(Stage::Live(m), events) != Stage::Reclaimed,
    decreases events.len(),
{
    reveal_with_fuel(admits, 2);
    reveal_with_fuel(outcome, 2);
    reveal_with_fuel(tally, 2);
    if events.len() > 0 {
        let next = Stage::Live(m).after(events[0]);
        let rest = events.drop_first();
        match next {
            Stage::Live(n) => {
                lemma_never_reclaimed(n, rest);
            },
            _ => {
                assert(rest.len() == 0);
            },
        }
    }
}

/// Whatever the owners of a resource do, it is destroyed at most once. It is
/// destroyed exactly when the last owner has gone away, which takes one more
/// owner going away than owners were added; a resource that was taken back was
/// never destroyed. Before the last event nothing is destroyed and an owner is
/// still there.
pub proof fn law_destroyed_once_by_the_last_owner(events: Seq<Event>)
    requires
        admits(Stage::Live(1), events),
    ensures
        teardowns(Stage::Live(1), events) <= 1,
        teardowns(Stage::Live(1), events) == 1 <==> outcome(Stage::Live(1), events)
            == Stage::Destroyed,
        outcome(Stage::Live(1), events) == Stage::Destroyed ==> tally(events, Event::Drop) == tally(
            events,
            Event::Clone,
        ) + 1,
        forall|k: int|
            0 <= k < events.len() ==> {
                &&& (#[trigger] outcome(Stage::Live(1), events.take(k))).alive()
                &&& teardowns(Stage::Live(1), events.take(k)) == 0
            },
{
    lemma_books(1, events);
    assert forall|k: int| 0 <= k < events.len() implies {
        &&& (#[trigger] outcome(Stage::Live(1), events.take(k))).alive()
        &&& teardowns(Stage::Live(1), events.take(k)) == 0
    } by {
        lemma_beginning(Stage::Live(1), events, k);
        lemma_books(1, events.take(k));
    }
}

/// After `n` owners were added to the first and `k` went away, `n + 1 - k`
/// are left, as long as that is at least one and nobody took the resource
/// back. Failed attempts to take it back do not change the number.
pub proof fn law_owners_after_clones_and_drops(events: Seq<Event>)
    requires
        admits(Stage::Live(1), events),
    ensures
        outcome(Stage::Live(1), events).alive() ==> outcome(Stage::Live(1), events).owners()
            == tally(events, Event::Clone) + 1 - tally(events, Event::Drop),
        tally(events, Event::Reclaim) == 0 && tally(events, Event::Drop) < tally(
            events,
            Event::Clone,
        ) + 1 ==> outcome(Stage::Live(1), events) == Stage::Live(
            (tally(events, Event::Clone) + 1 - tally(events, Event::Drop)) as nat,
        ),
{
    lemma_books(1, events);
    if tally(events, Event::Reclaim) == 0 && tally(events, Event::Drop) < tally(
        events,
        Event::Clone,
    ) + 1 {
        lemma_alive_without_reclaim(1, events);
    }
}

/// An attempt to take the resource back succeeds for an only owner, and then
/// nothing is destroyed; with other owners around it changes nothing.
pub proof fn law_reclaim_needs_sole_ownership(n: nat)
    requires
        n >= 1,
    ensures
        n == 1 ==> Stage::Live(n).after(Event::Reclaim) == Stage::Reclaimed,
        n > 1 ==> Stage::Live(n).after(Event::Reclaim) == Stage::Live(n),
        !Stage::Live(n).destroys(Event::Reclaim),
{
}

} // verus!
