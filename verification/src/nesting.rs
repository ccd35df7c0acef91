//! The order in which a resource and what it depends on are destroyed.
//!
//! A dependent resource keeps one owner of its ancestor in its bundle. The
//! bundle is released when the dependent has been destroyed, and handed to
//! the caller when the dependent is taken back. This module states the two
//! lives side by side and proves that the ancestor is never destroyed first.

use vstd::prelude::*;
use crate::lifecycle::{Event, Stage};

verus! {

/// One of the two resources of a nest.
pub enum Member {
    /// The resource that the other one depends on.
    Ancestor,
    /// The resource whose bundle owns a share of the ancestor.
    Dependent,
}

/// What one owner does: an owner of the dependent, or an owner of the
/// ancestor that is not the one inside the dependent's bundle.
pub struct Act {
    pub by: Member,
    pub event: Event,
}

/// The stages of an ancestor and of its dependent. While the dependent is
/// alive, one of the ancestor's owners is the one in the dependent's bundle.
pub struct Nest {
    pub ancestor: Stage,
    pub dependent: Stage,
}

impl Nest {
    /// Whether the stages fit together: a dependent that is alive has an
    /// ancestor that is alive.
    pub open spec fn sound(self) -> bool {
        self.dependent.alive() ==> self.ancestor.alive()
    }

    /// The owners of the ancestor outside the dependent's bundle.
    pub open spec fn free_owners(self) -> int {
        self.ancestor.owners() - if self.dependent.alive() {
            1int
        } else {
            0int
        }
    }

    /// Whether there is an owner to do `act`.
    pub open spec fn can(self, act: Act) -> bool {
        match act.by {
            Member::Ancestor => self.ancestor.alive() && self.free_owners() >= 1,
            Member::Dependent => self.dependent.alive(),
        }
    }

    /// Whether `act` destroys the dependent, and so releases its bundle.
    pub open spec fn releases_bundle(self, act: Act) -> bool {
        act.by == Member::Dependent && self.dependent.destroys(act.event)
    }

    /// The stages after `act`.
    pub open spec fn after(self, act: Act) -> Nest {
        match act.by {
            Member::Ancestor => Nest {
                ancestor: self.ancestor.after(act.event),
                dependent: self.dependent,
            },
            Member::Dependent => Nest {
                ancestor: if self.releases_bundle(act) {
                    self.ancestor.after(Event::Drop)
                } else {
                    self.ancestor
                },
                dependent: self.dependent.after(act.event),
            },
        }
    }

    /// The resources that `act` destroys, in the order of their teardown.
    pub open spec fn destroyed_by(self, act: Act) -> Seq<Member> {
        match act.by {
            Member::Ancestor => if self.ancestor.destroys(act.event) {
                seq![Member::Ancestor]
            } else {
                seq![]
            },
            Member::Dependent => if !self.releases_bundle(act) {
                seq![]
            } else if self.ancestor.destroys(Event::Drop) {
                seq![Member::Dependent, Member::Ancestor]
            } else {
                seq![Member::Dependent]
            },
        }
    }
}

/// Whether the acts can happen one after the other from `start` on.
pub open spec fn nest_admits(start: Nest, acts: Seq<Act>) -> bool
    decreases acts.len(),
{
    acts.len() == 0 || (start.can(acts[0]) && nest_admits(start.after(acts[0]), acts.drop_first()))
}

/// The resources that are destroyed while the acts happen, in the order of
/// their teardown.
pub open spec fn teardown_order(start: Nest, acts: Seq<Act>) -> Seq<Member>
    decreases acts.len(),
{
    if acts.len() == 0 {
        seq![]
    } else {
        start.destroyed_by(acts[0]) + teardown_order(start.after(acts[0]), acts.drop_first())
    }
}

/// The stages reached from `start` when the acts have happened.
pub open spec fn nest_outcome(start: Nest, acts: Seq<Act>) -> Nest
    decreases acts.len(),
{
    if acts.len() == 0 {
        start
    } else {
        nest_outcome(start.after(acts[0]), acts.drop_first())
    }
}

/// Whatever the owners of two nested resources do, the ancestor stays alive
/// for as long as its dependent is alive.
pub proof fn law_ancestor_outlives_dependent(start: Nest, acts: Seq<Act>)
    requires
        start.sound(),
        nest_admits(start, acts),
    ensures
        nest_outcome(start, acts).sound(),
    decreases acts.len(),
{
    if acts.len() > 0 {
        law_ancestor_outlives_dependent(start.after(acts[0]), acts.drop_first());
    }
}

/// Once the dependent is gone, it is not destroyed again.
pub proof fn lemma_dependent_gone(start: Nest, acts: Seq<Act>)
    requires
        !start.dependent.alive(),
        nest_admits(start, acts),
    ensures
        !teardown_order(start, acts).contains(Member::Dependent),
    decreases acts.len(),
{
    if acts.len() > 0 {
        let next = start.after(acts[0]);
        lemma_dependent_gone(next, acts.drop_first());
        let first = start.destroyed_by(acts[0]);
        let rest = teardown_order(next, acts.drop_first());
        assert(!first.contains(Member::Dependent));
        assert forall|i: int| 0 <= i < (first + rest).len() implies (first + rest)[i]
            != Member::Dependent by {
            if i < first.len() {
                assert(first.contains(first[i]));
            } else {
                assert(rest.contains(rest[i - first.len()]));
            }
        }
    }
}

/// Whatever the owners of two nested resources do, the ancestor is not
/// destroyed before its dependent: no teardown of the dependent follows one
/// of the ancestor.
pub proof fn law_dependent_destroyed_first(start: Nest, acts: Seq<Act>)
    requires
        start.sound(),
        nest_admits(start, acts),
    ensures
        forall|i: int, j: int|
            0 <= i < j < teardown_order(start, acts).len() ==> !(teardown_order(start, acts)[i]
                == Member::Ancestor && teardown_order(start, acts)[j] == Member::Dependent),
    decreases acts.len(),
{
    if acts.len() > 0 {
        let next = start.after(acts[0]);
        let first = start.destroyed_by(acts[0]);
        let rest = teardown_order(next, acts.drop_first());
        let whole = teardown_order(start, acts);
        assert(whole == first + rest);
        assert(next.sound());
        law_dependent_destroyed_first(next, acts.drop_first());
        if first.len() > 0 {
            assert(!next.dependent.alive());
            lemma_dependent_gone(next, acts.drop_first());
        }
        assert forall|i: int, j: int| 0 <= i < j < whole.len() implies !(whole[i]
            == Member::Ancestor && whole[j] == Member::Dependent) by {
            if j >= first.len() && first.len() > 0 {
                assert(rest.contains(rest[j - first.len()]));
            }
        }
    }
}

} // verus!
