use vstd::prelude::*;

use crate::acceptance_criterion::AcceptanceCriterion;
use crate::helper::{new_uuid_string, str_eq};
use crate::types::{Priority, Status};

verus! {

/// One unit of work on the backlog, with its acceptance criteria.
#[derive(Debug)]
pub struct BacklogItem {
    id: String,
    title: String,
    description: String,
    priority: Priority,
    status: Status,
    story_points: Option<u8>,
    acceptance_criteria: Vec<AcceptanceCriterion>,
}

impl BacklogItem {
    /// The item's identity.
    pub closed spec fn spec_id(self) -> Seq<char> {
        self.id@
    }

    pub closed spec fn spec_title(self) -> Seq<char> {
        self.title@
    }

    pub closed spec fn spec_description(self) -> Seq<char> {
        self.description@
    }

    pub closed spec fn spec_priority(self) -> Priority {
        self.priority
    }

    pub closed spec fn spec_status(self) -> Status {
        self.status
    }

    pub closed spec fn spec_story_points(self) -> Option<u8> {
        self.story_points
    }

    pub closed spec fn spec_acceptance_criteria(self) -> Seq<AcceptanceCriterion> {
        self.acceptance_criteria@
    }

    /// Complete: done, with every acceptance criterion satisfied.
    pub open spec fn spec_is_complete(self) -> bool {
        self.spec_status() == Status::Done && forall|i: int|
            0 <= i < self.spec_acceptance_criteria().len() ==> (
            #[trigger] self.spec_acceptance_criteria()[i]).spec_is_satisfied()
    }

    /// A new item with a fresh identity: medium priority, to do, not sized,
    /// without criteria.
    pub fn new(title: String, description: String) -> (r: BacklogItem)
        ensures
            r.spec_title() == title@,
            r.spec_description() == description@,
            r.spec_priority() == Priority::Medium,
            r.spec_status() == Status::Todo,
            r.spec_story_points() is None,
            r.spec_acceptance_criteria() == Seq::<AcceptanceCriterion>::empty(),
            r.spec_id().len() == 36,
    {
        BacklogItem {
            id: new_uuid_string(),
            title,
            description,
            priority: Priority::Medium,
            status: Status::Todo,
            story_points: None,
            acceptance_criteria: Vec::new(),
        }
    }

    pub fn id(&self) -> (r: &str)
        ensures
            r@ == self.spec_id(),
    {
        self.id.as_str()
    }

    pub fn title(&self) -> (r: &str)
        ensures
            r@ == self.spec_title(),
    {
        self.title.as_str()
    }

    pub fn description(&self) -> (r: &str)
        ensures
            r@ == self.spec_description(),
    {
        self.description.as_str()
    }

    pub fn priority(&self) -> (r: Priority)
        ensures
            r == self.spec_priority(),
    {
        self.priority
    }

    pub fn set_priority(&mut self, priority: Priority)
        ensures
            final(self).spec_priority() == priority,
            final(self).spec_id() == old(self).spec_id(),
            final(self).spec_title() == old(self).spec_title(),
            final(self).spec_description() == old(self).spec_description(),
            final(self).spec_status() == old(self).spec_status(),
            final(self).spec_story_points() == old(self).spec_story_points(),
            final(self).spec_acceptance_criteria() == old(self).spec_acceptance_criteria(),
    {
        self.priority = priority;
    }

    pub fn status(&self) -> (r: Status)
        ensures
            r == self.spec_status(),
    {
        self.status
    }

    pub fn update_status(&mut self, status: Status)
        ensures
            final(self).spec_status() == status,
            final(self).spec_id() == old(self).spec_id(),
            final(self).spec_title() == old(self).spec_title(),
            final(self).spec_description() == old(self).spec_description(),
            final(self).spec_priority() == old(self).spec_priority(),
            final(self).spec_story_points() == old(self).spec_story_points(),
            final(self).spec_acceptance_criteria() == old(self).spec_acceptance_criteria(),
    {
        self.status = status;
    }

    pub fn story_points(&self) -> (r: Option<u8>)
        ensures
            r == self.spec_story_points(),
    {
        self.story_points
    }

    pub fn set_story_points(&mut self, points: u8)
        ensures
            final(self).spec_story_points() == Some(points),
            final(self).spec_id() == old(self).spec_id(),
            final(self).spec_title() == old(self).spec_title(),
            final(self).spec_description() == old(self).spec_description(),
            final(self).spec_priority() == old(self).spec_priority(),
            final(self).spec_status() == old(self).spec_status(),
            final(self).spec_acceptance_criteria() == old(self).spec_acceptance_criteria(),
    {
        self.story_points = Some(points);
    }

    pub fn acceptance_criteria(&self) -> (r: &Vec<AcceptanceCriterion>)
        ensures
            r@ == self.spec_acceptance_criteria(),
    {
        &self.acceptance_criteria
    }

    pub fn add_acceptance_criterion(&mut self, criterion: AcceptanceCriterion)
        ensures
            final(self).spec_acceptance_criteria() == old(self).spec_acceptance_criteria().push(
                criterion,
            ),
            final(self).spec_id() == old(self).spec_id(),
            final(self).spec_title() == old(self).spec_title(),
            final(self).spec_description() == old(self).spec_description(),
            final(self).spec_priority() == old(self).spec_priority(),
            final(self).spec_status() == old(self).spec_status(),
            final(self).spec_story_points() == old(self).spec_story_points(),
    {
        self.acceptance_criteria.push(criterion);
    }

    /// Takes out the first criterion with the given identity, if any, and
    /// hands it back.
    pub fn remove_acceptance_criterion(&mut self, id: &str) -> (r: Option<AcceptanceCriterion>)
        ensures
            final(self).spec_id() == old(self).spec_id(),
            final(self).spec_title() == old(self).spec_title(),
            final(self).spec_description() == old(self).spec_description(),
            final(self).spec_priority() == old(self).spec_priority(),
            final(self).spec_status() == old(self).spec_status(),
            final(self).spec_story_points() == old(self).spec_story_points(),
            r is None ==> (forall|i: int|
                0 <= i < old(self).spec_acceptance_criteria().len() ==> (#[trigger] old(self).spec_acceptance_criteria()[i]).spec_id() != id@) && *final(self) == *old(self),
            r matches Some(c) ==> exists|i: int|
                0 <= i < old(self).spec_acceptance_criteria().len() && old(self).spec_acceptance_criteria()[i].spec_id() == id@ && (forall|j: int|
                    0 <= j < i ==> (#[trigger] old(self).spec_acceptance_criteria()[j]).spec_id()
                        != id@) && c == old(self).spec_acceptance_criteria()[i] && final(self).spec_acceptance_criteria() == old(self).spec_acceptance_criteria().remove(i),
    {
        let n = self.acceptance_criteria.len();
        let mut i: usize = 0;
        while i < n
            invariant
                *self == *old(self),
                i <= n,
                n == self.acceptance_criteria@.len(),
                forall|j: int|
                    0 <= j < i ==> (#[trigger] self.acceptance_criteria@[j]).spec_id() != id@,
            decreases n - i,
        {
            if str_eq(self.acceptance_criteria[i].id(), id) {
                let c = self.acceptance_criteria.remove(i);
                proof {
                    let s_old = old(self).spec_acceptance_criteria();
                    let ii: int = i as int;
                    assert(0 <= ii < s_old.len() && s_old[ii].spec_id() == id@ && (
                    forall|j: int|
                        0 <= j < ii ==> (#[trigger] s_old[j]).spec_id() != id@) && c
                        == s_old[ii] && self.spec_acceptance_criteria() == s_old.remove(ii));
                }
                return Some(c);
            }
            i = i + 1;
        }
        None
    }

    /// Whether the item is complete: done and with every criterion satisfied.
    pub fn is_complete(&self) -> (r: bool)
        ensures
            r == self.spec_is_complete(),
    {
        match self.status {
            Status::Done => {},
            _ => {
                return false;
            },
        }
        let n = self.acceptance_criteria.len();
        let mut i: usize = 0;
        while i < n
            invariant
                i <= n,
                n == self.acceptance_criteria@.len(),
                self.spec_status() == Status::Done,
                forall|j: int|
                    0 <= j < i ==> (#[trigger] self.acceptance_criteria@[j]).spec_is_satisfied(),
            decreases n - i,
        {
            if !self.acceptance_criteria[i].is_satisfied() {
                proof {
                    assert(!self.spec_acceptance_criteria()[i as int].spec_is_satisfied());
                }
                return false;
            }
            i = i + 1;
        }
        true
    }
}

} // verus!
