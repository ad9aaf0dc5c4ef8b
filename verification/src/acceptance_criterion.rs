use vstd::prelude::*;

use crate::helper::new_uuid_string;

verus! {

/// One condition a backlog item must meet to count as complete.
#[derive(Debug)]
pub struct AcceptanceCriterion {
    id: String,
    description: String,
    is_satisfied: bool,
}

impl Clone for AcceptanceCriterion {
    fn clone(&self) -> (r: Self)
        ensures
            r == *self,
    {
        AcceptanceCriterion {
            id: self.id.clone(),
            description: self.description.clone(),
            is_satisfied: self.is_satisfied,
        }
    }
}

impl AcceptanceCriterion {
    /// The criterion's identity.
    pub closed spec fn spec_id(self) -> Seq<char> {
        self.id@
    }

    /// What the criterion asks for.
    pub closed spec fn spec_description(self) -> Seq<char> {
        self.description@
    }

    /// Whether the criterion has been met.
    pub closed spec fn spec_is_satisfied(self) -> bool {
        self.is_satisfied
    }

    /// A new, not yet satisfied criterion with a fresh identity.
    pub fn new(description: String) -> (r: AcceptanceCriterion)
        ensures
            r.spec_description() == description@,
            !r.spec_is_satisfied(),
            r.spec_id().len() == 36,
    {
        AcceptanceCriterion { id: new_uuid_string(), description, is_satisfied: false }
    }

    pub fn id(&self) -> (r: &str)
        ensures
            r@ == self.spec_id(),
    {
        self.id.as_str()
    }

    pub fn description(&self) -> (r: &str)
        ensures
            r@ == self.spec_description(),
    {
        self.description.as_str()
    }

    pub fn is_satisfied(&self) -> (r: bool)
        ensures
            r == self.spec_is_satisfied(),
    {
        self.is_satisfied
    }

    pub fn mark_satisfied(&mut self)
        ensures
            final(self).spec_is_satisfied(),
            final(self).spec_id() == old(self).spec_id(),
            final(self).spec_description() == old(self).spec_description(),
    {
        self.is_satisfied = true;
    }

    pub fn mark_unsatisfied(&mut self)
        ensures
            !final(self).spec_is_satisfied(),
            final(self).spec_id() == old(self).spec_id(),
            final(self).spec_description() == old(self).spec_description(),
    {
        self.is_satisfied = false;
    }
}

} // verus!
