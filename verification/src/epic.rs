use vstd::prelude::*;

use crate::backlog_item::BacklogItem;
use crate::helper::{new_uuid_string, str_eq};

verus! {

/// A body of work large enough to span several backlog items.
#[derive(Debug)]
pub struct Epic {
    id: String,
    title: String,
    description: String,
    backlog_items: Vec<BacklogItem>,
}

impl Epic {
    /// The epic's identity.
    pub closed spec fn spec_id(self) -> Seq<char> {
        self.id@
    }

    pub closed spec fn spec_title(self) -> Seq<char> {
        self.title@
    }

    pub closed spec fn spec_description(self) -> Seq<char> {
        self.description@
    }

    pub closed spec fn spec_backlog_items(self) -> Seq<BacklogItem> {
        self.backlog_items@
    }

    /// A new, empty epic with a fresh identity.
    pub fn new(title: String, description: String) -> (r: Epic)
        ensures
            r.spec_title() == title@,
            r.spec_description() == description@,
            r.spec_backlog_items() == Seq::<BacklogItem>::empty(),
            r.spec_id().len() == 36,
    {
        Epic { id: new_uuid_string(), title, description, backlog_items: Vec::new() }
    }

    pub fn id(&self) -> (r: &str)
        ensures
            r@ == self.spec_id(),
    {
        self.id.as_str()
    }

    pub fn title(&self) -> (r: &str)
        ensures
            r@ == self.spec_title(),
    {
        self.title.as_str()
    }

    pub fn description(&self) -> (r: &str)
        ensures
            r@ == self.spec_description(),
    {
        self.description.as_str()
    }

    pub fn backlog_items(&self) -> (r: &Vec<BacklogItem>)
        ensures
            r@ == self.spec_backlog_items(),
    {
        &self.backlog_items
    }

    pub fn add_backlog_item(&mut self, item: BacklogItem)
        ensures
            final(self).spec_backlog_items() == old(self).spec_backlog_items().push(item),
            final(self).spec_id() == old(self).spec_id(),
            final(self).spec_title() == old(self).spec_title(),
            final(self).spec_description() == old(self).spec_description(),
    {
        self.backlog_items.push(item);
    }

    /// Takes out the first item with the given identity, if any, and hands
    /// it back.
    pub fn remove_backlog_item(&mut self, id: &str) -> (r: Option<BacklogItem>)
        ensures
            final(self).spec_id() == old(self).spec_id(),
            final(self).spec_title() == old(self).spec_title(),
            final(self).spec_description() == old(self).spec_description(),
            r is None ==> (forall|i: int|
                0 <= i < old(self).spec_backlog_items().len() ==> (#[trigger] old(self).spec_backlog_items()[i]).spec_id() != id@) && *final(self) == *old(self),
            r matches Some(item) ==> exists|i: int|
                0 <= i < old(self).spec_backlog_items().len() && old(self).spec_backlog_items()[i].spec_id() == id@ && (forall|j: int|
                    0 <= j < i ==> (#[trigger] old(self).spec_backlog_items()[j]).spec_id() != id@)
                    && item == old(self).spec_backlog_items()[i] && final(self).spec_backlog_items() == old(self).spec_backlog_items().remove(i),
    {
        let n = self.backlog_items.len();
        let mut i: usize = 0;
        while i < n
            invariant
                *self == *old(self),
                i <= n,
                n == self.backlog_items@.len(),
                forall|j: int| 0 <= j < i ==> (#[trigger] self.backlog_items@[j]).spec_id() != id@,
            decreases n - i,
        {
            if str_eq(self.backlog_items[i].id(), id) {
                let item = self.backlog_items.remove(i);
                proof {
                    let s_old = old(self).spec_backlog_items();
                    let ii: int = i as int;
                    assert(0 <= ii < s_old.len() && s_old[ii].spec_id() == id@ && (
                    forall|j: int|
                        0 <= j < ii ==> (#[trigger] s_old[j]).spec_id() != id@) && item
                        == s_old[ii] && self.spec_backlog_items() == s_old.remove(ii));
                }
                return Some(item);
            }
            i = i + 1;
        }
        None
    }
}

} // verus!
