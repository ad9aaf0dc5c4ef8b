use vstd::prelude::*;

use crate::backlog_item::BacklogItem;
use crate::helper::{new_uuid_string, str_eq};

verus! {

/// A time-boxed run of work, holding the items taken into it. Its bounds are
/// instants in milliseconds since the Unix epoch, inclusive on both ends.
#[derive(Debug)]
pub struct Sprint {
    id: String,
    name: String,
    start_date: i64,
    end_date: i64,
    items: Vec<BacklogItem>,
}

impl Sprint {
    /// The sprint's identity.
    pub closed spec fn spec_id(self) -> Seq<char> {
        self.id@
    }

    pub closed spec fn spec_name(self) -> Seq<char> {
        self.name@
    }

    pub closed spec fn spec_start_date(self) -> int {
        self.start_date as int
    }

    pub closed spec fn spec_end_date(self) -> int {
        self.end_date as int
    }

    pub closed spec fn spec_items(self) -> Seq<BacklogItem> {
        self.items@
    }

    /// A new, empty sprint with a fresh identity and the given bounds.
    pub fn new(name: String, start_date: i64, end_date: i64) -> (r: Sprint)
        ensures
            r.spec_name() == name@,
            r.spec_start_date() == start_date as int,
            r.spec_end_date() == end_date as int,
            r.spec_items() == Seq::<BacklogItem>::empty(),
            r.spec_id().len() == 36,
    {
        Sprint { id: new_uuid_string(), name, start_date, end_date, items: Vec::new() }
    }

    pub fn id(&self) -> (r: &str)
        ensures
            r@ == self.spec_id(),
    {
        self.id.as_str()
    }

    pub fn name(&self) -> (r: &str)
        ensures
            r@ == self.spec_name(),
    {
        self.name.as_str()
    }

    pub fn start_date(&self) -> (r: i64)
        ensures
            r as int == self.spec_start_date(),
    {
        self.start_date
    }

    pub fn end_date(&self) -> (r: i64)
        ensures
            r as int == self.spec_end_date(),
    {
        self.end_date
    }

    pub fn items(&self) -> (r: &Vec<BacklogItem>)
        ensures
            r@ == self.spec_items(),
    {
        &self.items
    }

    pub fn add_item(&mut self, item: BacklogItem)
        ensures
            final(self).spec_items() == old(self).spec_items().push(item),
            final(self).spec_id() == old(self).spec_id(),
            final(self).spec_name() == old(self).spec_name(),
            final(self).spec_start_date() == old(self).spec_start_date(),
            final(self).spec_end_date() == old(self).spec_end_date(),
    {
        self.items.push(item);
    }

    /// Takes out the first item with the given identity, if any, and hands
    /// it back.
    pub fn remove_item(&mut self, id: &str) -> (r: Option<BacklogItem>)
        ensures
            final(self).spec_id() == old(self).spec_id(),
            final(self).spec_name() == old(self).spec_name(),
            final(self).spec_start_date() == old(self).spec_start_date(),
            final(self).spec_end_date() == old(self).spec_end_date(),
            r is None ==> (forall|i: int|
                0 <= i < old(self).spec_items().len() ==> (#[trigger] old(self).spec_items()[i]).spec_id() != id@) && *final(self) == *old(self),
            r matches Some(item) ==> exists|i: int|
                0 <= i < old(self).spec_items().len() && old(self).spec_items()[i].spec_id() == id@
                    && (forall|j: int|
                    0 <= j < i ==> (#[trigger] old(self).spec_items()[j]).spec_id() != id@) && item
                    == old(self).spec_items()[i] && final(self).spec_items() == old(self).spec_items().remove(i),
    {
        let n = self.items.len();
        let mut i: usize = 0;
        while i < n
            invariant
                *self == *old(self),
                i <= n,
                n == self.items@.len(),
                forall|j: int| 0 <= j < i ==> (#[trigger] self.items@[j]).spec_id() != id@,
            decreases n - i,
        {
            if str_eq(self.items[i].id(), id) {
                let item = self.items.remove(i);
                proof {
                    let s_old = old(self).spec_items();
                    let ii: int = i as int;
                    assert(0 <= ii < s_old.len() && s_old[ii].spec_id() == id@ && (forall|j: int|
                        0 <= j < ii ==> (#[trigger] s_old[j]).spec_id() != id@) && item == s_old[ii]
                        && self.spec_items() == s_old.remove(ii));
                }
                return Some(item);
            }
            i = i + 1;
        }
        None
    }

    /// Whether the given instant falls inside the sprint's bounds.
    pub fn is_active(&self, current_date: i64) -> (r: bool)
        ensures
            r == (self.spec_start_date() <= current_date as int <= self.spec_end_date()),
    {
        self.start_date <= current_date && current_date <= self.end_date
    }
}

} // verus!
