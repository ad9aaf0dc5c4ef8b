use vstd::prelude::*;

use crate::backlog_item::BacklogItem;
use crate::helper::{new_uuid_string, str_eq};
use crate::types::Priority;

verus! {

/// The predicate picking items of one priority.
pub open spec fn has_priority(p: Priority) -> spec_fn(BacklogItem) -> bool {
    |b: BacklogItem| b.spec_priority() == p
}

/// Filtering a longer prefix keeps the filtered shorter prefix and at most
/// appends the new element.
proof fn lemma_filter_take_step(s: Seq<BacklogItem>, pred: spec_fn(BacklogItem) -> bool, k: int)
    requires
        0 <= k < s.len(),
    ensures
        pred(s[k]) ==> s.take(k + 1).filter(pred) == s.take(k).filter(pred).push(s[k]),
        !pred(s[k]) ==> s.take(k + 1).filter(pred) == s.take(k).filter(pred),
{
    reveal(Seq::filter);
    assert(s.take(k + 1).drop_last() =~= s.take(k));
    assert(s.take(k + 1).last() == s[k]);
}

/// The whole sequence is its own full prefix.
proof fn lemma_filter_take_all(s: Seq<BacklogItem>, pred: spec_fn(BacklogItem) -> bool)
    ensures
        s.take(s.len() as int).filter(pred) == s.filter(pred),
{
    assert(s.take(s.len() as int) =~= s);
}

/// The backlog of one product: its items, owned in order.
#[derive(Debug)]
pub struct ProductBacklog {
    id: String,
    name: String,
    description: String,
    items: Vec<BacklogItem>,
}

impl ProductBacklog {
    /// The backlog's identity.
    pub closed spec fn spec_id(self) -> Seq<char> {
        self.id@
    }

    pub closed spec fn spec_name(self) -> Seq<char> {
        self.name@
    }

    pub closed spec fn spec_description(self) -> Seq<char> {
        self.description@
    }

    pub closed spec fn spec_items(self) -> Seq<BacklogItem> {
        self.items@
    }

    /// A new, empty backlog with a fresh identity.
    pub fn new(name: String, description: String) -> (r: ProductBacklog)
        ensures
            r.spec_name() == name@,
            r.spec_description() == description@,
            r.spec_items() == Seq::<BacklogItem>::empty(),
            r.spec_id().len() == 36,
    {
        ProductBacklog { id: new_uuid_string(), name, description, items: Vec::new() }
    }

    pub fn id(&self) -> (r: &str)
        ensures
            r@ == self.spec_id(),
    {
        self.id.as_str()
    }

    pub fn name(&self) -> (r: &str)
        ensures
            r@ == self.spec_name(),
    {
        self.name.as_str()
    }

    pub fn description(&self) -> (r: &str)
        ensures
            r@ == self.spec_description(),
    {
        self.description.as_str()
    }

    pub fn items(&self) -> (r: &Vec<BacklogItem>)
        ensures
            r@ == self.spec_items(),
    {
        &self.items
    }

    pub fn add_item(&mut self, item: BacklogItem)
        ensures
            final(self).spec_items() == old(self).spec_items().push(item),
            final(self).spec_id() == old(self).spec_id(),
            final(self).spec_name() == old(self).spec_name(),
            final(self).spec_description() == old(self).spec_description(),
    {
        self.items.push(item);
    }

    /// Takes out the first item with the given identity, if any, and hands
    /// it back.
    pub fn remove_item(&mut self, id: &str) -> (r: Option<BacklogItem>)
        ensures
            final(self).spec_id() == old(self).spec_id(),
            final(self).spec_name() == old(self).spec_name(),
            final(self).spec_description() == old(self).spec_description(),
            r is None ==> (forall|i: int|
                0 <= i < old(self).spec_items().len() ==> (#[trigger] old(self).spec_items()[i]).spec_id() != id@) && *final(self) == *old(self),
            r matches Some(item) ==> exists|i: int|
                0 <= i < old(self).spec_items().len() && old(self).spec_items()[i].spec_id() == id@
                    && (forall|j: int|
                    0 <= j < i ==> (#[trigger] old(self).spec_items()[j]).spec_id() != id@) && item
                    == old(self).spec_items()[i] && final(self).spec_items() == old(self).spec_items().remove(i),
    {
        let n = self.items.len();
        let mut i: usize = 0;
        while i < n
            invariant
                *self == *old(self),
                i <= n,
                n == self.items@.len(),
                forall|j: int| 0 <= j < i ==> (#[trigger] self.items@[j]).spec_id() != id@,
            decreases n - i,
        {
            if str_eq(self.items[i].id(), id) {
                let item = self.items.remove(i);
                proof {
                    let s_old = old(self).spec_items();
                    let ii: int = i as int;
                    assert(0 <= ii < s_old.len() && s_old[ii].spec_id() == id@ && (
                    forall|j: int|
                        0 <= j < ii ==> (#[trigger] s_old[j]).spec_id() != id@) && item
                        == s_old[ii] && self.spec_items() == s_old.remove(ii));
                }
                return Some(item);
            }
            i = i + 1;
        }
        None
    }

    /// Orders the items by priority, high before medium before low, keeping
    /// the relative order of items of equal priority.
    pub fn prioritize_items(&mut self)
        ensures
            final(self).spec_items() == old(self).spec_items().filter(
                has_priority(Priority::High),
            ) + old(self).spec_items().filter(has_priority(Priority::Medium)) + old(self).spec_items().filter(has_priority(Priority::Low)),
            final(self).spec_id() == old(self).spec_id(),
            final(self).spec_name() == old(self).spec_name(),
            final(self).spec_description() == old(self).spec_description(),
    {
        let ghost s0 = self.items@;
        let mut high: Vec<BacklogItem> = Vec::new();
        let mut medium: Vec<BacklogItem> = Vec::new();
        let mut low: Vec<BacklogItem> = Vec::new();
        let ghost mut k: int = 0;
        while self.items.len() > 0
            invariant
                self.spec_id() == old(self).spec_id(),
                self.spec_name() == old(self).spec_name(),
                self.spec_description() == old(self).spec_description(),
                s0.len() >= self.items@.len(),
                k == s0.len() - self.items@.len(),
                self.items@ =~= s0.skip(k),
                high@ == s0.take(k).filter(has_priority(Priority::High)),
                medium@ == s0.take(k).filter(has_priority(Priority::Medium)),
                low@ == s0.take(k).filter(has_priority(Priority::Low)),
            decreases self.items@.len(),
        {
            let item = self.items.remove(0);
            proof {
                assert(item == s0[k]);
                assert(self.items@ =~= s0.skip(k + 1));
                lemma_filter_take_step(s0, has_priority(Priority::High), k);
                lemma_filter_take_step(s0, has_priority(Priority::Medium), k);
                lemma_filter_take_step(s0, has_priority(Priority::Low), k);
            }
            match item.priority() {
                Priority::High => high.push(item),
                Priority::Medium => medium.push(item),
                Priority::Low => low.push(item),
            }
            proof {
                k = k + 1;
            }
        }
        proof {
            lemma_filter_take_all(s0, has_priority(Priority::High));
            lemma_filter_take_all(s0, has_priority(Priority::Medium));
            lemma_filter_take_all(s0, has_priority(Priority::Low));
        }
        let mut result = high;
        let mut medium = medium;
        let mut low = low;
        result.append(&mut medium);
        result.append(&mut low);
        self.items = result;
    }
}

} // verus!
