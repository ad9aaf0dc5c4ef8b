use vstd::prelude::*;

use crate::project::member::Member;
use crate::project::member_id::MemberId;
use crate::project::member_role::MemberRole;
use crate::user::user_id::UserId;

verus! {

/// The mapping a sequence of membership records induces from user to record;
/// a later record for the same user shadows an earlier one.
pub open spec fn members_map_of(s: Seq<Member>) -> Map<UserId, Member>
    decreases s.len(),
{
    if s.len() == 0 {
        Map::empty()
    } else {
        members_map_of(s.drop_last()).insert(s.last().spec_user_id(), s.last())
    }
}

/// A user is in the induced map exactly when some record carries that user.
pub proof fn lemma_members_map_domain(s: Seq<Member>, u: UserId)
    ensures
        members_map_of(s).contains_key(u) <==> exists|i: int|
            0 <= i < s.len() && s[i].spec_user_id() == u,
    decreases s.len(),
{
    if s.len() > 0 {
        lemma_members_map_domain(s.drop_last(), u);
        assert(forall|i: int| 0 <= i < s.len() - 1 ==> s.drop_last()[i] == s[i]);
        if s.last().spec_user_id() == u {
            assert(s[s.len() - 1].spec_user_id() == u);
        } else {
            if exists|i: int| 0 <= i < s.len() && s[i].spec_user_id() == u {
                let i = choose|i: int| 0 <= i < s.len() && s[i].spec_user_id() == u;
                assert(s.drop_last()[i].spec_user_id() == u);
            }
        }
    }
}

/// With at most one record per user, the induced map sends each record's user
/// to that record.
pub proof fn lemma_members_map_index(s: Seq<Member>, i: int)
    requires
        0 <= i < s.len(),
        forall|a: int, b: int|
            0 <= a < b < s.len() ==> s[a].spec_user_id() != s[b].spec_user_id(),
    ensures
        members_map_of(s).contains_key(s[i].spec_user_id()),
        members_map_of(s)[s[i].spec_user_id()] == s[i],
    decreases s.len(),
{
    if i < s.len() - 1 {
        assert(forall|j: int| 0 <= j < s.len() - 1 ==> s.drop_last()[j] == s[j]);
        lemma_members_map_index(s.drop_last(), i);
        assert(s[i].spec_user_id() != s[s.len() - 1].spec_user_id());
    }
}

/// With at most one record per user, removing a record removes exactly its
/// user from the induced map.
pub proof fn lemma_members_map_remove(s: Seq<Member>, i: int)
    requires
        0 <= i < s.len(),
        forall|a: int, b: int|
            0 <= a < b < s.len() ==> s[a].spec_user_id() != s[b].spec_user_id(),
    ensures
        members_map_of(s.remove(i)) == members_map_of(s).remove(s[i].spec_user_id()),
    decreases s.len(),
{
    let u = s[i].spec_user_id();
    if i == s.len() - 1 {
        assert(s.remove(i) =~= s.drop_last());
        lemma_members_map_domain(s.drop_last(), u);
        assert(members_map_of(s.drop_last()).remove(u) =~= members_map_of(s.drop_last()));
        assert(members_map_of(s).remove(u) =~= members_map_of(s.drop_last()).remove(u));
    } else {
        assert(forall|j: int| 0 <= j < s.len() - 1 ==> s.drop_last()[j] == s[j]);
        lemma_members_map_remove(s.drop_last(), i);
        assert(s.remove(i).drop_last() =~= s.drop_last().remove(i));
        assert(s.remove(i).last() == s.last());
        let l = s.last().spec_user_id();
        assert(l != u);
        assert(members_map_of(s.remove(i)) =~= members_map_of(s.drop_last().remove(i)).insert(
            l,
            s.last(),
        ));
        assert(members_map_of(s.drop_last()).remove(u).insert(l, s.last()) =~= members_map_of(
            s.drop_last(),
        ).insert(l, s.last()).remove(u));
    }
}

/// The membership registry of one project: at most one record per user, with
/// lookup both by user and by record identity.
#[derive(Debug)]
pub struct Members {
    members: Vec<Member>,
}

impl Clone for Members {
    fn clone(&self) -> (r: Self)
        ensures
            r@ == self@,
    {
        Members { members: self.to_vec() }
    }
}

impl View for Members {
    type V = Seq<Member>;

    closed spec fn view(&self) -> Seq<Member> {
        self.members@
    }
}

impl Members {
    /// The registry as a mapping from user to membership record.
    pub open spec fn to_map(self) -> Map<UserId, Member> {
        members_map_of(self@)
    }

    /// Well-formed: at most one record per user.
    pub open spec fn wf(self) -> bool {
        forall|i: int, j: int|
            0 <= i < j < self@.len() ==> self@[i].spec_user_id() != self@[j].spec_user_id()
    }

    pub open spec fn spec_contains_user(self, user_id: UserId) -> bool {
        self.to_map().contains_key(user_id)
    }

    pub open spec fn spec_is_administrator(self, user_id: UserId) -> bool {
        self.to_map().contains_key(user_id) && self.to_map()[user_id].spec_role()
            == MemberRole::Admin
    }

    pub open spec fn spec_is_member(self, user_id: UserId) -> bool {
        self.to_map().contains_key(user_id) && (self.to_map()[user_id].spec_role()
            == MemberRole::Admin || self.to_map()[user_id].spec_role() == MemberRole::Member)
    }

    pub fn new() -> (r: Self)
        ensures
            r@ == Seq::<Member>::empty(),
            r.wf(),
    {
        Members { members: Vec::new() }
    }

    /// The position of the record of the given user, if there is one.
    fn index_of_user(&self, user_id: &UserId) -> (r: Option<usize>)
        ensures
            r matches Some(i) ==> i < self@.len() && self@[i as int].spec_user_id() == *user_id,
            r is None ==> forall|i: int|
                0 <= i < self@.len() ==> self@[i].spec_user_id() != *user_id,
    {
        let n = self.members.len();
        let mut i: usize = 0;
        while i < n
            invariant
                i <= n,
                n == self@.len(),
                forall|j: int| 0 <= j < i ==> self@[j].spec_user_id() != *user_id,
            decreases n - i,
        {
            if self.members[i].breach_encapsulation_of_user_id() == *user_id {
                return Some(i);
            }
            i = i + 1;
        }
        None
    }

    /// Whether the user holds the Administrator role here.
    pub fn is_administrator(&self, user_id: &UserId) -> (r: bool)
        requires
            self.wf(),
        ensures
            r == self.spec_is_administrator(*user_id),
    {
        match self.find_by_user_id(user_id) {
            Some(m) => match m.breach_encapsulation_of_role() {
                MemberRole::Admin => true,
                MemberRole::Member => false,
            },
            None => false,
        }
    }

    /// Whether the user holds any membership record here, whatever the role.
    pub fn is_member(&self, user_id: &UserId) -> (r: bool)
        requires
            self.wf(),
        ensures
            r == self.spec_is_member(*user_id),
    {
        match self.find_by_user_id(user_id) {
            Some(m) => match m.breach_encapsulation_of_role() {
                MemberRole::Admin => true,
                MemberRole::Member => true,
            },
            None => false,
        }
    }

    /// Whether the user holds a record whose role is among the given ones.
    pub fn is_role(&self, user_id: &UserId, roles: &[MemberRole]) -> (r: bool)
        requires
            self.wf(),
        ensures
            r == (self.spec_contains_user(*user_id) && roles@.contains(
                self.to_map()[*user_id].spec_role(),
            )),
    {
        match self.find_by_user_id(user_id) {
            Some(m) => {
                let role = m.breach_encapsulation_of_role();
                let n = roles.len();
                let mut i: usize = 0;
                while i < n
                    invariant
                        i <= n,
                        n == roles@.len(),
                        role == m.spec_role(),
                        self.spec_contains_user(*user_id),
                        m == self.to_map()[*user_id],
                        forall|j: int| 0 <= j < i ==> roles@[j] != role,
                    decreases n - i,
                {
                    if roles[i] == role {
                        proof {
                            assert(roles@[i as int] == role);
                            assert(roles@.contains(role));
                        }
                        return true;
                    }
                    i = i + 1;
                }
                false
            },
            None => false,
        }
    }

    /// Puts the record into the registry; an existing record of the same user
    /// is replaced, so that each user keeps at most one record.
    pub fn add_member(&mut self, member: Member)
        requires
            old(self).wf(),
        ensures
            final(self).wf(),
            final(self).to_map() == old(self).to_map().insert(member.spec_user_id(), member),
            !old(self).spec_contains_user(member.spec_user_id()) ==> final(self)@ == old(self)@.push(member),
            old(self).spec_contains_user(member.spec_user_id()) ==> exists|i: int|
                0 <= i < old(self)@.len() && old(self)@[i].spec_user_id()
                    == member.spec_user_id() && final(self)@ == old(self)@.remove(i).push(member),
    {
        let ghost s0 = self@;
        let u = member.breach_encapsulation_of_user_id();
        match self.index_of_user(&u) {
            Some(i) => {
                proof {
                    lemma_members_map_domain(s0, member.spec_user_id());
                    lemma_members_map_remove(s0, i as int);
                }
                self.members.remove(i);
                self.members.push(member);
                proof {
                    let s1 = s0.remove(i as int);
                    assert(self@ == s1.push(member));
                    assert(s1.push(member).drop_last() =~= s1);
                    assert(members_map_of(s1.push(member)) == members_map_of(s1).insert(
                        member.spec_user_id(),
                        member,
                    ));
                    assert(members_map_of(s0).remove(member.spec_user_id()).insert(
                        member.spec_user_id(),
                        member,
                    ) =~= members_map_of(s0).insert(member.spec_user_id(), member));
                }
            },
            None => {
                self.members.push(member);
                proof {
                    lemma_members_map_domain(s0, member.spec_user_id());
                    assert(s0.push(member).drop_last() =~= s0);
                }
            },
        }
    }

    /// The position of the first record with the given record identity.
    fn index_of_member_id(&self, member_id: &MemberId) -> (r: Option<usize>)
        ensures
            r matches Some(i) ==> i < self@.len() && self@[i as int].spec_id() == *member_id
                && forall|j: int| 0 <= j < i ==> self@[j].spec_id() != *member_id,
            r is None ==> forall|i: int| 0 <= i < self@.len() ==> self@[i].spec_id() != *member_id,
    {
        let n = self.members.len();
        let mut i: usize = 0;
        while i < n
            invariant
                i <= n,
                n == self@.len(),
                forall|j: int| 0 <= j < i ==> self@[j].spec_id() != *member_id,
            decreases n - i,
        {
            if self.members[i].breach_encapsulation_of_id() == *member_id {
                return Some(i);
            }
            i = i + 1;
        }
        None
    }

    /// The record with the given record identity, if there is one: the first
    /// in registry order.
    pub fn find_by_id(&self, member_id: &MemberId) -> (r: Option<Member>)
        ensures
            r matches Some(m) ==> exists|i: int|
                0 <= i < self@.len() && self@[i].spec_id() == *member_id && m == self@[i] && (
                forall|j: int| 0 <= j < i ==> self@[j].spec_id() != *member_id),
            r is None ==> forall|i: int| 0 <= i < self@.len() ==> self@[i].spec_id() != *member_id,
    {
        match self.index_of_member_id(member_id) {
            Some(i) => Some(self.members[i]),
            None => None,
        }
    }

    /// The record of the given user, if there is one.
    pub fn find_by_user_id(&self, user_id: &UserId) -> (r: Option<Member>)
        requires
            self.wf(),
        ensures
            r is Some <==> self.spec_contains_user(*user_id),
            r matches Some(m) ==> m == self.to_map()[*user_id],
    {
        proof {
            lemma_members_map_domain(self@, *user_id);
        }
        match self.index_of_user(user_id) {
            Some(i) => {
                proof {
                    lemma_members_map_index(self@, i as int);
                }
                Some(self.members[i])
            },
            None => None,
        }
    }

    /// Takes out the first record with the given record identity, if any.
    pub fn remove_member(&mut self, member_id: &MemberId)
        requires
            old(self).wf(),
        ensures
            final(self).wf(),
            (forall|i: int| 0 <= i < old(self)@.len() ==> old(self)@[i].spec_id() != *member_id)
                ==> *final(self) == *old(self),
            (exists|i: int| 0 <= i < old(self)@.len() && old(self)@[i].spec_id() == *member_id)
                ==> exists|i: int|
                0 <= i < old(self)@.len() && old(self)@[i].spec_id() == *member_id && (forall|
                    j: int,
                | 0 <= j < i ==> old(self)@[j].spec_id() != *member_id) && final(self)@ == old(self)@.remove(i) && final(self).to_map() == old(self).to_map().remove(
                    old(self)@[i].spec_user_id(),
                ),
    {
        let ghost s0 = self@;
        match self.index_of_member_id(member_id) {
            Some(i) => {
                proof {
                    lemma_members_map_remove(s0, i as int);
                }
                self.members.remove(i);
            },
            None => {},
        }
    }

    /// Takes out the record of the given user, if any.
    pub fn remove_member_by_user_id(&mut self, user_id: &UserId)
        requires
            old(self).wf(),
        ensures
            final(self).wf(),
            final(self).to_map() == old(self).to_map().remove(*user_id),
            !old(self).spec_contains_user(*user_id) ==> *final(self) == *old(self),
            old(self).spec_contains_user(*user_id) ==> exists|i: int|
                0 <= i < old(self)@.len() && old(self)@[i].spec_user_id() == *user_id && final(self)@ == old(self)@.remove(i),
    {
        let ghost s0 = self@;
        proof {
            lemma_members_map_domain(s0, *user_id);
        }
        match self.index_of_user(user_id) {
            Some(i) => {
                proof {
                    lemma_members_map_remove(s0, i as int);
                }
                self.members.remove(i);
            },
            None => {
                proof {
                    assert(members_map_of(s0).remove(*user_id) =~= members_map_of(s0));
                }
            },
        }
    }

    /// Every record, in registry order.
    pub fn to_vec(&self) -> (r: Vec<Member>)
        ensures
            r@ == self@,
    {
        let n = self.members.len();
        let mut r: Vec<Member> = Vec::new();
        let mut i: usize = 0;
        while i < n
            invariant
                i <= n,
                n == self@.len(),
                r@ == self@.subrange(0, i as int),
            decreases n - i,
        {
            r.push(self.members[i]);
            proof {
                assert(r@ =~= self@.subrange(0, i as int + 1));
            }
            i = i + 1;
        }
        proof {
            assert(self@.subrange(0, self@.len() as int) =~= self@);
        }
        r
    }
}

impl Default for Members {
    fn default() -> (r: Self)
        ensures
            r@ == Seq::<Member>::empty(),
            r.wf(),
    {
        Members::new()
    }
}

} // verus!
