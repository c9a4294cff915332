use vstd::prelude::*;

verus! {

broadcast use
    vstd::seq::Seq::lemma_push_to_set_commute,
    vstd::seq_lib::seq_to_set_is_finite,
    vstd::seq_lib::lemma_seq_contains_after_push,
;

/// An IP address, held as the integer whose big-endian bytes are its octets.
#[derive(PartialEq, Eq, Structural, Clone, Copy, Debug, Hash)]
pub enum IpAddress {
    V4(u32),
    V6(u128),
}

impl IpAddress {
    /// The IPv4 address `a.b.c.d`.
    pub fn v4(a: u8, b: u8, c: u8, d: u8) -> (r: IpAddress)
        ensures
            r == IpAddress::V4(
                ((a as int) * 0x100_0000 + (b as int) * 0x1_0000 + (c as int) * 0x100 + d as int) as u32,
            ),
    {
        IpAddress::V4((a as u32) * 0x100_0000 + (b as u32) * 0x1_0000 + (c as u32) * 0x100 + d as u32)
    }
}

/// Pushing an item that a sequence lacks keeps its items distinct.
proof fn lemma_push_distinct<A>(s: Seq<A>, x: A)
    requires
        s.no_duplicates(),
        !s.contains(x),
    ensures
        s.push(x).no_duplicates(),
{
    assert forall|i: int, j: int|
        0 <= i < s.len() + 1 && 0 <= j < s.len() + 1 && i != j implies s.push(x)[i] != s.push(
        x,
    )[j] by {
        if i == s.len() {
            assert(s.contains(s[j]));
        } else if j == s.len() {
            assert(s.contains(s[i]));
        }
    }
}

/// A finite set of addresses: each member is held once.
#[derive(Debug)]
pub struct AddressSet {
    items: Vec<IpAddress>,
}

impl View for AddressSet {
    type V = Set<IpAddress>;

    closed spec fn view(&self) -> Set<IpAddress> {
        self.items@.to_set()
    }
}

impl AddressSet {
    /// No address is held twice.
    pub closed spec fn wf(&self) -> bool {
        self.items@.no_duplicates()
    }

    pub fn new() -> (r: AddressSet)
        ensures
            r.wf(),
            r@ == Set::<IpAddress>::empty(),
    {
        let r = AddressSet { items: Vec::new() };
        assert(r@ =~= Set::<IpAddress>::empty());
        r
    }

    /// The set of the addresses in `v`, repeated ones once.
    pub fn from_vec(v: Vec<IpAddress>) -> (r: AddressSet)
        ensures
            r.wf(),
            r@ == v@.to_set(),
    {
        let mut r = AddressSet::new();
        let mut i: usize = 0;
        while i < v.len()
            invariant
                i <= v.len(),
                r.wf(),
                r@ == v@.take(i as int).to_set(),
            decreases v.len() - i,
        {
            r.insert(v[i]);
            assert(v@.take(i + 1) == v@.take(i as int).push(v@[i as int]));
            i = i + 1;
        }
        assert(v@.take(v.len() as int) == v@);
        r
    }

    pub fn contains(&self, a: &IpAddress) -> (r: bool)
        ensures
            r == self@.contains(*a),
    {
        let mut i: usize = 0;
        while i < self.items.len()
            invariant
                i <= self.items.len(),
                forall|j: int| 0 <= j < i ==> self.items@[j] != *a,
            decreases self.items.len() - i,
        {
            if self.items[i] == *a {
                return true;
            }
            i = i + 1;
        }
        false
    }

    /// Adds `a`; nothing changes where it is already a member.
    pub fn insert(&mut self, a: IpAddress)
        requires
            old(self).wf(),
        ensures
            final(self).wf(),
            final(self)@ == old(self)@.insert(a),
    {
        if !self.contains(&a) {
            proof {
                lemma_push_distinct(self.items@, a);
            }
            self.items.push(a);
        } else {
            assert(old(self)@.insert(a) =~= old(self)@);
        }
    }

    /// Takes `a` out; nothing changes where it is not a member.
    pub fn remove(&mut self, a: &IpAddress)
        requires
            old(self).wf(),
        ensures
            final(self).wf(),
            final(self)@ == old(self)@.remove(*a),
    {
        let mut kept: Vec<IpAddress> = Vec::new();
        let mut i: usize = 0;
        while i < self.items.len()
            invariant
                i <= self.items.len(),
                self.items@.no_duplicates(),
                kept@.no_duplicates(),
                forall|x: IpAddress| #[trigger]
                    kept@.contains(x) <==> (self.items@.take(i as int).contains(x) && x != *a),
            decreases self.items.len() - i,
        {
            let x = self.items[i];
            assert(self.items@.take(i + 1) == self.items@.take(i as int).push(x));
            if x != *a {
                assert(!self.items@.take(i as int).contains(x));
                proof {
                    lemma_push_distinct(kept@, x);
                }
                kept.push(x);
            }
            i = i + 1;
        }
        assert(self.items@.take(self.items.len() as int) == self.items@);
        self.items = kept;
        assert(self@ =~= old(self)@.remove(*a));
    }

    /// The members of `self` that are not members of `other`.
    pub fn difference(&self, other: &AddressSet) -> (r: AddressSet)
        requires
            self.wf(),
        ensures
            r.wf(),
            r@ == self@.difference(other@),
    {
        let mut kept: Vec<IpAddress> = Vec::new();
        let mut i: usize = 0;
        while i < self.items.len()
            invariant
                i <= self.items.len(),
                self.items@.no_duplicates(),
                kept@.no_duplicates(),
                forall|x: IpAddress| #[trigger]
                    kept@.contains(x) <==> (self.items@.take(i as int).contains(x)
                        && !other@.contains(x)),
            decreases self.items.len() - i,
        {
            let x = self.items[i];
            assert(self.items@.take(i + 1) == self.items@.take(i as int).push(x));
            if !other.contains(&x) {
                assert(!self.items@.take(i as int).contains(x));
                proof {
                    lemma_push_distinct(kept@, x);
                }
                kept.push(x);
            }
            i = i + 1;
        }
        assert(self.items@.take(self.items.len() as int) == self.items@);
        let r = AddressSet { items: kept };
        assert(r@ =~= self@.difference(other@));
        r
    }

    pub fn len(&self) -> (r: usize)
        requires
            self.wf(),
        ensures
            r == self@.len(),
    {
        proof {
            self.items@.unique_seq_to_set();
        }
        self.items.len()
    }

    pub fn is_empty(&self) -> (r: bool)
        ensures
            r == (self@ == Set::<IpAddress>::empty()),
    {
        proof {
            if self.items.len() > 0 {
                assert(self@.contains(self.items@[0]));
            } else {
                assert(self@ =~= Set::<IpAddress>::empty());
            }
        }
        self.items.len() == 0
    }

    /// The members, each once, in no particular order.
    pub fn to_vec(&self) -> (r: Vec<IpAddress>)
        requires
            self.wf(),
        ensures
            r@.no_duplicates(),
            r@.to_set() == self@,
    {
        self.items.clone()
    }
}

} // verus!
