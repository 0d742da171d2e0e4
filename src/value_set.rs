use vstd::prelude::*;
use crate::combinable::Combinable;
use crate::value::{ValueClone, ValueEq};

verus! {

/// A finite set of values under structural equality.
///
/// Two elements are the same member exactly when their deep views agree, so
/// records that differ in any field are kept apart. The elements are held in
/// the order in which they first arrived.
#[derive(Debug)]
pub struct ValueSet<T: DeepView> {
    elems: Vec<T>,
}

impl<T: DeepView> ValueSet<T> {
    /// No two held elements are structurally equal.
    #[verifier::type_invariant]
    closed spec fn distinct(self) -> bool {
        self.elems.deep_view().no_duplicates()
    }
}

impl<T: DeepView> View for ValueSet<T> {
    type V = Set<T::V>;

    closed spec fn view(&self) -> Set<T::V> {
        self.elems.deep_view().to_set()
    }
}

impl<T: DeepView> DeepView for ValueSet<T> {
    type V = Set<T::V>;

    open spec fn deep_view(&self) -> Set<T::V> {
        self@
    }
}

impl<T: DeepView> ValueSet<T> {
    /// The empty set.
    pub fn new() -> (s: Self)
        ensures
            s@ == Set::<T::V>::empty(),
    {
        let s = ValueSet { elems: Vec::new() };
        assert(s.elems.deep_view() =~= Seq::<T::V>::empty());
        assert(s@ =~= Set::<T::V>::empty());
        s
    }

    /// Every set has finitely many members.
    pub proof fn lemma_finite(&self)
        ensures
            self@.finite(),
    {
        broadcast use vstd::seq_lib::seq_to_set_is_finite;
    }

    /// The number of members.
    pub fn len(&self) -> (n: usize)
        ensures
            n == self@.len(),
    {
        proof {
            use_type_invariant(self);
            self.elems.deep_view().unique_seq_to_set();
        }
        self.elems.len()
    }

    /// Whether the set has no members.
    pub fn is_empty(&self) -> (b: bool)
        ensures
            b == (self@ == Set::<T::V>::empty()),
    {
        let n = self.len();
        proof {
            self.lemma_finite();
            if n != 0 {
                assert(self@.len() != 0);
            } else {
                self@.lemma_len0_is_empty();
            }
        }
        n == 0
    }

    /// The elements, each member once, in the order in which they arrived.
    pub fn into_vec(self) -> (v: Vec<T>)
        ensures
            v.deep_view().no_duplicates(),
            v.deep_view().to_set() == self@,
    {
        proof {
            use_type_invariant(&self);
        }
        self.elems
    }
}

impl<T: ValueEq> ValueSet<T> {
    /// Whether a member is structurally equal to `x`.
    pub fn contains(&self, x: &T) -> (b: bool)
        ensures
            b == self@.contains(x.deep_view()),
    {
        let mut i: usize = 0;
        while i < self.elems.len()
            invariant
                i <= self.elems.len(),
                forall|j: int| 0 <= j < i ==> self.elems.deep_view()[j] != x.deep_view(),
            decreases self.elems.len() - i,
        {
            if self.elems[i].value_eq(x) {
                assert(self.elems.deep_view()[i as int] == x.deep_view());
                return true;
            }
            i = i + 1;
        }
        false
    }

    /// Adds `x` unless a structurally equal member is already held; returns
    /// whether it was added.
    pub fn insert(&mut self, x: T) -> (added: bool)
        ensures
            final(self)@ == old(self)@.insert(x.deep_view()),
            added == !old(self)@.contains(x.deep_view()),
    {
        if self.contains(&x) {
            proof {
                assert(self@.insert(x.deep_view()) =~= self@);
            }
            return false;
        }
        proof {
            use_type_invariant(&*self);
        }
        let ghost before = self.elems.deep_view();
        let mut elems = Vec::new();
        std::mem::swap(&mut elems, &mut self.elems);
        elems.push(x);
        proof {
            assert(elems.deep_view() =~= before.push(x.deep_view()));
            before.lemma_push_to_set_commute(x.deep_view());
        }
        self.elems = elems;
        true
    }
}

impl<T: ValueEq> Combinable for ValueSet<T> {
    open spec fn combine_spec(a: Set<T::V>, b: Set<T::V>) -> Set<T::V> {
        a.union(b)
    }

    /// The union of the two sets: the members of `self` in their order,
    /// followed by those members of `b` that `self` lacks, in the reverse of
    /// their order in `b`.
    fn combine(self, b: ValueSet<T>) -> (r: ValueSet<T>) {
        let ghost target = self@.union(b@);
        let mut merged = self;
        let mut rest = b.into_vec();
        while rest.len() > 0
            invariant
                merged@.union(rest.deep_view().to_set()) == target,
            decreases rest.len(),
        {
            let ghost before = rest.deep_view();
            let x = rest.pop().unwrap();
            proof {
                assert(before =~= rest.deep_view().push(x.deep_view()));
                rest.deep_view().lemma_push_to_set_commute(x.deep_view());
            }
            merged.insert(x);
            proof {
                assert(merged@.union(rest.deep_view().to_set()) =~= target);
            }
        }
        proof {
            assert(rest.deep_view().to_set() =~= Set::<T::V>::empty());
            assert(merged@ =~= target);
        }
        merged
    }
}

impl<T: ValueEq> ValueEq for ValueSet<T> {
    /// Two sets are equal when they have as many members and every member of
    /// the first is one of the second.
    fn value_eq(&self, other: &ValueSet<T>) -> (r: bool) {
        proof {
            use_type_invariant(self);
            use_type_invariant(other);
            self.elems.deep_view().unique_seq_to_set();
            other.elems.deep_view().unique_seq_to_set();
            self.lemma_finite();
            other.lemma_finite();
        }
        if self.elems.len() != other.elems.len() {
            return false;
        }
        let mut i: usize = 0;
        while i < self.elems.len()
            invariant
                i <= self.elems.len(),
                forall|j: int| 0 <= j < i ==> other@.contains(#[trigger] self.elems.deep_view()[j]),
            decreases self.elems.len() - i,
        {
            if !other.contains(&self.elems[i]) {
                assert(self@.contains(self.elems.deep_view()[i as int]));
                return false;
            }
            i = i + 1;
        }
        proof {
            assert forall|v: T::V| self@.contains(v) implies other@.contains(v) by {
                let k = choose|k: int| 0 <= k < self.elems.deep_view().len() && self.elems.deep_view()[k] == v;
            }
            vstd::set_lib::lemma_subset_equality(self@, other@);
        }
        true
    }
}

impl<T: ValueEq> PartialEq for ValueSet<T> {
    fn eq(&self, other: &ValueSet<T>) -> (r: bool)
        ensures
            r == (self@ == other@),
    {
        self.value_eq(other)
    }
}

impl<T: ValueEq> vstd::std_specs::cmp::PartialEqSpecImpl for ValueSet<T> {
    open spec fn obeys_eq_spec() -> bool {
        true
    }

    open spec fn eq_spec(&self, other: &ValueSet<T>) -> bool {
        self@ == other@
    }
}

/// Set combination is a union: it contains both operands, does not depend on
/// their order, and has at least as many members as either of them.
pub proof fn lemma_combine_set_union<T: ValueEq>(a: Set<T::V>, b: Set<T::V>)
    requires
        a.finite(),
        b.finite(),
    ensures
        a.subset_of(<ValueSet<T> as Combinable>::combine_spec(a, b)),
        b.subset_of(<ValueSet<T> as Combinable>::combine_spec(a, b)),
        <ValueSet<T> as Combinable>::combine_spec(a, b) == <ValueSet<T> as Combinable>::combine_spec(b, a),
        <ValueSet<T> as Combinable>::combine_spec(a, b).len() >= a.len(),
        <ValueSet<T> as Combinable>::combine_spec(a, b).len() >= b.len(),
{
    let c = a.union(b);
    assert(c =~= b.union(a));
    vstd::set_lib::lemma_len_subset(a, c);
    vstd::set_lib::lemma_len_subset(b, c);
}

impl<T: DeepView> Default for ValueSet<T> {
    fn default() -> (s: Self)
        ensures
            s@ == Set::<T::V>::empty(),
    {
        ValueSet::new()
    }
}

impl<T: ValueClone> ValueClone for ValueSet<T> {
    fn value_clone(&self) -> (r: ValueSet<T>) {
        proof {
            use_type_invariant(self);
        }
        ValueSet { elems: self.elems.value_clone() }
    }
}

impl<T: ValueClone> Clone for ValueSet<T> {
    /// A copy holding a structurally equal copy of each member.
    fn clone(&self) -> (s: Self)
        ensures
            s@ == self@,
    {
        self.value_clone()
    }
}

} // verus!
