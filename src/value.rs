use vstd::prelude::*;

verus! {

/// Executable structural equality: two values are equal exactly when their
/// deep views are equal, which for a record means that every field agrees.
pub trait ValueEq: Sized + DeepView {
    /// Tests whether `self` and `other` are structurally equal.
    fn value_eq(&self, other: &Self) -> (r: bool)
        ensures
            r == (self.deep_view() == other.deep_view()),
    ;
}

impl ValueEq for String {
    fn value_eq(&self, other: &String) -> (r: bool) {
        *self == *other
    }
}

impl ValueEq for bool {
    fn value_eq(&self, other: &bool) -> (r: bool) {
        *self == *other
    }
}

impl ValueEq for i64 {
    fn value_eq(&self, other: &i64) -> (r: bool) {
        *self == *other
    }
}

impl ValueEq for u32 {
    fn value_eq(&self, other: &u32) -> (r: bool) {
        *self == *other
    }
}

impl<T: ValueEq> ValueEq for Option<T> {
    fn value_eq(&self, other: &Option<T>) -> (r: bool) {
        match (self, other) {
            (None, None) => true,
            (Some(x), Some(y)) => x.value_eq(y),
            _ => false,
        }
    }
}

impl<T: ValueEq> ValueEq for Vec<T> {
    fn value_eq(&self, other: &Vec<T>) -> (r: bool) {
        if self.len() != other.len() {
            return false;
        }
        let mut i: usize = 0;
        while i < self.len()
            invariant
                self.len() == other.len(),
                i <= self.len(),
                forall|j: int| 0 <= j < i ==> self[j].deep_view() == other[j].deep_view(),
            decreases self.len() - i,
        {
            if !self[i].value_eq(&other[i]) {
                assert(self.deep_view()[i as int] != other.deep_view()[i as int]);
                return false;
            }
            i = i + 1;
        }
        assert(self.deep_view() =~= other.deep_view());
        true
    }
}

/// Executable structural copying: the copy has the same deep view as the
/// original.
pub trait ValueClone: Sized + DeepView {
    /// A structurally equal copy of `self`.
    fn value_clone(&self) -> (r: Self)
        ensures
            r.deep_view() == self.deep_view(),
    ;
}

impl ValueClone for String {
    fn value_clone(&self) -> (r: String) {
        self.clone()
    }
}

impl ValueClone for bool {
    fn value_clone(&self) -> (r: bool) {
        *self
    }
}

impl ValueClone for i64 {
    fn value_clone(&self) -> (r: i64) {
        *self
    }
}

impl ValueClone for u32 {
    fn value_clone(&self) -> (r: u32) {
        *self
    }
}

impl<T: ValueClone> ValueClone for Option<T> {
    fn value_clone(&self) -> (r: Option<T>) {
        match self {
            None => None,
            Some(x) => Some(x.value_clone()),
        }
    }
}

impl<T: ValueClone> ValueClone for Vec<T> {
    fn value_clone(&self) -> (r: Vec<T>) {
        let mut r: Vec<T> = Vec::new();
        let mut i: usize = 0;
        while i < self.len()
            invariant
                i <= self.len(),
                r.len() == i,
                forall|j: int| 0 <= j < i ==> r[j].deep_view() == self[j].deep_view(),
            decreases self.len() - i,
        {
            r.push(self[i].value_clone());
            i = i + 1;
        }
        assert(r.deep_view() =~= self.deep_view());
        r
    }
}

} // verus!
