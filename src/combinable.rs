use vstd::prelude::*;
use vstd::string::StringExecFns;

verus! {

/// A value that can be merged with another value of the same type.
///
/// The merge is stated over the deep view of the two operands, so that a
/// caller reasons about texts as character sequences, about optional values
/// as optional models and about sets as mathematical sets.
pub trait Combinable: Sized + DeepView {
    /// The model of `a.combine(b)` in terms of the models of `a` and `b`.
    spec fn combine_spec(a: Self::V, b: Self::V) -> Self::V;

    /// Merges `self` with `b`, consuming both.
    fn combine(self, b: Self) -> (r: Self)
        ensures
            r.deep_view() == Self::combine_spec(self.deep_view(), b.deep_view()),
    ;
}

/// Two texts combine to the first when they agree, and otherwise to both,
/// joined by `" AND "` in argument order.
pub open spec fn combined_text(a: Seq<char>, b: Seq<char>) -> Seq<char> {
    if a == b {
        a
    } else {
        a + " AND "@ + b
    }
}

impl Combinable for String {
    open spec fn combine_spec(a: Seq<char>, b: Seq<char>) -> Seq<char> {
        combined_text(a, b)
    }

    fn combine(self, b: String) -> (r: String) {
        if self == b {
            self
        } else {
            self.concat(" AND ").concat(b.as_str())
        }
    }
}

/// Absent values give way to present ones; two present values combine by
/// the rule of their own type.
pub open spec fn combined_opt<T: Combinable>(a: Option<T::V>, b: Option<T::V>) -> Option<T::V> {
    match (a, b) {
        (None, None) => None,
        (None, Some(y)) => Some(y),
        (Some(x), None) => Some(x),
        (Some(x), Some(y)) => Some(T::combine_spec(x, y)),
    }
}

impl<T: Combinable> Combinable for Option<T> {
    open spec fn combine_spec(a: Option<T::V>, b: Option<T::V>) -> Option<T::V> {
        combined_opt::<T>(a, b)
    }

    fn combine(self, b: Option<T>) -> (r: Option<T>) {
        match (self, b) {
            (None, None) => None,
            (None, Some(y)) => Some(y),
            (Some(x), None) => Some(x),
            (Some(x), Some(y)) => Some(x.combine(y)),
        }
    }
}

/// A text combined with itself is that text, unchanged.
pub proof fn lemma_combine_text_same(x: Seq<char>)
    ensures
        <String as Combinable>::combine_spec(x, x) == x,
{
}

/// Two different texts combine to the first, `" AND "`, then the second.
pub proof fn lemma_combine_text_distinct(x: Seq<char>, y: Seq<char>)
    requires
        x != y,
    ensures
        <String as Combinable>::combine_spec(x, y) == x + " AND "@ + y,
{
}

/// Text combination depends on the order of its arguments: two different
/// texts combine to different results in the two orders. The one exception
/// is a pair whose words `x + " AND "` and `y + " AND "` commute, such as
/// `"a"` and `"a AND a"`, which combine to `"a AND a AND a"` either way.
pub proof fn lemma_combine_text_order(x: Seq<char>, y: Seq<char>)
    requires
        x != y,
        (x + " AND "@) + (y + " AND "@) != (y + " AND "@) + (x + " AND "@),
    ensures
        <String as Combinable>::combine_spec(x, y) != <String as Combinable>::combine_spec(y, x),
{
    let sep = " AND "@;
    if x + sep + y == y + sep + x {
        assert((x + sep) + (y + sep) =~= (x + sep + y) + sep);
        assert((y + sep) + (x + sep) =~= (y + sep + x) + sep);
    }
}

/// Absence is the identity of optional combination: nothing with nothing
/// stays absent, and a present value with nothing, on either side, is kept.
pub proof fn lemma_combine_opt_identity<T: Combinable>(x: T::V)
    ensures
        <Option<T> as Combinable>::combine_spec(None, None) == None::<T::V>,
        <Option<T> as Combinable>::combine_spec(Some(x), None) == Some(x),
        <Option<T> as Combinable>::combine_spec(None, Some(x)) == Some(x),
{
}

} // verus!
