use vstd::prelude::*;
use crate::coerce::{bool_rule, int_rule, string_rule, uint_rule};
use crate::convert::{kept, TryFromJson};
use crate::document::{Json, Key, Number};
use crate::maybe::{Maybe, MaybeView};
use crate::value::{array_reading, list_reading, object_reading, MaybeValue};

verus! {

/// The integer that `n` holds, if it is of an integer kind.
pub open spec fn integer_value(n: Number) -> Option<int> {
    match n {
        Number::PosInt(u) => Some(u as int),
        Number::NegInt(i) => Some(i as int),
        Number::Float(_) => None,
    }
}

/// Where a key selects nothing, every accessor reads `Null`, whatever the
/// target type.
pub proof fn lemma_absent_key_reads_null<T: TryFromJson>(doc: Json, key: Key)
    requires
        doc.lookup(key) is None,
    ensures
        bool_rule(doc.lookup(key)) is Null,
        int_rule(doc.lookup(key)) is Null,
        uint_rule(doc.lookup(key)) is Null,
        string_rule(doc.lookup(key)) is Null,
        forall|r: MaybeView<Seq<T>>| array_reading::<T>(doc.lookup(key), r) <==> r is Null,
        forall|r: Maybe<T>| object_reading(doc.lookup(key), r) <==> r is Null,
{
}

/// A number of an integer kind whose value fits in `i64` reads as that
/// value, strictly, as a signed integer.
pub proof fn lemma_int_in_range_reads_strict(doc: Json, key: Key, n: Number, v: i64)
    requires
        doc.lookup(key) == Some(Json::Number(n)),
        integer_value(n) == Some(v as int),
    ensures
        int_rule(doc.lookup(key)) == MaybeView::<i64>::Strict(v),
{
}

/// A string reads as itself, strictly, as a string.
pub proof fn lemma_string_reads_strict(doc: Json, key: Key, s: String)
    requires
        doc.lookup(key) == Some(Json::String(s)),
    ensures
        string_rule(doc.lookup(key)) == MaybeView::<Seq<char>>::Strict(s@),
{
}

/// A list in which some element fails to convert reads as a relaxed list
/// of the values of the elements that did convert, in their order.
pub proof fn lemma_partial_list_reads_relaxed<T>(outcomes: Seq<Result<T, Seq<char>>>, j: int)
    requires
        0 <= j < outcomes.len(),
        outcomes[j] is Err,
    ensures
        list_reading(outcomes) == MaybeView::Relaxed(kept(outcomes)),
{
}

} // verus!
