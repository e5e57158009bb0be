use vstd::prelude::*;
use crate::coerce::{
    bool_rule, coerce_bool, coerce_int, coerce_string, coerce_uint, int_rule, string_rule, uint_rule,
};
use crate::document::Json;
use crate::error::FromJsonError;
use crate::maybe::{Maybe, MaybeView};

verus! {

/// The model of a conversion's result: the value, or the error's message.
pub open spec fn outcome_of<T>(r: Result<T, FromJsonError>) -> Result<T, Seq<char>> {
    match r {
        Ok(v) => Ok(v),
        Err(e) => Err(e@),
    }
}

/// A type whose values can be built out of a JSON node.
pub trait TryFromJson: Sized {
    /// Whether `outcome` is a possible result of building a value out of
    /// `node`: the value, or the message of the failure. Unless an
    /// implementation states it, every outcome is possible.
    open spec fn converts(node: Json, outcome: Result<Self, Seq<char>>) -> bool {
        true
    }

    /// Builds a value out of `node`.
    fn try_from_json(node: &Json) -> (r: Result<Self, FromJsonError>)
        ensures
            Self::converts(*node, outcome_of(r)),
    ;
}

/// The value of a scalar reading, strict or relaxed, or the message of why
/// there is none.
pub open spec fn accepted<V>(m: MaybeView<V>) -> Result<V, Seq<char>> {
    match m {
        MaybeView::Strict(v) => Ok(v),
        MaybeView::Relaxed(v) => Ok(v),
        MaybeView::Error(msg) => Err(msg),
        MaybeView::Null => Err("null value"@),
    }
}

/// The value of a reading, strict or relaxed, or why there is none.
pub fn accept<T>(m: Maybe<T>) -> (r: Result<T, FromJsonError>)
    ensures
        m is Strict ==> r == Ok::<T, FromJsonError>(m->Strict_0),
        m is Relaxed ==> r == Ok::<T, FromJsonError>(m->Relaxed_0),
        m is Error ==> r == Err::<T, FromJsonError>(m->Error_0),
        m is Null ==> r is Err && r->Err_0@ == "null value"@,
{
    match m {
        Maybe::Strict(v) => Ok(v),
        Maybe::Relaxed(v) => Ok(v),
        Maybe::Error(e) => Err(e),
        Maybe::Null => Err(FromJsonError::with_message("null value")),
    }
}

// A scalar converts as its accessor reads it: a strict or relaxed value
// succeeds, an error keeps its message, and a null fails.
impl TryFromJson for bool {
    open spec fn converts(node: Json, outcome: Result<bool, Seq<char>>) -> bool {
        outcome == accepted(bool_rule(Some(node)))
    }

    fn try_from_json(node: &Json) -> (r: Result<bool, FromJsonError>) {
        accept(coerce_bool(Some(node)))
    }
}

impl TryFromJson for i64 {
    open spec fn converts(node: Json, outcome: Result<i64, Seq<char>>) -> bool {
        outcome == accepted(int_rule(Some(node)))
    }

    fn try_from_json(node: &Json) -> (r: Result<i64, FromJsonError>) {
        accept(coerce_int(Some(node)))
    }
}

impl TryFromJson for u64 {
    open spec fn converts(node: Json, outcome: Result<u64, Seq<char>>) -> bool {
        outcome == accepted(uint_rule(Some(node)))
    }

    fn try_from_json(node: &Json) -> (r: Result<u64, FromJsonError>) {
        accept(coerce_uint(Some(node)))
    }
}

impl TryFromJson for String {
    open spec fn converts(node: Json, outcome: Result<String, Seq<char>>) -> bool {
        match outcome {
            Ok(v) => accepted(string_rule(Some(node))) == Ok::<Seq<char>, Seq<char>>(v@),
            Err(msg) => accepted(string_rule(Some(node))) == Err::<Seq<char>, Seq<char>>(msg),
        }
    }

    fn try_from_json(node: &Json) -> (r: Result<String, FromJsonError>) {
        accept(coerce_string(Some(node)))
    }
}

/// The values of the successful outcomes, in order.
pub open spec fn kept<T>(outcomes: Seq<Result<T, Seq<char>>>) -> Seq<T>
    decreases outcomes.len(),
{
    if outcomes.len() == 0 {
        Seq::empty()
    } else {
        let rest = kept(outcomes.drop_last());
        match outcomes.last() {
            Ok(v) => rest.push(v),
            Err(_) => rest,
        }
    }
}

/// Whether every outcome is a success.
pub open spec fn all_ok<T>(outcomes: Seq<Result<T, Seq<char>>>) -> bool {
    forall|i: int| 0 <= i < outcomes.len() ==> (#[trigger] outcomes[i]) is Ok
}

/// Whether `outcomes` holds, position by position, a possible outcome of
/// converting each element of `items`.
pub open spec fn outcomes_of<T: TryFromJson>(items: Seq<Json>, outcomes: Seq<Result<T, Seq<char>>>) -> bool {
    outcomes.len() == items.len() && forall|i: int|
        0 <= i < items.len() ==> #[trigger] T::converts(items[i], outcomes[i])
}

/// Converts every element of `items`, keeping the values of those that
/// convert, in order, and telling whether all did.
pub fn convert_all<T: TryFromJson>(items: &Vec<Json>) -> (r: (Vec<T>, bool))
    ensures
        exists|outcomes: Seq<Result<T, Seq<char>>>|
            outcomes_of::<T>(items@, outcomes) && r.0@ == kept(outcomes) && r.1 == all_ok(outcomes),
{
    let mut collect: Vec<T> = Vec::new();
    let mut clean = true;
    let mut i: usize = 0;
    let ghost mut outcomes: Seq<Result<T, Seq<char>>> = Seq::empty();
    while i < items.len()
        invariant
            i <= items.len(),
            outcomes_of::<T>(items@.take(i as int), outcomes),
            collect@ == kept(outcomes),
            clean == all_ok(outcomes),
        decreases items.len() - i,
    {
        let ghost before = outcomes;
        let r = T::try_from_json(&items[i]);
        proof {
            outcomes = outcomes.push(outcome_of(r));
            assert(outcomes.drop_last() =~= before);
        }
        match r {
            Ok(v) => collect.push(v),
            Err(_) => clean = false,
        }
        assert(clean == all_ok(outcomes)) by {
            if clean {
                assert forall|k: int| 0 <= k < outcomes.len() implies (#[trigger] outcomes[k]) is Ok by {
                    if k < i {
                        assert(outcomes[k] == before[k]);
                    }
                }
            } else if all_ok(before) {
                assert(!(outcomes[i as int] is Ok));
            } else {
                let k = choose|k: int| 0 <= k < before.len() && !(#[trigger] before[k] is Ok);
                assert(outcomes[k] == before[k]);
            }
        }
        assert(outcomes_of::<T>(items@.take(i + 1), outcomes)) by {
            assert forall|k: int| 0 <= k < i + 1 implies #[trigger] T::converts(items@.take(i + 1)[k], outcomes[k]) by {
                if k < i {
                    assert(items@.take(i + 1)[k] == items@.take(i as int)[k]);
                    assert(outcomes[k] == before[k]);
                }
            }
        }
        i += 1;
    }
    assert(items@.take(items.len() as int) =~= items@);
    (collect, clean)
}

} // verus!
