use vstd::prelude::*;
use crate::coerce::{
    bool_rule, coerce_bool, coerce_int, coerce_string, coerce_uint, int_rule, string_rule, uint_rule,
};
use crate::convert::{all_ok, convert_all, kept, outcome_of, outcomes_of, TryFromJson};
use crate::document::{child, Json, Key};
use crate::maybe::{Maybe, MaybeView};

verus! {

/// The list that a sequence of element outcomes makes: the values that
/// converted, in order, strict when none failed.
pub open spec fn list_reading<T>(outcomes: Seq<Result<T, Seq<char>>>) -> MaybeView<Seq<T>> {
    if all_ok(outcomes) {
        MaybeView::Strict(kept(outcomes))
    } else {
        MaybeView::Relaxed(kept(outcomes))
    }
}

/// Whether `r` is a possible reading of `node` as a list of `T`: `Null`
/// for no node; for an array, the list its elements' outcomes make; for a
/// lone other node, a one-element list of its value, or its error.
pub open spec fn array_reading<T: TryFromJson>(node: Option<Json>, r: MaybeView<Seq<T>>) -> bool {
    match node {
        None => r is Null,
        Some(Json::Array(items)) => exists|outcomes: Seq<Result<T, Seq<char>>>|
            outcomes_of::<T>(items@, outcomes) && r == list_reading(outcomes),
        Some(n) => exists|o: Result<T, Seq<char>>|
            T::converts(n, o) && r == (match o {
                Ok(v) => MaybeView::Relaxed(seq![v]),
                Err(msg) => MaybeView::<Seq<T>>::Error(msg),
            }),
    }
}

/// Whether `r` is a possible reading of `node` as a `T`: `Null` for no
/// node, else the converted value strictly, or the conversion's error.
pub open spec fn object_reading<T: TryFromJson>(node: Option<Json>, r: Maybe<T>) -> bool {
    match node {
        None => r is Null,
        Some(n) => exists|o: Result<T, Seq<char>>|
            T::converts(n, o) && match o {
                Ok(v) => r == Maybe::Strict(v),
                Err(msg) => r is Error && r->Error_0@ == msg,
            },
    }
}

/// Typed reads of the children of a document node.
pub trait MaybeValue {
    /// The child that `key` selects.
    spec fn lookup(&self, key: Key) -> Option<Json>;

    /// The child that `key` selects, read as a boolean.
    fn maybe_bool(&self, key: Key) -> (r: Maybe<bool>)
        ensures
            r@ == bool_rule(self.lookup(key)),
    ;

    /// The child that `key` selects, read as a signed integer.
    fn maybe_int(&self, key: Key) -> (r: Maybe<i64>)
        ensures
            r@ == int_rule(self.lookup(key)),
    ;

    /// The child that `key` selects, read as an unsigned integer.
    fn maybe_uint(&self, key: Key) -> (r: Maybe<u64>)
        ensures
            r@ == uint_rule(self.lookup(key)),
    ;

    /// The child that `key` selects, read as a string.
    fn maybe_string(&self, key: Key) -> (r: Maybe<String>)
        ensures
            r@ == string_rule(self.lookup(key)),
    ;

    /// The child that `key` selects, read as a list of `T`.
    fn maybe_array<T: TryFromJson>(&self, key: Key) -> (r: Maybe<Vec<T>>)
        ensures
            array_reading::<T>(self.lookup(key), r@),
    ;

    /// The child that `key` selects, converted to a `T`.
    fn maybe_object<T: TryFromJson>(&self, key: Key) -> (r: Maybe<T>)
        ensures
            object_reading(self.lookup(key), r),
    ;
}

impl MaybeValue for Json {
    open spec fn lookup(&self, key: Key) -> Option<Json> {
        child(*self, key)
    }

    fn maybe_bool(&self, key: Key) -> (r: Maybe<bool>) {
        coerce_bool(self.get(&key))
    }

    fn maybe_int(&self, key: Key) -> (r: Maybe<i64>) {
        coerce_int(self.get(&key))
    }

    fn maybe_uint(&self, key: Key) -> (r: Maybe<u64>) {
        coerce_uint(self.get(&key))
    }

    fn maybe_string(&self, key: Key) -> (r: Maybe<String>) {
        coerce_string(self.get(&key))
    }

    fn maybe_array<T: TryFromJson>(&self, key: Key) -> (r: Maybe<Vec<T>>) {
        match self.get(&key) {
            Some(Json::Array(items)) => {
                let (values, clean) = convert_all::<T>(items);
                let ghost outcomes = choose|outcomes: Seq<Result<T, Seq<char>>>|
                    outcomes_of::<T>(items@, outcomes) && values@ == kept(outcomes) && clean == all_ok(outcomes);
                let r = if clean {
                    Maybe::Strict(values)
                } else {
                    Maybe::Relaxed(values)
                };
                assert(r@ == list_reading(outcomes));
                r
            },
            Some(node) => {
                let c = T::try_from_json(node);
                let ghost o = outcome_of(c);
                match c {
                    Ok(v) => {
                        let mut single: Vec<T> = Vec::new();
                        single.push(v);
                        assert(single@ =~= seq![v]);
                        let r = Maybe::Relaxed(single);
                        assert(T::converts(*node, o) && r@ == MaybeView::Relaxed(seq![v]));
                        r
                    },
                    Err(e) => Maybe::Error(e),
                }
            },
            None => Maybe::Null,
        }
    }

    fn maybe_object<T: TryFromJson>(&self, key: Key) -> (r: Maybe<T>) {
        match self.get(&key) {
            Some(node) => match T::try_from_json(node) {
                Ok(v) => Maybe::Strict(v),
                Err(e) => Maybe::Error(e),
            },
            None => Maybe::Null,
        }
    }
}

} // verus!
