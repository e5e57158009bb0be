use vstd::prelude::*;
use crate::error::FromJsonError;

verus! {

/// Relies on std's reflexive `impl<T> From<T> for T`, which returns its
/// argument unchanged, so that a fallback of type `T` is taken as it is.
pub assume_specification<A>[ <A as std::convert::From<A>>::from ](a: A) -> (r: A)
    ensures
        r == a,
;

/// The result of getting a typed value out of a JSON array or object.
pub enum Maybe<T> {
    /// The value does not exist or is explicitly null.
    Null,
    /// The value is stored exactly as a `T`.
    Strict(T),
    /// The value was stored as another type and could be read as a `T`,
    /// e.g. `1` for `true` or `"23"` for `23`.
    Relaxed(T),
    /// The value could not be read (a parse error, an array for a bool, ...).
    Error(FromJsonError),
}

/// The mathematical model of a [`Maybe`]: the payload's view, or the
/// message of the error.
pub enum MaybeView<V> {
    Null,
    Strict(V),
    Relaxed(V),
    Error(Seq<char>),
}

impl<T: View> View for Maybe<T> {
    type V = MaybeView<T::V>;

    open spec fn view(&self) -> MaybeView<T::V> {
        match self {
            Maybe::Null => MaybeView::Null,
            Maybe::Strict(v) => MaybeView::Strict(v@),
            Maybe::Relaxed(v) => MaybeView::Relaxed(v@),
            Maybe::Error(e) => MaybeView::Error(e@),
        }
    }
}

impl<T> Maybe<T> {
    /// The value, if it was stored exactly as a `T`.
    pub fn strict(self) -> (r: Option<T>)
        ensures
            r == (match self {
                Maybe::Strict(v) => Some(v),
                _ => None::<T>,
            }),
    {
        match self {
            Maybe::Strict(v) => Some(v),
            _ => None,
        }
    }

    /// The value if it was stored exactly as a `T`, else an error: the
    /// stored one, or "no strict value" when there was none.
    pub fn strict_ok(self) -> (r: Result<T, FromJsonError>)
        ensures
            self is Strict ==> r == Ok::<T, FromJsonError>(self->Strict_0),
            self is Error ==> r == Err::<T, FromJsonError>(self->Error_0),
            (self is Null || self is Relaxed) ==> r is Err && r->Err_0@ == "no strict value"@,
    {
        match self {
            Maybe::Strict(v) => Ok(v),
            Maybe::Error(e) => Err(e),
            _ => Err(FromJsonError::with_message("no strict value")),
        }
    }

    /// The value, strict or relaxed; `T`'s default where there is none.
    pub fn relaxed(self) -> (r: T)
        where
            T: Default,
        ensures
            self is Strict ==> r == self->Strict_0,
            self is Relaxed ==> r == self->Relaxed_0,
            (self is Null || self is Error) ==> call_ensures(T::default, (), r),
    {
        match self {
            Maybe::Null => T::default(),
            Maybe::Error(_) => T::default(),
            Maybe::Strict(v) => v,
            Maybe::Relaxed(v) => v,
        }
    }

    /// The value, strict or relaxed; `dflt` where there is none.
    pub fn default(self, dflt: impl Into<T>) -> (r: T)
        ensures
            self is Strict ==> r == self->Strict_0,
            self is Relaxed ==> r == self->Relaxed_0,
            (self is Null || self is Error) ==> call_ensures(<_ as Into<T>>::into, (dflt,), r),
    {
        match self {
            Maybe::Null => dflt.into(),
            Maybe::Error(_) => dflt.into(),
            Maybe::Strict(v) => v,
            Maybe::Relaxed(v) => v,
        }
    }

    /// The value if it was stored exactly as a `T`, `dflt` if there was
    /// none, and nothing if it was coerced or unreadable.
    pub fn default_for_null(self, dflt: impl Into<T>) -> (r: Option<T>)
        ensures
            self is Strict ==> r == Some(self->Strict_0),
            self is Null ==> r is Some && call_ensures(<_ as Into<T>>::into, (dflt,), r->Some_0),
            (self is Relaxed || self is Error) ==> r is None,
    {
        match self {
            Maybe::Strict(v) => Some(v),
            Maybe::Null => Some(dflt.into()),
            _ => None,
        }
    }
}

} // verus!
