use vstd::prelude::*;

verus! {

/// `r` is a value that the standard infallible conversion of `v` returns.
pub open spec fn converts_to<A: Into<B>, B>(v: A, r: B) -> bool {
    call_ensures(<A as Into<B>>::into, (v,), r)
}

/// `r` is a result that the standard fallible conversion of `v` returns: the
/// converted value, or the error that the conversion reports.
pub open spec fn try_converts_to<A: TryInto<B>, B>(v: A, r: Result<B, <A as TryInto<B>>::Error>) -> bool {
    call_ensures(<A as TryInto<B>>::try_into, (v,), r)
}

/// Conversions that name their target type at the call site.
///
/// Every type has these methods: `to::<T>()` is available wherever the value
/// converts into `T` without failing, `try_to::<T>()` wherever it converts with
/// a possible failure. Each returns exactly what the standard conversion does.
pub trait To: Sized {
    /// `Into::into`, with the target type given as a type argument.
    fn to<T>(self) -> (r: T)
        where Self: Into<T>,
        ensures
            converts_to(self, r),
    {
        self.into()
    }

    /// `TryInto::try_into`, with the target type given as a type argument.
    fn try_to<T>(self) -> (r: Result<T, <Self as TryInto<T>>::Error>)
        where Self: TryInto<T>,
        ensures
            try_converts_to(self, r),
    {
        self.try_into()
    }
}

impl<A> To for A {}

/// Relies on std's reflexive `impl<T> From<T> for T`, whose `from` returns its
/// argument unchanged.
pub assume_specification<V>[ <V as std::convert::From<V>>::from ](v: V) -> (r: V)
    ensures
        r == v,
;

/// Converting a value to its own type gives back an equal value, by either
/// method: `to` returns it, and `try_to` returns it in `Ok`.
pub proof fn lemma_to_own_type<A>(v: A, r: A, tr: Result<A, <A as TryInto<A>>::Error>)
    requires
        converts_to(v, r),
        try_converts_to(v, tr),
    ensures
        r == v,
        tr == Ok::<A, <A as TryInto<A>>::Error>(v),
{
}

} // verus!
