//! An error-mapping decorator: wraps a fetcher and applies a caller-given
//! total function to every error before it leaves the wrapper, leaving
//! success values untouched. It unifies heterogeneous backend error types
//! behind one error type at a composition boundary.

use vstd::prelude::*;

use super::super::parsed_url::Url;
use super::BlockingUrlFetcher;

verus! {

/// An error-rewriting function that accepts every value of its source
/// error type.
#[verifier::reject_recursive_types(Src)]
#[verifier::reject_recursive_types(E)]
pub struct TotalMapper<Src, M, E> where M: Fn(Src) -> E {
    mapper: M,
    _phantom: core::marker::PhantomData<(Src, E)>,
}

/// Whether `e` is a value the mapper can return for some source error.
pub open spec fn maps_some_error<Src, M: Fn(Src) -> E, E>(mapper: M, e: E) -> bool {
    exists|e0: Src| call_ensures(mapper, (e0,), e)
}

impl<Src, M, E> TotalMapper<Src, M, E> where M: Fn(Src) -> E {
    /// The wrapped function.
    pub closed spec fn spec_mapper(self) -> M {
        self.mapper
    }

    /// The function accepts every source error.
    #[verifier::type_invariant]
    pub closed spec fn is_total(self) -> bool {
        forall|e: Src| #[trigger] call_requires(self.mapper, (e,))
    }
}

/// A fetcher that forwards both operations to `inner` and rewrites every
/// error through `mapper`.
#[verifier::reject_recursive_types(E)]
pub struct MapErrUrlFetcher<F, M, E> where F: BlockingUrlFetcher, M: Fn(F::Error) -> E {
    inner: F,
    mapper: TotalMapper<F::Error, M, E>,
}

impl<F, M, E> MapErrUrlFetcher<F, M, E> where F: BlockingUrlFetcher, M: Fn(F::Error) -> E {
    /// The wrapped fetcher.
    pub closed spec fn spec_inner(self) -> F {
        self.inner
    }

    /// The error-rewriting function.
    pub closed spec fn spec_mapper(self) -> M {
        self.mapper.spec_mapper()
    }
}

impl<F, M, E> BlockingUrlFetcher for MapErrUrlFetcher<F, M, E> where
    F: BlockingUrlFetcher,
    M: Fn(F::Error) -> E,
 {
    type Error = E;

    /// Every error this wrapper returns is the mapper's image of some
    /// inner error; the mapper itself is never changed.
    fn fetch_redirect_url_blocking(&mut self, url: &Url) -> (r: Result<Option<Url>, E>)
        ensures
            final(self).spec_mapper() == old(self).spec_mapper(),
            r matches Err(e) ==> maps_some_error::<F::Error, M, E>(old(self).spec_mapper(), e),
    {
        let r: Result<Option<Url>, E> = match self.inner.fetch_redirect_url_blocking(url) {
            Ok(v) => Ok(v),
            Err(e0) => {
                proof {
                    use_type_invariant(&self.mapper);
                }
                let mapped = (self.mapper.mapper)(e0);
                proof {
                    assert(call_ensures(old(self).spec_mapper(), (e0,), mapped));
                    assert(maps_some_error::<F::Error, M, E>(old(self).spec_mapper(), mapped));
                }
                Err(mapped)
            },
        };
        r
    }

    /// The body-fetch twin: success passes through, errors are rewritten.
    fn fetch_result_blocking(&mut self, url: &Url) -> (r: Result<String, E>)
        ensures
            final(self).spec_mapper() == old(self).spec_mapper(),
            r matches Err(e) ==> maps_some_error::<F::Error, M, E>(old(self).spec_mapper(), e),
    {
        let r: Result<String, E> = match self.inner.fetch_result_blocking(url) {
            Ok(v) => Ok(v),
            Err(e0) => {
                proof {
                    use_type_invariant(&self.mapper);
                }
                let mapped = (self.mapper.mapper)(e0);
                proof {
                    assert(call_ensures(old(self).spec_mapper(), (e0,), mapped));
                    assert(maps_some_error::<F::Error, M, E>(old(self).spec_mapper(), mapped));
                }
                Err(mapped)
            },
        };
        r
    }
}

/// An extension method that wraps a blocking fetcher in an error mapper.
pub trait BlockingUrlFetcherErrExt: BlockingUrlFetcher + Sized {
    /// Wraps `self` so that every error is rewritten through `mapper`,
    /// which must accept every error `self` can produce.
    fn map_err_blocking<E, M: Fn(Self::Error) -> E>(self, mapper: M) -> (r: MapErrUrlFetcher<
        Self,
        M,
        E,
    >)
        requires
            forall|e: Self::Error| #[trigger] call_requires(mapper, (e,)),
        ensures
            r.spec_inner() == self,
            r.spec_mapper() == mapper,
    ;
}

impl<F: BlockingUrlFetcher> BlockingUrlFetcherErrExt for F {
    fn map_err_blocking<E, M: Fn(Self::Error) -> E>(self, mapper: M) -> (r: MapErrUrlFetcher<
        Self,
        M,
        E,
    >) {
        MapErrUrlFetcher {
            inner: self,
            mapper: TotalMapper { mapper, _phantom: core::marker::PhantomData },
        }
    }
}

} // verus!
