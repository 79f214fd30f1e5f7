//! A value that is still loading, has arrived, or has failed.

use vstd::prelude::*;

verus! {

/// The three states of a value that is fetched asynchronously.
#[derive(Clone, PartialEq, Eq, Debug)]
pub enum Loadable<R, E> {
    Loading,
    Ready(R),
    Error(E),
}

impl<R, E> Default for Loadable<R, E> {
    fn default() -> (r: Self)
        ensures
            r is Loading,
    {
        Loadable::Loading
    }
}

impl<R, E> Loadable<R, E> {
    /// Applies `f` to the ready value and leaves the other two states as they are.
    #[inline]
    pub fn map<U, F>(self, f: F) -> (r: Loadable<U, E>) where F: FnOnce(R) -> U
        requires
            self is Ready ==> f.requires((self->Ready_0,)),
        ensures
            self is Loading ==> r is Loading,
            self is Ready ==> r is Ready && f.ensures((self->Ready_0,), r->Ready_0),
            self is Error ==> r is Error && r->Error_0 == self->Error_0,
    {
        match self {
            Loadable::Loading => Loadable::Loading,
            Loadable::Ready(ready) => Loadable::Ready(f(ready)),
            Loadable::Error(err) => Loadable::Error(err),
        }
    }

    #[inline]
    pub fn is_ready(&self) -> (b: bool)
        ensures
            b == (self is Ready),
    {
        matches!(self, Loadable::Ready(_))
    }

    #[inline]
    pub fn is_err(&self) -> (b: bool)
        ensures
            b == (self is Error),
    {
        matches!(self, Loadable::Error(_))
    }

    #[inline]
    pub fn is_loading(&self) -> (b: bool)
        ensures
            b == (self is Loading),
    {
        matches!(self, Loadable::Loading)
    }

    /// The same state, holding references into `self`.
    #[inline]
    pub fn as_ref(&self) -> (r: Loadable<&R, &E>)
        ensures
            self is Loading ==> r is Loading,
            self is Ready ==> r is Ready && *r->Ready_0 == self->Ready_0,
            self is Error ==> r is Error && *r->Error_0 == self->Error_0,
    {
        match self {
            Loadable::Error(e) => Loadable::Error(e),
            Loadable::Ready(r) => Loadable::Ready(r),
            Loadable::Loading => Loadable::Loading,
        }
    }

    /// The ready value, if there is one.
    #[inline]
    pub fn ready(&self) -> (r: Option<&R>)
        ensures
            r is Some == (self is Ready),
            self is Ready ==> *r->Some_0 == self->Ready_0,
    {
        match self {
            Loadable::Ready(r) => Some(r),
            _ => None,
        }
    }

    /// The error, if there is one.
    #[inline]
    pub fn err(&self) -> (r: Option<&E>)
        ensures
            r is Some == (self is Error),
            self is Error ==> *r->Some_0 == self->Error_0,
    {
        match self {
            Loadable::Error(e) => Some(e),
            _ => None,
        }
    }

    /// Unwraps the ready value. The caller shows that the value is ready;
    /// `msg` documents why at the call site.
    #[inline]
    pub fn expect(self, msg: &str) -> (r: R)
        requires
            self is Ready,
        ensures
            r == self->Ready_0,
    {
        match self {
            Loadable::Ready(r) => r,
            _ => unreached(),
        }
    }

    /// Unwraps the error. The caller shows that the state is an error.
    #[inline]
    pub fn expect_err(self, msg: &str) -> (e: E)
        requires
            self is Error,
        ensures
            e == self->Error_0,
    {
        match self {
            Loadable::Error(e) => e,
            _ => unreached(),
        }
    }

    /// Checks statically that the state is `Loading`.
    #[inline]
    pub fn expect_loading(self, msg: &str)
        requires
            self is Loading,
    {
    }

    /// Like [`Loadable::map`], under the name that says which state is mapped.
    #[inline]
    pub fn map_ready<F, U>(self, f: F) -> (r: Loadable<U, E>) where F: FnOnce(R) -> U
        requires
            self is Ready ==> f.requires((self->Ready_0,)),
        ensures
            self is Loading ==> r is Loading,
            self is Ready ==> r is Ready && f.ensures((self->Ready_0,), r->Ready_0),
            self is Error ==> r is Error && r->Error_0 == self->Error_0,
    {
        match self {
            Loadable::Error(e) => Loadable::Error(e),
            Loadable::Ready(r) => Loadable::Ready(f(r)),
            Loadable::Loading => Loadable::Loading,
        }
    }
}

impl<R, E> From<Result<R, E>> for Loadable<R, E> {
    fn from(result: Result<R, E>) -> (r: Self) {
        match result {
            Ok(x) => Loadable::Ready(x),
            Err(err) => Loadable::Error(err),
        }
    }
}

impl<R, E> vstd::std_specs::convert::FromSpecImpl<Result<R, E>> for Loadable<R, E> {
    open spec fn obeys_from_spec() -> bool {
        true
    }

    open spec fn from_spec(result: Result<R, E>) -> Self {
        match result {
            Ok(x) => Loadable::Ready(x),
            Err(err) => Loadable::Error(err),
        }
    }
}

} // verus!
