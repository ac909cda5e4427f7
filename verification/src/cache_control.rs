//! The `Cache-Control` header of static assets.
//!
//! A resource wrapped in a [`Cache`] has every response that carries or
//! confirms content marked as publicly cacheable for a fixed time.

use vstd::prelude::*;
use vstd::string::StringExecFns;
use crate::assets::{
    Assets,
    FileResponse,
    FileResponseView,
    Index,
    STATUS_NOT_MODIFIED,
    STATUS_OK,
};
use crate::paths::joined;
use crate::text::{decimal, optional_text, to_decimal};
use crate::{ONE_DAY_IN_SECONDS, ONE_YEAR_IN_SECONDS};

verus! {

/// The header value that lets anyone cache a response for `max_age`
/// seconds.
pub open spec fn cache_control_value(max_age: nat) -> Seq<char> {
    "public, max-age="@ + decimal(max_age)
}

/// Whether responses of this status are marked as cacheable: those that
/// carry the content and those that confirm the client's copy.
pub open spec fn is_cacheable(status: u16) -> bool {
    status == STATUS_OK || status == STATUS_NOT_MODIFIED
}

/// `response` with `header` as its `Cache-Control`, if there is a header
/// to set and the status is one that is marked; otherwise `response` as
/// it is.
pub open spec fn with_cache_control<B>(
    response: FileResponseView<B>,
    header: Option<Seq<char>>,
) -> FileResponseView<B> {
    match header {
        Some(header) if is_cacheable(response.status) => FileResponseView {
            cache_control: Some(header),
            ..response
        },
        _ => response,
    }
}

/// A resource whose responses are to be marked as cacheable.
#[derive(Debug, Clone)]
pub struct Cache<R> {
    /// The resource.
    pub inner: R,
    /// The value of the `Cache-Control` header.
    pub cache: String,
}

impl<R> Cache<R> {
    /// The value of the `Cache-Control` header.
    pub open spec fn header(&self) -> Seq<char> {
        self.cache@
    }

    /// Wraps `inner` so that its responses may be cached for `time`
    /// seconds.
    pub fn new(time: u64, inner: R) -> (cache: Self)
        ensures
            cache.inner == inner,
            cache.header() == cache_control_value(time as nat),
    {
        let cache = String::from_str("public, max-age=").concat(to_decimal(time).as_str());
        Self { inner, cache }
    }

    /// Turns the wrapped resource into its serving form with
    /// `into_resource`, and keeps the header with it.
    pub fn into_resource<Q, C>(self, into_resource: C) -> (resource: CacheResource<Q>) where
        C: FnOnce(R) -> Q,

        requires
            call_requires(into_resource, (self.inner,)),
        ensures
            call_ensures(into_resource, (self.inner,), resource.inner),
            resource.header() == self.header(),
    {
        let Self { inner, cache } = self;
        let inner = into_resource(inner);
        CacheResource { inner, cache }
    }
}

impl Cache<Index> {
    /// The front page below `root`, with responses that may be cached for
    /// a day.
    pub fn index(root: String) -> (cache: Self)
        ensures
            cache.inner.0.base() == root@,
            cache.header() == cache_control_value(ONE_DAY_IN_SECONDS as nat),
    {
        Cache::new(ONE_DAY_IN_SECONDS, Index::new(root))
    }
}

impl Cache<Assets> {
    /// The assets below `root`, with responses that may be cached for a
    /// year.
    pub fn assets(root: String) -> (cache: Self)
        ensures
            cache.inner.0.base() == joined(root@, "assets"@),
            cache.header() == cache_control_value(ONE_YEAR_IN_SECONDS as nat),
    {
        Cache::new(ONE_YEAR_IN_SECONDS, Assets::new(root))
    }
}

/// A resource in its serving form, with the header for its responses.
#[derive(Debug, Clone)]
pub struct CacheResource<R> {
    /// The resource.
    pub inner: R,
    /// The value of the `Cache-Control` header.
    pub cache: String,
}

impl<R> CacheResource<R> {
    /// The value of the `Cache-Control` header.
    pub open spec fn header(&self) -> Seq<char> {
        self.cache@
    }

    /// Pairs the pending response `inner` of the wrapped resource with the
    /// header that it is to get.
    pub fn dispatch<F>(&self, inner: F) -> (future: CacheFuture<F>)
        ensures
            future.inner == inner,
            future.pending_header() == Some(self.header()),
    {
        let cache = self.cache.clone();
        CacheFuture { inner, cache: Some(cache) }
    }
}

/// What polling a pending value gave.
#[derive(Debug, Clone, Copy, PartialEq, Eq)]
pub enum Async<T> {
    /// The value.
    Ready(T),
    /// Nothing yet.
    NotReady,
}

/// A pending response and the header that it is to get.
#[derive(Debug)]
pub struct CacheFuture<F> {
    /// The pending response.
    pub inner: F,
    /// The header, until a response has got it.
    pub cache: Option<String>,
}

impl<F> CacheFuture<F> {
    /// The header that has not been handed to a response yet.
    pub open spec fn pending_header(&self) -> Option<Seq<char>> {
        optional_text(self.cache)
    }

    /// Passes on what polling the pending response gave.
    ///
    /// A failure and a response that is not ready are passed on as they
    /// are, and the header stays pending. A response that is ready uses the
    /// header up: the response gets it as `Cache-Control` if its status is
    /// one that is marked, and is passed on unchanged if not, or if the
    /// header had been used up before.
    pub fn poll<B, E>(&mut self, polled: Result<Async<FileResponse<B>>, E>) -> (result: Result<
        Async<FileResponse<B>>,
        E,
    >)
        ensures
            final(self).inner == old(self).inner,
            match polled {
                Ok(Async::Ready(response)) => {
                    &&& final(self).pending_header() is None
                    &&& result matches Ok(Async::Ready(sent))
                    &&& sent@ == with_cache_control(response@, old(self).pending_header())
                },
                _ => result == polled && final(self).pending_header() == old(
                    self,
                ).pending_header(),
            },
    {
        let mut resp = match polled {
            Ok(Async::Ready(response)) => response,
            Ok(Async::NotReady) => {
                return Ok(Async::NotReady);
            },
            Err(error) => {
                return Err(error);
            },
        };
        if let Some(cache) = self.cache.take() {
            let status = resp.status;
            if status == STATUS_OK || status == STATUS_NOT_MODIFIED {
                resp.cache_control = Some(cache);
            }
        }
        Ok(Async::Ready(resp))
    }
}

} // verus!
