//! Caching policies and the `Cache-Control` value each one renders.

use crate::decimal::{decimal, push_decimal};
use crate::headers::{header_key, header_map, set_raw_header, status_code};
use rocket::http::Status;
use rocket::Response;
use vstd::prelude::*;
use vstd::string::StringExecFns;

verus! {

/// What a response declares about its own cacheability.
#[derive(Debug, Clone, Copy, PartialEq, Eq, Structural)]
pub enum CachePolicy {
    /// Any cache may store the response for `max_age` seconds.
    Public { max_age: u32, must_revalidate: bool },
    /// Only the end client's cache may store the response for `max_age` seconds.
    Private { max_age: u32 },
    /// Caches must revalidate with the origin before each reuse.
    NoCache,
    /// The response must not be stored anywhere.
    NoStore,
    /// No `Cache-Control` header is written at all.
    NoCacheControl,
}

/// The key of the `Cache-Control` header in the model of a header map.
pub open spec fn cache_control_key() -> Seq<char> {
    header_key("Cache-Control"@)
}

impl CachePolicy {
    /// The `Cache-Control` value of this policy, or `None` where no header is
    /// written.
    pub open spec fn directive(self) -> Option<Seq<char>> {
        match self {
            CachePolicy::Public { max_age, must_revalidate } => Some(
                if must_revalidate {
                    "must-revalidate, public, max-age="@ + decimal(max_age as nat)
                } else {
                    "public, max-age="@ + decimal(max_age as nat)
                },
            ),
            CachePolicy::Private { max_age } => Some("private, max-age="@ + decimal(max_age as nat)),
            CachePolicy::NoCache => Some("no-cache"@),
            CachePolicy::NoStore => Some("no-store"@),
            CachePolicy::NoCacheControl => None,
        }
    }

    /// This policy where `release` holds, `NoCacheControl` otherwise: caching
    /// is declared for release builds only, and switched off while developing.
    pub fn only_release(self, release: bool) -> (r: CachePolicy)
        ensures
            r == (if release { self } else { CachePolicy::NoCacheControl }),
    {
        if release {
            self
        } else {
            CachePolicy::NoCacheControl
        }
    }

    /// Renders the `Cache-Control` value of this policy; `None` for
    /// `NoCacheControl`.
    pub fn header_value(&self) -> (r: Option<String>)
        ensures
            match r {
                Some(s) => self.directive() == Some(s@),
                None => self.directive() is None,
            },
    {
        match *self {
            CachePolicy::Public { max_age, must_revalidate } => {
                let mut s = if must_revalidate {
                    String::from_str("must-revalidate, public, max-age=")
                } else {
                    String::from_str("public, max-age=")
                };
                push_decimal(&mut s, max_age);
                Some(s)
            },
            CachePolicy::Private { max_age } => {
                let mut s = String::from_str("private, max-age=");
                push_decimal(&mut s, max_age);
                Some(s)
            },
            CachePolicy::NoCache => Some(String::from_str("no-cache")),
            CachePolicy::NoStore => Some(String::from_str("no-store")),
            CachePolicy::NoCacheControl => None,
        }
    }

    /// Completes the outcome of the wrapped responder: a failure is returned as
    /// it is; a response gets this policy's value as its only `Cache-Control`
    /// header, replacing any the responder set, unless the policy is
    /// `NoCacheControl`, which returns the response untouched.
    pub fn finalize<'o>(&self, outcome: Result<Response<'o>, Status>) -> (r: Result<
        Response<'o>,
        Status,
    >)
        ensures
            match outcome {
                Err(e) => r == Err::<Response<'o>, Status>(e),
                Ok(inner) => match self.directive() {
                    None => r == Ok::<Response<'o>, Status>(inner),
                    Some(v) => {
                        &&& r is Ok
                        &&& header_map(r->Ok_0) == header_map(inner).insert(
                            cache_control_key(),
                            seq![v],
                        )
                        &&& status_code(r->Ok_0) == status_code(inner)
                    },
                },
            },
    {
        match outcome {
            Err(e) => Err(e),
            Ok(mut resp) => {
                match self.header_value() {
                    Some(v) => {
                        set_raw_header(&mut resp, "Cache-Control", v);
                        Ok(resp)
                    },
                    None => Ok(resp),
                }
            },
        }
    }
}

} // verus!
