//! The responder envelope: a wrapped responder together with its policy.

use crate::policy::CachePolicy;
use vstd::prelude::*;

verus! {

/// A responder wrapped together with the `Cache-Control` policy that its
/// response is sent with. The envelope is consumed when it is finalized.
#[derive(Debug)]
pub enum CacheResponsePro<R> {
    Public { responder: R, max_age: u32, must_revalidate: bool },
    Private { responder: R, max_age: u32 },
    NoCache(R),
    NoStore(R),
    NoCacheControl(R),
}

impl<R> CacheResponsePro<R> {
    /// The wrapped responder.
    pub open spec fn responder_of(self) -> R {
        match self {
            CacheResponsePro::Public { responder, .. } => responder,
            CacheResponsePro::Private { responder, .. } => responder,
            CacheResponsePro::NoCache(responder) => responder,
            CacheResponsePro::NoStore(responder) => responder,
            CacheResponsePro::NoCacheControl(responder) => responder,
        }
    }

    /// The policy that the envelope carries.
    pub open spec fn policy_of(self) -> CachePolicy {
        match self {
            CacheResponsePro::Public { max_age, must_revalidate, .. } => CachePolicy::Public {
                max_age,
                must_revalidate,
            },
            CacheResponsePro::Private { max_age, .. } => CachePolicy::Private { max_age },
            CacheResponsePro::NoCache(_) => CachePolicy::NoCache,
            CacheResponsePro::NoStore(_) => CachePolicy::NoStore,
            CacheResponsePro::NoCacheControl(_) => CachePolicy::NoCacheControl,
        }
    }

    /// Wraps `responder` with `policy`.
    pub fn with_policy(responder: R, policy: CachePolicy) -> (r: Self)
        ensures
            r.responder_of() == responder,
            r.policy_of() == policy,
    {
        match policy {
            CachePolicy::Public { max_age, must_revalidate } => CacheResponsePro::Public {
                responder,
                max_age,
                must_revalidate,
            },
            CachePolicy::Private { max_age } => CacheResponsePro::Private { responder, max_age },
            CachePolicy::NoCache => CacheResponsePro::NoCache(responder),
            CachePolicy::NoStore => CacheResponsePro::NoStore(responder),
            CachePolicy::NoCacheControl => CacheResponsePro::NoCacheControl(responder),
        }
    }

    /// Public caching for `max_age` seconds where `release` holds (a build
    /// without debug assertions); no `Cache-Control` header otherwise.
    pub fn public_only_release(responder: R, max_age: u32, must_revalidate: bool, release: bool) -> (r:
        Self)
        ensures
            r == (if release {
                CacheResponsePro::Public { responder, max_age, must_revalidate }
            } else {
                CacheResponsePro::NoCacheControl(responder)
            }),
    {
        let policy = CachePolicy::Public { max_age, must_revalidate }.only_release(release);
        Self::with_policy(responder, policy)
    }

    /// Private caching for `max_age` seconds where `release` holds (a build
    /// without debug assertions); no `Cache-Control` header otherwise.
    pub fn private_only_release(responder: R, max_age: u32, release: bool) -> (r: Self)
        ensures
            r == (if release {
                CacheResponsePro::Private { responder, max_age }
            } else {
                CacheResponsePro::NoCacheControl(responder)
            }),
    {
        let policy = CachePolicy::Private { max_age }.only_release(release);
        Self::with_policy(responder, policy)
    }

    /// The policy that the envelope carries.
    pub fn policy(&self) -> (r: CachePolicy)
        ensures
            r == self.policy_of(),
    {
        match self {
            CacheResponsePro::Public { max_age, must_revalidate, .. } => CachePolicy::Public {
                max_age: *max_age,
                must_revalidate: *must_revalidate,
            },
            CacheResponsePro::Private { max_age, .. } => CachePolicy::Private { max_age: *max_age },
            CacheResponsePro::NoCache(_) => CachePolicy::NoCache,
            CacheResponsePro::NoStore(_) => CachePolicy::NoStore,
            CacheResponsePro::NoCacheControl(_) => CachePolicy::NoCacheControl,
        }
    }

    /// Consumes the envelope, handing out the wrapped responder and the policy
    /// that its outcome is to be finalized with.
    pub fn into_parts(self) -> (r: (R, CachePolicy))
        ensures
            r.0 == self.responder_of(),
            r.1 == self.policy_of(),
    {
        let policy = self.policy();
        let responder = match self {
            CacheResponsePro::Public { responder, .. } => responder,
            CacheResponsePro::Private { responder, .. } => responder,
            CacheResponsePro::NoCache(responder) => responder,
            CacheResponsePro::NoStore(responder) => responder,
            CacheResponsePro::NoCacheControl(responder) => responder,
        };
        (responder, policy)
    }
}

/// The rendered value depends on an envelope's parameters alone: two
/// envelopes built with the same kind and parameters render the same value
/// (or both render none), whatever responders they wrap.
pub proof fn lemma_identical_envelopes_render_alike<R>(a: CacheResponsePro<R>, b: CacheResponsePro<R>)
    requires
        a.policy_of() == b.policy_of(),
    ensures
        a.policy_of().directive() == b.policy_of().directive(),
{
}

} // verus!
