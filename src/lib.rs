//! A `Cache-Control` decorator for responses of the Rocket framework.
//!
//! A handler wraps the value it responds with in a [`CacheResponsePro`],
//! choosing a caching policy at the same time. When the response is
//! finalized, the wrapped value produces its outcome and, on success, the
//! policy's directive is written as the single `Cache-Control` header.

pub mod cache_response;
pub mod decimal;
pub mod headers;
pub mod policy;

pub use cache_response::CacheResponsePro;
pub use policy::CachePolicy;
