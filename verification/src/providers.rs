//! The side-effect capability handles: object storage, cache and
//! outbound email.
//!
//! These are pass-through integrations with no domain logic: the calls
//! that actually touch the network are transport work and live with the
//! application shell, which holds these handles.

use vstd::prelude::*;

verus! {

/// The outbound-email capability.
#[derive(Clone)]
pub struct EmailProvider;

impl EmailProvider {
    pub fn new() -> Self {
        EmailProvider
    }
}

/// The object-storage capability.
#[derive(Clone)]
pub struct S3Provider;

impl S3Provider {
    pub fn new() -> Self {
        S3Provider
    }
}

/// The cache capability.
#[derive(Clone)]
pub struct RedisProvider;

impl RedisProvider {
    pub fn new() -> Self {
        RedisProvider
    }
}

} // verus!
