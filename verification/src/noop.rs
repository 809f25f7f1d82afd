//! The default transport: it discards every batch and reports no
//! authentication, so that disabling logging needs no configuration and can
//! never surface a transport error.
use crate::AuthenticationMethod;
use crate::FenrirError;
use crate::Streams;
use vstd::prelude::*;

verus! {

/// A backend that ignores all logging messages.
#[derive(Debug)]
pub struct NopBackend;

impl NopBackend {
    /// Accept and discard a batch: always succeeds, performs no I/O.
    pub fn send(&self, _streams: &Streams) -> (r: Result<(), FenrirError>)
        ensures
            r is Ok,
    {
        Ok(())
    }

    /// Always reports `Anonymous`, whatever authentication was requested at
    /// configuration time.
    pub fn authentication_method(&self) -> (r: AuthenticationMethod)
        ensures
            r == AuthenticationMethod::Anonymous,
    {
        AuthenticationMethod::Anonymous
    }

    /// Always reports an absent credential.
    pub fn credentials(&self) -> (r: Option<String>)
        ensures
            r is None,
    {
        None
    }
}

} // verus!
