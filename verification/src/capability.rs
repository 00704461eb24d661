//! Unforgeable proof-of-privilege tokens.
//!
//! A [`CapabilityToken`] is a zero-sized value whose possession is the only
//! way to invoke a privileged kernel operation, such as reserving a grant
//! region. Its field is private, so code outside this crate can obtain one
//! only through [`CapabilityToken::create_capability`]; that constructor is
//! reserved for the trusted code that assembles the kernel's privileged
//! object graph at boot, never for a driver.

use vstd::prelude::*;

verus! {

/// Proof of privilege: presenting a reference to one authorizes a
/// kernel-restricted operation. Privilege is checked once, structurally, at
/// the call that consumes the token, not on every later access.
pub struct CapabilityToken {
    _private: (),
}

impl CapabilityToken {
    /// Mints a token. To be called only from trusted board-assembly code:
    /// a driver that could call this could grant itself privilege.
    pub fn create_capability() -> (token: CapabilityToken) {
        CapabilityToken { _private: () }
    }
}

} // verus!
