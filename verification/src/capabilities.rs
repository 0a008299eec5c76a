//! What the system page reports about remote access: the same facts the
//! passkey page uses, in the reply's own type.

use vstd::prelude::*;
pub use crate::passkey::{Capabilities, detect_capabilities, PASSKEYS_FILE};

verus! {

/// The reply describing remote-access capabilities.
#[derive(Clone, Debug)]
pub struct CapabilitiesResponse {
    pub tailscale_installed: bool,
    pub tailscale_connected: bool,
    pub tailscale_funnel_active: bool,
    pub funnel_url: Option<String>,
    pub passkey_configured: bool,
    pub passkey_reason: Option<String>,
}

} // verus!
