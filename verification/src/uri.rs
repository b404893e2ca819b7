//! The URI scheme of the wallet service mirror.

use vstd::prelude::*;

verus! {

/// The mirror's URI scheme: its scheme names and default ports.
#[derive(Debug, Hash, Ord, PartialOrd, Eq, PartialEq, Clone)]
pub struct WalletServiceMirrorScheme {}

impl WalletServiceMirrorScheme {
    /// The part before the '://' of a URL that asks for TLS.
    pub const SCHEME_SECURE: &'static str = "mobilecoind-mirror";

    /// The part before the '://' of a URL without TLS.
    pub const SCHEME_INSECURE: &'static str = "insecure-mobilecoind-mirror";

    /// The port of a URL with TLS that names none.
    pub const DEFAULT_SECURE_PORT: u16 = 10443;

    /// The port of a URL without TLS that names none.
    pub const DEFAULT_INSECURE_PORT: u16 = 10080;
}

} // verus!
