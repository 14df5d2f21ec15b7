//! The messaging server's settings: where it listens and the paths of its
//! routes.
use vstd::prelude::*;

verus! {

/// Where the messaging server listens, and its routes.
pub struct Settings {
    pub url: String,
    pub port: i16,
    pub routes: RoutesSettings,
    pub tls: bool,
}

/// The paths of the messaging server's routes.
pub struct RoutesSettings {
    pub health: String,
    pub provision_request: String,
    pub manifestation_request: String,
}

} // verus!
