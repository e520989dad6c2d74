//! Connection negotiation: resolving the capability probe.
//!
//! The status probe itself is outside work; this module holds the one
//! decision the negotiator makes.  A successful probe is taken as it came;
//! a failed probe degrades to the configured fallback version with empty
//! mod metadata.  This path never fails.

use vstd::prelude::*;

verus! {

/// What a capability probe learned about the server.
#[derive(Debug)]
pub struct ProbeOutcome {
    /// The protocol version the server announced.
    pub protocol_version: i32,
    /// Mod identifiers of a modded server, empty otherwise.
    pub forge_mods: Vec<String>,
    /// The tunnel protocol marker of a modded server, if any.
    pub fml_network_version: Option<i64>,
}

/// Resolve a probe attempt: the probe's answer on success, the fallback
/// version with empty mod metadata on failure.
pub fn resolve_probe(probe: Option<ProbeOutcome>, fallback_version: i32) -> (r: ProbeOutcome)
    ensures
        probe matches Some(p) ==> r == p,
        probe is None ==> r.protocol_version == fallback_version
            && r.forge_mods@.len() == 0
            && r.fml_network_version is None,
{
    match probe {
        Some(p) => p,
        None => ProbeOutcome {
            protocol_version: fallback_version,
            forge_mods: Vec::new(),
            fml_network_version: None,
        },
    }
}

} // verus!
