//! What the caller may ask for on a dial.
//!
//! There is no token field, and there is none upstream either: the
//! connecting side forwards `Authorization` untouched and the serve edge is
//! the only thing that checks it, so a bearer token belongs to the HTTP
//! client the app points at the base URL.

use vstd::prelude::*;

verus! {

/// Options for a dial. `MpConnectOptions::default()` is the right answer
/// almost always, and is modelpipe's own default.
#[derive(Clone, Debug, PartialEq, Eq)]
pub struct MpConnectOptions {
    /// Bind this loopback port instead of letting the system pick a free
    /// one. A fixed port is for reproducing a bug.
    pub port: Option<u16>,
    /// Use this relay instead of the public ones.
    pub relay_url: Option<String>,
    /// Ask the router to map a port. On by default, as upstream.
    pub port_mapping: bool,
    /// Publish to, and resolve through, the discovery service. On by
    /// default.
    pub discovery: bool,
    /// Skip hole punching and go through a relay from the start. Off by
    /// default.
    pub relay_only: bool,
    /// The directory this device keeps its endpoint keys in, one file per
    /// far machine. `None` mints a fresh key per process and writes
    /// nothing. The directory has to be there already: nothing creates one.
    pub identity_dir: Option<String>,
}

impl Default for MpConnectOptions {
    /// No fixed port, no relay of one's own, port mapping and discovery on,
    /// relay-only off, and no key kept.
    fn default() -> (r: Self)
        ensures
            r.port is None,
            r.relay_url is None,
            r.port_mapping,
            r.discovery,
            !r.relay_only,
            r.identity_dir is None,
    {
        MpConnectOptions {
            port: None,
            relay_url: None,
            port_mapping: true,
            discovery: true,
            relay_only: false,
            identity_dir: None,
        }
    }
}

impl MpConnectOptions {
    /// The address a requested port binds: that port on 127.0.0.1, the
    /// loopback address, and nothing on any other interface; no port asked
    /// for is no bind at all, which lets the system pick a free one.
    pub fn loopback_bind(&self) -> (r: Option<((u8, u8, u8, u8), u16)>)
        ensures
            r == match self.port {
                Some(port) => Some(((127u8, 0u8, 0u8, 1u8), port)),
                None => None,
            },
    {
        match self.port {
            Some(port) => Some(((127, 0, 0, 1), port)),
            None => None,
        }
    }
}

} // verus!
