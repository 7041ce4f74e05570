//! Immutable per-mesh configuration: channel, identity, secret, and an
//! optional target peer for a directed connection attempt.

use vstd::prelude::*;
use vstd::string::StringSliceAdditionalSpecFns;

use crate::Bssid;

verus! {

/// Hardware-imposed maximum length of the ssid, in bytes.
pub const MAX_SSID_LEN: usize = 32;

/// Hardware-imposed maximum length of the password, in bytes.
pub const MAX_PASSWORD_LEN: usize = 63;

/// Failure of `MeshConfig` construction.
#[derive(Clone, Copy, Debug, PartialEq, Eq, Structural)]
pub enum ConfigError {
    /// The ssid or the password exceeds its hardware length bound.
    IdentifierTooLong,
}

/// Immutable description of the shared channel, identity and secret of a
/// mesh, and optionally of a specific peer to target.
#[derive(Debug)]
pub struct MeshConfig {
    /// Radio channel shared by the mesh (regulatory range 1-14).
    pub channel: u8,
    /// UTF-8 identity of the mesh, at most `MAX_SSID_LEN` bytes.
    pub ssid: Vec<u8>,
    /// UTF-8 secret of the mesh, at most `MAX_PASSWORD_LEN` bytes.
    pub password: Vec<u8>,
    /// Physical address of the peer to connect to; `None` while scanning
    /// or broadcasting without a chosen peer.
    pub root: Option<Bssid>,
}

impl MeshConfig {
    /// The length bounds that every constructed configuration satisfies.
    pub open spec fn wf(&self) -> bool {
        self.ssid@.len() <= MAX_SSID_LEN && self.password@.len() <= MAX_PASSWORD_LEN
    }

    /// Validates the identifier lengths and builds the configuration with no
    /// target peer. Fails if and only if the ssid or the password exceeds its
    /// hardware length bound.
    pub fn new(channel: u8, ssid: &str, password: &str) -> (r: Result<MeshConfig, ConfigError>)
        ensures
            r is Ok <==> ssid.spec_bytes().len() <= MAX_SSID_LEN
                && password.spec_bytes().len() <= MAX_PASSWORD_LEN,
            r matches Ok(c) ==> {
                &&& c.channel == channel
                &&& c.ssid@ == ssid.spec_bytes()
                &&& c.password@ == password.spec_bytes()
                &&& c.root is None
                &&& c.wf()
            },
            r is Err ==> r == Err::<MeshConfig, ConfigError>(ConfigError::IdentifierTooLong),
    {
        let ssid_bytes = ssid.as_bytes();
        let password_bytes = password.as_bytes();
        if ssid_bytes.len() > MAX_SSID_LEN || password_bytes.len() > MAX_PASSWORD_LEN {
            Err(ConfigError::IdentifierTooLong)
        } else {
            Ok(MeshConfig {
                channel,
                ssid: vstd::slice::slice_to_vec(ssid_bytes),
                password: vstd::slice::slice_to_vec(password_bytes),
                root: None,
            })
        }
    }

    /// Copy of this configuration that targets the given peer. Pure: the
    /// receiver is left unchanged.
    pub fn with_target(&self, peer: Bssid) -> (c: MeshConfig)
        ensures
            c.channel == self.channel,
            c.ssid@ == self.ssid@,
            c.password@ == self.password@,
            c.root == Some(peer),
            self.wf() ==> c.wf(),
    {
        MeshConfig {
            channel: self.channel,
            ssid: vstd::slice::slice_to_vec(self.ssid.as_slice()),
            password: vstd::slice::slice_to_vec(self.password.as_slice()),
            root: Some(peer),
        }
    }
}

} // verus!
