//! The VPN settings as they stand in a file of their own.

use vstd::prelude::*;

verus! {

/// The VPN providers that can be named in the settings.
#[derive(Debug, Clone, Copy, PartialEq, Eq, Structural)]
pub enum VpnProvider {
    Wireguard,
    ProtonVPN,
    OpenVPN,
}

/// The settings of a WireGuard tunnel.
#[derive(Debug, Clone)]
pub struct WireGuardConfig {
    /// Path to the WireGuard configuration file.
    pub config_path: String,
    /// The interface's name; by default the configuration file's name
    /// without its extension.
    pub interface_name: Option<String>,
}

/// The VPN settings.
#[derive(Debug, Clone)]
pub struct VpnConfig {
    /// Whether the VPN is used.
    pub enabled: bool,
    /// The provider.
    pub provider: VpnProvider,
    /// The settings of the WireGuard tunnel, if any.
    pub wireguard: Option<WireGuardConfig>,
}

impl Default for VpnConfig {
    /// The VPN is off, and WireGuard is the provider.
    fn default() -> (r: Self)
        ensures
            !r.enabled,
            r.provider == VpnProvider::Wireguard,
            r.wireguard is None,
    {
        VpnConfig { enabled: false, provider: VpnProvider::Wireguard, wireguard: None }
    }
}

} // verus!
