//! The configuration of the organizer.

use vstd::prelude::*;

verus! {

/// The VPN providers that can be named in the configuration.
#[derive(Debug, Clone, Copy, PartialEq, Eq, Structural)]
pub enum VpnProvider {
    Wireguard,
    ProtonVPN,
    OpenVPN,
}

/// The settings of a WireGuard tunnel.
#[derive(Debug, Clone)]
pub struct WireGuardConfig {
    /// Path to the WireGuard configuration file.
    pub config_path: String,
    /// The interface's name; by default the configuration file's name
    /// without its extension.
    pub interface_name: Option<String>,
}

/// The VPN settings.
#[derive(Debug, Clone)]
pub struct VpnConfig {
    /// Whether the VPN is used.
    pub enabled: bool,
    /// The provider.
    pub provider: VpnProvider,
    /// The settings of the WireGuard tunnel, if any.
    pub wireguard: Option<WireGuardConfig>,
}

impl Default for VpnConfig {
    /// The VPN is off, and WireGuard is the provider.
    fn default() -> (r: Self)
        ensures
            !r.enabled,
            r.provider == VpnProvider::Wireguard,
            r.wireguard is None,
    {
        VpnConfig { enabled: false, provider: VpnProvider::Wireguard, wireguard: None }
    }
}

/// How tags with several values are written.
#[derive(Debug, Clone)]
pub struct TaggerConfig {
    /// Join the values with a null byte instead of the custom
    /// separator.
    pub use_null_separator: bool,
    /// The separator used where `use_null_separator` is off.
    pub custom_separator: String,
}

/// The null separator is off by default.
pub fn default_use_null_separator() -> (r: bool)
    ensures
        !r,
{
    false
}

/// The default separator: a semicolon and a space.
pub fn default_custom_separator() -> (r: String)
    ensures
        r@ == "; "@,
{
    String::from_str("; ")
}

impl Default for TaggerConfig {
    fn default() -> (r: Self)
        ensures
            !r.use_null_separator,
            r.custom_separator@ == "; "@,
    {
        TaggerConfig {
            use_null_separator: default_use_null_separator(),
            custom_separator: default_custom_separator(),
        }
    }
}

impl TaggerConfig {
    /// The separator that joins the values of a tag.
    pub open spec fn separator(self) -> Seq<char> {
        if self.use_null_separator {
            "\0"@
        } else {
            self.custom_separator@
        }
    }

    /// Gets the separator to use for joining tags: the null byte where
    /// it is switched on, else the custom separator.
    pub fn get_separator(&self) -> (r: String)
        ensures
            r@ == self.separator(),
    {
        if self.use_null_separator {
            String::from_str("\0")
        } else {
            self.custom_separator.clone()
        }
    }
}

/// The whole configuration.
#[derive(Debug, Clone)]
pub struct Config {
    /// The VPN settings.
    pub vpn: VpnConfig,
    /// The tagger settings.
    pub tagger: TaggerConfig,
}

impl Default for Config {
    fn default() -> (r: Self)
        ensures
            !r.vpn.enabled,
            r.vpn.provider == VpnProvider::Wireguard,
            r.vpn.wireguard is None,
            !r.tagger.use_null_separator,
            r.tagger.custom_separator@ == "; "@,
    {
        Config { vpn: VpnConfig::default(), tagger: TaggerConfig::default() }
    }
}

} // verus!
