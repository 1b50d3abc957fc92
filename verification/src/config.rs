//! The configuration value that a caller hands to the supervisor.

use crate::text::{clone_opt_text, opt_text};
use vstd::prelude::*;
use vstd::string::StringExecFns;

verus! {

/// Everything needed to start an edge process.
#[derive(Debug, Clone)]
pub struct N2NConfig {
    /// The supernode's address, as `host:port`.
    pub supernode: String,
    /// The community to join.
    pub community: String,
    /// The name of this node; blank means the host name.
    pub username: String,
    /// The shared secret; empty means none.
    pub encryption_key: String,
    /// How the address is assigned: `dhcp`, or anything else for a static one.
    pub ip_mode: String,
    /// The static address, used unless `ip_mode` is `dhcp`.
    pub static_ip: Option<String>,
    /// Further arguments, separated by white space, passed on last.
    pub extra_args: Option<String>,
    /// The path of the edge executable.
    pub edge_path: Option<String>,
    /// The name of the virtual interface.
    pub tap_device: Option<String>,
    /// The MTU of the virtual interface.
    pub mtu: Option<u16>,
    /// The theme of the user interface: `light`, `dark` or `system`.
    pub theme: Option<String>,
}

/// What an `N2NConfig` holds, as plain values.
pub struct ConfigView {
    pub supernode: Seq<char>,
    pub community: Seq<char>,
    pub username: Seq<char>,
    pub encryption_key: Seq<char>,
    pub ip_mode: Seq<char>,
    pub static_ip: Option<Seq<char>>,
    pub extra_args: Option<Seq<char>>,
    pub edge_path: Option<Seq<char>>,
    pub tap_device: Option<Seq<char>>,
    pub mtu: Option<u16>,
    pub theme: Option<Seq<char>>,
}

impl View for N2NConfig {
    type V = ConfigView;

    open spec fn view(&self) -> ConfigView {
        ConfigView {
            supernode: self.supernode@,
            community: self.community@,
            username: self.username@,
            encryption_key: self.encryption_key@,
            ip_mode: self.ip_mode@,
            static_ip: opt_text(self.static_ip),
            extra_args: opt_text(self.extra_args),
            edge_path: opt_text(self.edge_path),
            tap_device: opt_text(self.tap_device),
            mtu: self.mtu,
            theme: opt_text(self.theme),
        }
    }
}

/// The configuration of a fresh installation: every text empty, the address
/// assigned by DHCP, an MTU of 1290 and the system's theme.
pub open spec fn default_config() -> ConfigView {
    ConfigView {
        supernode: Seq::empty(),
        community: Seq::empty(),
        username: Seq::empty(),
        encryption_key: Seq::empty(),
        ip_mode: "dhcp"@,
        static_ip: None,
        extra_args: None,
        edge_path: None,
        tap_device: None,
        mtu: Some(1290u16),
        theme: Some("system"@),
    }
}

impl Default for N2NConfig {
    fn default() -> (r: N2NConfig)
        ensures
            r@ == default_config(),
    {
        N2NConfig {
            supernode: String::new(),
            community: String::new(),
            username: String::new(),
            encryption_key: String::new(),
            ip_mode: String::from_str("dhcp"),
            static_ip: None,
            extra_args: None,
            edge_path: None,
            tap_device: None,
            mtu: Some(1290),
            theme: Some(String::from_str("system")),
        }
    }
}

impl N2NConfig {
    /// A copy that holds the same values.
    pub fn duplicate(&self) -> (r: N2NConfig)
        ensures
            r@ == self@,
    {
        N2NConfig {
            supernode: self.supernode.clone(),
            community: self.community.clone(),
            username: self.username.clone(),
            encryption_key: self.encryption_key.clone(),
            ip_mode: self.ip_mode.clone(),
            static_ip: clone_opt_text(&self.static_ip),
            extra_args: clone_opt_text(&self.extra_args),
            edge_path: clone_opt_text(&self.edge_path),
            tap_device: clone_opt_text(&self.tap_device),
            mtu: self.mtu,
            theme: clone_opt_text(&self.theme),
        }
    }
}

} // verus!
