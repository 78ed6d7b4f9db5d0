//! The operator-supplied VPN configuration and the names derived from it.
use vstd::prelude::*;

verus! {

/// Operator-supplied settings; every profile operation is a function of this
/// structure.
pub struct VpnConfig {
    pub company_prefix: String,
    pub vpn_server_address: String,
    pub dns_suffix: String,
    pub dns_servers: String,
    pub trusted_network: String,
    pub root_ca_hash: String,
    pub eap_server_names: String,
    pub device_routes: Vec<String>,
    pub user_routes: Vec<String>,
    pub enable_task_scheduler_trigger: bool,
    pub user_tunnel_protocol: String,
    pub user_tunnel_always_on: bool,
    pub force_tunneling: bool,
    pub disable_class_based_route: bool,
    pub disable_disconnect_button: bool,
    pub sstp_disable_revocation: bool,
}

/// The device-tunnel profile name for a company prefix.
pub open spec fn device_tunnel_name_spec(prefix: Seq<char>) -> Seq<char> {
    prefix + " Device Tunnel"@
}

/// The user-tunnel profile name for a company prefix.
pub open spec fn user_tunnel_name_spec(prefix: Seq<char>) -> Seq<char> {
    prefix + " User Tunnel"@
}

impl VpnConfig {
    /// The name under which the device tunnel is installed and dialled.
    pub fn device_tunnel_name(&self) -> (r: String)
        ensures
            r@ == device_tunnel_name_spec(self.company_prefix@),
    {
        let mut r = self.company_prefix.clone();
        r.append(" Device Tunnel");
        r
    }

    /// The name under which the user tunnel is installed and dialled.
    pub fn user_tunnel_name(&self) -> (r: String)
        ensures
            r@ == user_tunnel_name_spec(self.company_prefix@),
    {
        let mut r = self.company_prefix.clone();
        r.append(" User Tunnel");
        r
    }
}

} // verus!
