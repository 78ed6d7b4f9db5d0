use aovpn_manager::config::VpnConfig;
use aovpn_manager::profile::device_profile_xml;
use aovpn_manager::profile::routes_section;
use aovpn_manager::profile::routing_policy_value;
use aovpn_manager::profile::user_profile_xml;

fn sample_config() -> VpnConfig {
    VpnConfig {
        company_prefix: "Acme".to_string(),
        vpn_server_address: "vpn.acme.example".to_string(),
        dns_suffix: "corp.acme.example".to_string(),
        dns_servers: "10.0.0.53,10.0.0.54".to_string(),
        trusted_network: "corp.acme.example".to_string(),
        root_ca_hash: "AABBCCDD".to_string(),
        eap_server_names: "nps.corp.acme.example".to_string(),
        device_routes: vec!["10.0.0.0/8".to_string()],
        user_routes: vec!["192.168.0.0/16".to_string()],
        enable_task_scheduler_trigger: false,
        user_tunnel_protocol: "IKEv2".to_string(),
        user_tunnel_always_on: true,
        force_tunneling: false,
        disable_class_based_route: false,
        disable_disconnect_button: false,
        sstp_disable_revocation: false,
    }
}

#[test]
fn malformed_routes_are_omitted_without_failing() {
    let routes = vec![
        "10.0.0.0/8".to_string(),
        "no-separator".to_string(),
        "1/2/3".to_string(),
        "".to_string(),
        "192.168.0.0/16".to_string(),
    ];
    let xml = routes_section(&routes);
    assert_eq!(xml.matches("<Route>").count(), 2);
    assert!(xml.contains("<Address>10.0.0.0</Address><PrefixSize>8</PrefixSize>"));
    assert!(xml.contains("<Address>192.168.0.0</Address><PrefixSize>16</PrefixSize>"));
    assert!(!xml.contains("no-separator"));
    assert!(!xml.contains("1/2/3"));
}

#[test]
fn empty_route_list_yields_empty_section() {
    assert_eq!(routes_section(&Vec::new()), "");
}

#[test]
fn route_entry_exact_form() {
    let xml = routes_section(&vec!["10.1.2.0/24".to_string()]);
    assert_eq!(
        xml,
        "  <Route>\n    <Address>10.1.2.0</Address><PrefixSize>24</PrefixSize>\n  </Route>\n"
    );
}

#[test]
fn routing_policy_is_binary() {
    assert_eq!(routing_policy_value(true), "ForceTunnel");
    assert_eq!(routing_policy_value(false), "SplitTunnel");
}

#[test]
fn device_profile_exact_document() {
    let config = sample_config();
    let xml = device_profile_xml(&config);
    let expected = format!(
        r#"
<VPNProfile>
  <DnsSuffix>{dns_suffix}</DnsSuffix>
  <NativeProfile>
    <Servers>{server}</Servers>
    <NativeProtocolType>IKEv2</NativeProtocolType>
    <Authentication>
      <MachineMethod>Certificate</MachineMethod>
    </Authentication>
    <RoutingPolicyType>SplitTunnel</RoutingPolicyType>
  </NativeProfile>
  <Route>
    <Address>10.0.0.0</Address><PrefixSize>8</PrefixSize>
  </Route>

  <DeviceTunnel>true</DeviceTunnel>
  <RegisterDNS>true</RegisterDNS>
  <AlwaysOn>true</AlwaysOn>
  <TrustedNetworkDetection>{trusted}</TrustedNetworkDetection>
  <DomainNameInformation>
    <DomainName>.{dns_suffix}</DomainName>
    <DnsServers>{dns_servers}</DnsServers>{space}
  </DomainNameInformation>
</VPNProfile>"#,
        dns_suffix = "corp.acme.example",
        server = "vpn.acme.example",
        trusted = "corp.acme.example",
        dns_servers = "10.0.0.53,10.0.0.54",
        space = " ",
    );
    assert_eq!(xml, expected);
}

#[test]
fn device_profile_force_tunneling() {
    let mut config = sample_config();
    config.force_tunneling = true;
    let xml = device_profile_xml(&config);
    assert!(xml.contains("<RoutingPolicyType>ForceTunnel</RoutingPolicyType>"));
    assert!(!xml.contains("SplitTunnel"));
}

#[test]
fn user_profile_embeds_escaped_authentication_settings() {
    let config = sample_config();
    let xml = user_profile_xml(&config);
    // The embedded settings carry markup escaping: entities, no raw tag.
    assert!(xml.contains("&lt;EapHostConfig"));
    assert!(!xml.contains("<EapHostConfig"));
    assert!(xml.contains("&lt;ServerNames&gt;nps.corp.acme.example&lt;/ServerNames&gt;"));
    assert!(xml.contains("&lt;TrustedRootCA&gt;AABBCCDD&lt;/TrustedRootCA&gt;"));
    assert!(xml.contains("<NativeProtocolType>IKEv2</NativeProtocolType>"));
    assert!(xml.contains("<AlwaysOn>true</AlwaysOn>"));
    assert!(xml.contains("<Address>192.168.0.0</Address><PrefixSize>16</PrefixSize>"));
}

#[test]
fn user_profile_optional_lockdown_elements() {
    let mut config = sample_config();
    let without = user_profile_xml(&config);
    assert!(!without.contains("<DisableDisconnectButton>"));
    assert!(!without.contains("<DisableClassBasedDefaultRoute>"));

    config.disable_disconnect_button = true;
    config.disable_class_based_route = true;
    let with = user_profile_xml(&config);
    assert!(with.contains("  <DisableDisconnectButton>true</DisableDisconnectButton>\n"));
    assert!(with.contains("  <DisableClassBasedDefaultRoute>true</DisableClassBasedDefaultRoute>\n"));
}

#[test]
fn user_profile_always_on_follows_configuration() {
    let mut config = sample_config();
    config.user_tunnel_always_on = false;
    let xml = user_profile_xml(&config);
    assert!(xml.contains("<AlwaysOn>false</AlwaysOn>"));
}

#[test]
fn tunnel_names_derive_from_the_prefix() {
    let config = sample_config();
    assert_eq!(config.device_tunnel_name(), "Acme Device Tunnel");
    assert_eq!(config.user_tunnel_name(), "Acme User Tunnel");
}
