//! VPN profile synthesis: the route list, the routing policy, and the two
//! profile documents (device tunnel and user tunnel), each a template over
//! the configuration's fields.
use crate::config::VpnConfig;
use crate::taskdoc::bool_str;
use crate::xml::xml_escape_markup;
use crate::xml::escape_markup;
use vstd::prelude::*;

verus! {

/// How many `/` separators a route entry holds.
pub open spec fn count_slashes(s: Seq<char>) -> int
    decreases s.len(),
{
    if s.len() == 0 {
        0
    } else {
        (if s[0] == '/' {
            1int
        } else {
            0int
        }) + count_slashes(s.drop_first())
    }
}

/// The position of the first `/` in `s` (meaningful only when one exists).
pub open spec fn first_slash(s: Seq<char>) -> int
    decreases s.len(),
{
    if s.len() == 0 {
        0
    } else if s[0] == '/' {
        0
    } else {
        1 + first_slash(s.drop_first())
    }
}

/// A route entry is well-formed exactly when it holds one `/` separating the
/// address from the prefix size.
pub open spec fn valid_route(s: Seq<char>) -> bool {
    count_slashes(s) == 1
}

/// The routes element emitted for one well-formed address/prefix pair.
pub open spec fn route_entry_xml(addr: Seq<char>, prefix: Seq<char>) -> Seq<char> {
    "  <Route>\n    <Address>"@ + addr + "</Address><PrefixSize>"@ + prefix
        + "</PrefixSize>\n  </Route>\n"@
}

/// What one route entry contributes: its element when well-formed, nothing
/// when not.  A malformed entry is dropped silently, never an error.
pub open spec fn route_xml(s: Seq<char>) -> Seq<char> {
    if valid_route(s) {
        route_entry_xml(s.take(first_slash(s)), s.skip(first_slash(s) + 1))
    } else {
        Seq::empty()
    }
}

/// The whole routes section: the contributions of the entries in order.
pub open spec fn routes_xml(routes: Seq<Seq<char>>) -> Seq<char>
    decreases routes.len(),
{
    if routes.len() == 0 {
        Seq::empty()
    } else {
        route_xml(routes[0]) + routes_xml(routes.drop_first())
    }
}

/// Slash counting commutes with appending one character.
pub proof fn lemma_count_slashes_push(s: Seq<char>, c: char)
    ensures
        count_slashes(s.push(c)) == count_slashes(s) + (if c == '/' {
            1int
        } else {
            0int
        }),
    decreases s.len(),
{
    let p = s.push(c);
    assert(p.len() == s.len() + 1);
    if s.len() == 0 {
        assert(p[0] == c);
        assert(p.drop_first() =~= Seq::<char>::empty());
        assert(count_slashes(p.drop_first()) == 0);
    } else {
        assert(p[0] == s[0]);
        assert(p.drop_first() =~= s.drop_first().push(c));
        lemma_count_slashes_push(s.drop_first(), c);
    }
}

/// A string with no `/` at all has none at any position.
pub proof fn lemma_no_slash(s: Seq<char>)
    requires
        count_slashes(s) == 0,
    ensures
        forall|i: int| 0 <= i < s.len() ==> s[i] != '/',
    decreases s.len(),
{
    if s.len() == 0 {
    } else {
        lemma_count_slashes_nonneg(s.drop_first());
        assert(s[0] != '/');
        lemma_no_slash(s.drop_first());
        assert(forall|i: int| 1 <= i < s.len() ==> s[i] == s.drop_first()[i - 1]);
    }
}

/// Slash counting never goes negative.
pub proof fn lemma_count_slashes_nonneg(s: Seq<char>)
    ensures
        count_slashes(s) >= 0,
    decreases s.len(),
{
    if s.len() == 0 {
    } else {
        lemma_count_slashes_nonneg(s.drop_first());
    }
}

/// The first index holding a `/`, with none before it, is what
/// [`first_slash`] computes.
pub proof fn lemma_first_slash_at(s: Seq<char>, k: int)
    requires
        0 <= k < s.len(),
        s[k] == '/',
        forall|i: int| 0 <= i < k ==> s[i] != '/',
    ensures
        first_slash(s) == k,
    decreases k,
{
    if k == 0 {
    } else {
        assert(s[0] != '/');
        let t = s.drop_first();
        assert(t[k - 1] == s[k]);
        assert(forall|i: int| 0 <= i < k - 1 ==> t[i] == s[i + 1]);
        lemma_first_slash_at(t, k - 1);
    }
}

/// The routes section grows one contribution per appended entry.
pub proof fn lemma_routes_xml_push(routes: Seq<Seq<char>>, r: Seq<char>)
    ensures
        routes_xml(routes.push(r)) == routes_xml(routes) + route_xml(r),
    decreases routes.len(),
{
    let p = routes.push(r);
    assert(p.len() == routes.len() + 1);
    if routes.len() == 0 {
        assert(p[0] == r);
        assert(p.drop_first() =~= Seq::<Seq<char>>::empty());
        assert(routes_xml(p) == route_xml(r) + routes_xml(Seq::<Seq<char>>::empty()));
        assert(routes_xml(p) =~= route_xml(r));
        assert(routes_xml(routes) + route_xml(r) =~= route_xml(r));
    } else {
        assert(p[0] == routes[0]);
        assert(p.drop_first() =~= routes.drop_first().push(r));
        lemma_routes_xml_push(routes.drop_first(), r);
        assert(routes_xml(p) == route_xml(routes[0]) + (routes_xml(routes.drop_first())
            + route_xml(r)));
        assert(routes_xml(p) =~= routes_xml(routes) + route_xml(r));
    }
}

/// Appends what one route entry contributes: its element when it holds
/// exactly one `/`, nothing otherwise.  The operation itself never fails.
fn append_route_xml(out: &mut String, route: &str)
    ensures
        final(out)@ == old(out)@ + route_xml(route@),
{
    let n = route.unicode_len();
    let mut count: usize = 0;
    let mut first: usize = 0;
    let mut found = false;
    let mut j: usize = 0;
    proof {
        assert(route@.take(0) =~= Seq::<char>::empty());
    }
    while j < n
        invariant
            n == route@.len(),
            j <= n,
            count <= j,
            count as int == count_slashes(route@.take(j as int)),
            !found ==> count == 0,
            found ==> count >= 1 && first < j && route@[first as int] == '/' && (forall|i: int|
                0 <= i < first ==> route@[i] != '/'),
        decreases n - j,
    {
        let c = route.get_char(j);
        proof {
            lemma_count_slashes_push(route@.take(j as int), route@[j as int]);
            assert(route@.take(j as int + 1) =~= route@.take(j as int).push(route@[j as int]));
        }
        if c == '/' {
            count = count + 1;
            if !found {
                proof {
                    lemma_no_slash(route@.take(j as int));
                    assert forall|i: int| 0 <= i < j implies route@[i] != '/' by {
                        assert(route@.take(j as int)[i] == route@[i]);
                        assert(route@.take(j as int)[i] != '/');
                    }
                }
                found = true;
                first = j;
            }
        }
        j = j + 1;
    }
    proof {
        assert(route@.take(n as int) =~= route@);
    }
    if count == 1 {
        proof {
            lemma_first_slash_at(route@, first as int);
        }
        let addr = route.substring_char(0, first);
        let prefix = route.substring_char(first + 1, n);
        out.append("  <Route>\n    <Address>");
        out.append(addr);
        out.append("</Address><PrefixSize>");
        out.append(prefix);
        out.append("</PrefixSize>\n  </Route>\n");
        proof {
            assert(addr@ =~= route@.take(first_slash(route@)));
            assert(prefix@ =~= route@.skip(first_slash(route@) + 1));
            assert(final(out)@ =~= old(out)@ + route_xml(route@));
        }
    } else {
        proof {
            assert(final(out)@ =~= old(out)@ + route_xml(route@));
        }
    }
}

/// The routes section for a configured route list: one element per entry
/// holding exactly one `/`, malformed entries silently omitted.
pub fn routes_section(routes: &Vec<String>) -> (r: String)
    ensures
        r@ == routes_xml(routes.deep_view()),
{
    let mut r = String::new();
    let mut i: usize = 0;
    proof {
        assert(routes.deep_view().take(0) =~= Seq::<Seq<char>>::empty());
        assert(r@ =~= routes_xml(routes.deep_view().take(0)));
    }
    while i < routes.len()
        invariant
            i <= routes@.len(),
            r@ == routes_xml(routes.deep_view().take(i as int)),
        decreases routes@.len() - i,
    {
        append_route_xml(&mut r, routes[i].as_str());
        proof {
            lemma_routes_xml_push(routes.deep_view().take(i as int), routes.deep_view()[i as int]);
            assert(routes.deep_view().take(i as int + 1) =~= routes.deep_view().take(
                i as int,
            ).push(routes.deep_view()[i as int]));
            assert(routes.deep_view()[i as int] == routes@[i as int]@);
        }
        i = i + 1;
    }
    proof {
        assert(routes.deep_view().take(routes@.len() as int) =~= routes.deep_view());
    }
    r
}

/// A route entry without exactly one `/` contributes nothing to the routes
/// section, and — since route synthesis is total — its presence never fails
/// the surrounding operation.
pub proof fn lemma_malformed_route_omitted(s: Seq<char>)
    requires
        !valid_route(s),
    ensures
        route_xml(s) == Seq::<char>::empty(),
{
}

/// A well-formed route entry contributes exactly one element, carrying the
/// address before its `/` and the prefix size after it.
pub proof fn lemma_valid_route_emitted(s: Seq<char>)
    requires
        valid_route(s),
    ensures
        route_xml(s) == route_entry_xml(s.take(first_slash(s)), s.skip(first_slash(s) + 1)),
{
}

/// The routing policy is binary: all traffic through the tunnel when force
/// tunneling is enabled, only the configured subnets otherwise.
pub open spec fn routing_policy(force: bool) -> Seq<char> {
    if force {
        "ForceTunnel"@
    } else {
        "SplitTunnel"@
    }
}

/// The routing-policy value emitted into a profile: exactly `ForceTunnel`
/// when force tunneling is enabled and exactly `SplitTunnel` when it is not;
/// there is no third value.
pub fn routing_policy_value(force: bool) -> (r: &'static str)
    ensures
        r@ == routing_policy(force),
        force ==> r@ == "ForceTunnel"@,
        !force ==> r@ == "SplitTunnel"@,
{
    if force {
        "ForceTunnel"
    } else {
        "SplitTunnel"
    }
}

/// The device-tunnel profile document over the configuration fields it
/// draws on.
pub open spec fn device_profile_xml_spec(
    dns_suffix: Seq<char>,
    server: Seq<char>,
    trusted_network: Seq<char>,
    dns_servers: Seq<char>,
    routes: Seq<Seq<char>>,
    force: bool,
) -> Seq<char> {
    "\n<VPNProfile>\n  <DnsSuffix>"@ + dns_suffix + "</DnsSuffix>\n  <NativeProfile>\n    <Servers>"@
        + server
        + "</Servers>\n    <NativeProtocolType>IKEv2</NativeProtocolType>\n    <Authentication>\n      <MachineMethod>Certificate</MachineMethod>\n    </Authentication>\n    <RoutingPolicyType>"@
        + routing_policy(force) + "</RoutingPolicyType>\n  </NativeProfile>\n"@ + routes_xml(routes)
        + "\n  <DeviceTunnel>true</DeviceTunnel>\n  <RegisterDNS>true</RegisterDNS>\n  <AlwaysOn>true</AlwaysOn>\n  <TrustedNetworkDetection>"@
        + trusted_network
        + "</TrustedNetworkDetection>\n  <DomainNameInformation>\n    <DomainName>."@ + dns_suffix
        + "</DomainName>\n    <DnsServers>"@ + dns_servers
        + "</DnsServers> \n  </DomainNameInformation>\n</VPNProfile>"@
}

/// Renders the device-tunnel profile for `config`: IKEv2, machine-certificate
/// authentication, always-on, with the configured routes and routing policy.
pub fn device_profile_xml(config: &VpnConfig) -> (r: String)
    ensures
        r@ == device_profile_xml_spec(
            config.dns_suffix@,
            config.vpn_server_address@,
            config.trusted_network@,
            config.dns_servers@,
            config.device_routes.deep_view(),
            config.force_tunneling,
        ),
{
    let mut r = String::from_str("\n<VPNProfile>\n  <DnsSuffix>");
    r.append(config.dns_suffix.as_str());
    r.append("</DnsSuffix>\n  <NativeProfile>\n    <Servers>");
    r.append(config.vpn_server_address.as_str());
    r.append(
        "</Servers>\n    <NativeProtocolType>IKEv2</NativeProtocolType>\n    <Authentication>\n      <MachineMethod>Certificate</MachineMethod>\n    </Authentication>\n    <RoutingPolicyType>",
    );
    r.append(routing_policy_value(config.force_tunneling));
    r.append("</RoutingPolicyType>\n  </NativeProfile>\n");
    let routes = routes_section(&config.device_routes);
    r.append(routes.as_str());
    r.append(
        "\n  <DeviceTunnel>true</DeviceTunnel>\n  <RegisterDNS>true</RegisterDNS>\n  <AlwaysOn>true</AlwaysOn>\n  <TrustedNetworkDetection>",
    );
    r.append(config.trusted_network.as_str());
    r.append("</TrustedNetworkDetection>\n  <DomainNameInformation>\n    <DomainName>.");
    r.append(config.dns_suffix.as_str());
    r.append("</DomainName>\n    <DnsServers>");
    r.append(config.dns_servers.as_str());
    r.append("</DnsServers> \n  </DomainNameInformation>\n</VPNProfile>");
    r
}

/// The extensible-authentication settings document for the user tunnel, over
/// the server names and the root certificate hash it embeds.
pub open spec fn eap_settings_spec(eap_server_names: Seq<char>, root_ca_hash: Seq<char>) -> Seq<
    char,
> {
    "\n<EapHostConfig xmlns=\"http://www.microsoft.com/provisioning/EapHostConfig\">\n  <EapMethod>\n    <Type xmlns=\"http://www.microsoft.com/provisioning/EapCommon\">13</Type>\n    <VendorId xmlns=\"http://www.microsoft.com/provisioning/EapCommon\">0</VendorId>\n    <VendorType xmlns=\"http://www.microsoft.com/provisioning/EapCommon\">0</VendorType>\n    <AuthorId xmlns=\"http://www.microsoft.com/provisioning/EapCommon\">0</AuthorId>\n  </EapMethod>\n  <Config xmlns=\"http://www.microsoft.com/provisioning/EapHostConfig\">\n    <Eap xmlns=\"http://www.microsoft.com/provisioning/BaseEapConnectionPropertiesV1\">\n      <Type>13</Type>\n      <EapType xmlns=\"http://www.microsoft.com/provisioning/EapTlsConnectionPropertiesV1\">\n        <CredentialsSource>\n          <CertificateStore>\n            <SimpleCertSelection>true</SimpleCertSelection>\n          </CertificateStore>\n        </CredentialsSource>\n        <ServerValidation>\n          <DisableUserPromptForServerValidation>true</DisableUserPromptForServerValidation>\n          <ServerNames>"@
        + eap_server_names + "</ServerNames>\n          <TrustedRootCA>"@ + root_ca_hash
        + "</TrustedRootCA>\n        </ServerValidation>\n        <DifferentUsername>false</DifferentUsername>\n        <PerformServerValidation xmlns=\"http://www.microsoft.com/provisioning/EapTlsConnectionPropertiesV2\">true</PerformServerValidation>\n        <AcceptServerName xmlns=\"http://www.microsoft.com/provisioning/EapTlsConnectionPropertiesV2\">true</AcceptServerName>\n      </EapType>\n    </Eap>\n  </Config>\n</EapHostConfig>"@
}

/// Renders the extensible-authentication settings for the user tunnel.
pub fn eap_settings(eap_server_names: &str, root_ca_hash: &str) -> (r: String)
    ensures
        r@ == eap_settings_spec(eap_server_names@, root_ca_hash@),
{
    let mut r = String::from_str(
        "\n<EapHostConfig xmlns=\"http://www.microsoft.com/provisioning/EapHostConfig\">\n  <EapMethod>\n    <Type xmlns=\"http://www.microsoft.com/provisioning/EapCommon\">13</Type>\n    <VendorId xmlns=\"http://www.microsoft.com/provisioning/EapCommon\">0</VendorId>\n    <VendorType xmlns=\"http://www.microsoft.com/provisioning/EapCommon\">0</VendorType>\n    <AuthorId xmlns=\"http://www.microsoft.com/provisioning/EapCommon\">0</AuthorId>\n  </EapMethod>\n  <Config xmlns=\"http://www.microsoft.com/provisioning/EapHostConfig\">\n    <Eap xmlns=\"http://www.microsoft.com/provisioning/BaseEapConnectionPropertiesV1\">\n      <Type>13</Type>\n      <EapType xmlns=\"http://www.microsoft.com/provisioning/EapTlsConnectionPropertiesV1\">\n        <CredentialsSource>\n          <CertificateStore>\n            <SimpleCertSelection>true</SimpleCertSelection>\n          </CertificateStore>\n        </CredentialsSource>\n        <ServerValidation>\n          <DisableUserPromptForServerValidation>true</DisableUserPromptForServerValidation>\n          <ServerNames>",
    );
    r.append(eap_server_names);
    r.append("</ServerNames>\n          <TrustedRootCA>");
    r.append(root_ca_hash);
    r.append(
        "</TrustedRootCA>\n        </ServerValidation>\n        <DifferentUsername>false</DifferentUsername>\n        <PerformServerValidation xmlns=\"http://www.microsoft.com/provisioning/EapTlsConnectionPropertiesV2\">true</PerformServerValidation>\n        <AcceptServerName xmlns=\"http://www.microsoft.com/provisioning/EapTlsConnectionPropertiesV2\">true</AcceptServerName>\n      </EapType>\n    </Eap>\n  </Config>\n</EapHostConfig>",
    );
    r
}

/// The user-tunnel profile document over the configuration fields it draws
/// on.  The embedded authentication settings carry markup escaping, as the
/// deployment script expects them.
pub open spec fn user_profile_xml_spec(
    protocol: Seq<char>,
    always_on: bool,
    dns_suffix: Seq<char>,
    server: Seq<char>,
    trusted_network: Seq<char>,
    dns_servers: Seq<char>,
    eap_server_names: Seq<char>,
    root_ca_hash: Seq<char>,
    routes: Seq<Seq<char>>,
    force: bool,
    disable_disconnect_button: bool,
    disable_class_based_route: bool,
) -> Seq<char> {
    "\n<VPNProfile>\n  <DnsSuffix>"@ + dns_suffix + "</DnsSuffix>\n  <NativeProfile>\n    <Servers>"@
        + server + "</Servers>\n    <NativeProtocolType>"@ + protocol
        + "</NativeProtocolType>\n    <Authentication>\n      <UserMethod>Eap</UserMethod>\n      <Eap>\n        <Configuration>"@
        + xml_escape_markup(eap_settings_spec(eap_server_names, root_ca_hash))
        + "</Configuration>\n      </Eap>\n    </Authentication>\n    <RoutingPolicyType>"@
        + routing_policy(force) + "</RoutingPolicyType>\n  </NativeProfile>\n"@ + routes_xml(routes)
        + "\n  <AlwaysOn>"@ + bool_str(always_on)
        + "</AlwaysOn>\n  <RememberCredentials>true</RememberCredentials>\n  <TrustedNetworkDetection>"@
        + trusted_network + "</TrustedNetworkDetection>\n"@ + (if disable_disconnect_button {
        "  <DisableDisconnectButton>true</DisableDisconnectButton>\n"@
    } else {
        Seq::empty()
    }) + (if disable_class_based_route {
        "  <DisableClassBasedDefaultRoute>true</DisableClassBasedDefaultRoute>\n"@
    } else {
        Seq::empty()
    }) + "  <DomainNameInformation>\n    <DomainName>."@ + dns_suffix
        + "</DomainName>\n    <DnsServers>"@ + dns_servers
        + "</DnsServers>\n  </DomainNameInformation>\n</VPNProfile>"@
}

/// Renders the user-tunnel profile for `config`: the configured protocol,
/// extensible authentication against the configured servers and root
/// certificate, the configured routes and routing policy, and the optional
/// lockdown elements.
pub fn user_profile_xml(config: &VpnConfig) -> (r: String)
    ensures
        r@ == user_profile_xml_spec(
            config.user_tunnel_protocol@,
            config.user_tunnel_always_on,
            config.dns_suffix@,
            config.vpn_server_address@,
            config.trusted_network@,
            config.dns_servers@,
            config.eap_server_names@,
            config.root_ca_hash@,
            config.user_routes.deep_view(),
            config.force_tunneling,
            config.disable_disconnect_button,
            config.disable_class_based_route,
        ),
{
    let mut r = String::from_str("\n<VPNProfile>\n  <DnsSuffix>");
    r.append(config.dns_suffix.as_str());
    r.append("</DnsSuffix>\n  <NativeProfile>\n    <Servers>");
    r.append(config.vpn_server_address.as_str());
    r.append("</Servers>\n    <NativeProtocolType>");
    r.append(config.user_tunnel_protocol.as_str());
    r.append(
        "</NativeProtocolType>\n    <Authentication>\n      <UserMethod>Eap</UserMethod>\n      <Eap>\n        <Configuration>",
    );
    let eap = eap_settings(config.eap_server_names.as_str(), config.root_ca_hash.as_str());
    let eap_escaped = escape_markup(eap.as_str());
    r.append(eap_escaped.as_str());
    r.append("</Configuration>\n      </Eap>\n    </Authentication>\n    <RoutingPolicyType>");
    r.append(routing_policy_value(config.force_tunneling));
    r.append("</RoutingPolicyType>\n  </NativeProfile>\n");
    let routes = routes_section(&config.user_routes);
    r.append(routes.as_str());
    r.append("\n  <AlwaysOn>");
    if config.user_tunnel_always_on {
        r.append("true");
    } else {
        r.append("false");
    }
    r.append(
        "</AlwaysOn>\n  <RememberCredentials>true</RememberCredentials>\n  <TrustedNetworkDetection>",
    );
    r.append(config.trusted_network.as_str());
    r.append("</TrustedNetworkDetection>\n");
    if config.disable_disconnect_button {
        r.append("  <DisableDisconnectButton>true</DisableDisconnectButton>\n");
    }
    if config.disable_class_based_route {
        r.append("  <DisableClassBasedDefaultRoute>true</DisableClassBasedDefaultRoute>\n");
    }
    r.append("  <DomainNameInformation>\n    <DomainName>.");
    r.append(config.dns_suffix.as_str());
    r.append("</DomainName>\n    <DnsServers>");
    r.append(config.dns_servers.as_str());
    r.append("</DnsServers>\n  </DomainNameInformation>\n</VPNProfile>");
    proof {
        assert(r@ =~= user_profile_xml_spec(
            config.user_tunnel_protocol@,
            config.user_tunnel_always_on,
            config.dns_suffix@,
            config.vpn_server_address@,
            config.trusted_network@,
            config.dns_servers@,
            config.eap_server_names@,
            config.root_ca_hash@,
            config.user_routes.deep_view(),
            config.force_tunneling,
            config.disable_disconnect_button,
            config.disable_class_based_route,
        ));
    }
    r
}

} // verus!
