use aovpn_manager::config::VpnConfig;
use aovpn_manager::ops::boot_connect_script;
use aovpn_manager::ops::boot_task_path;
use aovpn_manager::ops::device_deploy_script;
use aovpn_manager::ops::device_remove_wmi_script;
use aovpn_manager::ops::rasdial_connect_args;
use aovpn_manager::ops::rasdial_disconnect_args;
use aovpn_manager::ops::remove_device_result;
use aovpn_manager::ops::remove_vpn_connection_args;
use aovpn_manager::ops::revocation_flag_from_output;
use aovpn_manager::ops::run_cmd_as_system_request;
use aovpn_manager::ops::sstp_revocation_script;
use aovpn_manager::ops::sstp_success_message;
use aovpn_manager::ops::user_deploy_script;
use aovpn_manager::ops::user_remove_script;
use aovpn_manager::taskdoc::TaskTrigger;

fn sample_config() -> VpnConfig {
    VpnConfig {
        company_prefix: "Acme".to_string(),
        vpn_server_address: "vpn.acme.example".to_string(),
        dns_suffix: "corp.acme.example".to_string(),
        dns_servers: "10.0.0.53".to_string(),
        trusted_network: "corp.acme.example".to_string(),
        root_ca_hash: "AABBCCDD".to_string(),
        eap_server_names: "nps.corp.acme.example".to_string(),
        device_routes: vec![],
        user_routes: vec![],
        enable_task_scheduler_trigger: true,
        user_tunnel_protocol: "IKEv2".to_string(),
        user_tunnel_always_on: true,
        force_tunneling: false,
        disable_class_based_route: false,
        disable_disconnect_button: false,
        sstp_disable_revocation: false,
    }
}

#[test]
fn dial_arguments_quote_the_tunnel_name() {
    assert_eq!(
        rasdial_disconnect_args("Acme Device Tunnel"),
        "\"Acme Device Tunnel\" /disconnect"
    );
    assert_eq!(rasdial_connect_args("Acme Device Tunnel"), "\"Acme Device Tunnel\"");
}

#[test]
fn network_entry_removal_arguments() {
    assert_eq!(
        remove_vpn_connection_args("Acme Device Tunnel"),
        "-Command \"Remove-VpnConnection -Name 'Acme Device Tunnel' -AllUserConnection -Force -ErrorAction SilentlyContinue\""
    );
}

#[test]
fn device_removal_outcome_mapping() {
    assert_eq!(
        remove_device_result(Ok("anything".to_string())),
        Ok("Device Tunnel successfully removed.".to_string())
    );
    assert_eq!(
        remove_device_result(Err("Task run failed: denied".to_string())),
        Err("Failed to remove device tunnel network entry: Task run failed: denied".to_string())
    );
}

#[test]
fn revocation_script_sets_both_overrides() {
    let on = sstp_revocation_script(true);
    assert_eq!(
        on,
        "New-ItemProperty -Path 'HKLM:\\SYSTEM\\CurrentControlSet\\Services\\SstpSvc\\Parameters' -Name 'NoCertRevocationCheck' -PropertyType DWord -Value 1 -Force; New-ItemProperty -Path 'HKLM:\\System\\CurrentControlSet\\Services\\RemoteAccess\\Parameters' -Name 'IgnoreRevocationOffline' -PropertyType DWord -Value 1 -Force"
    );
    let off = sstp_revocation_script(false);
    assert!(off.contains("'NoCertRevocationCheck' -PropertyType DWord -Value 0 -Force"));
    assert!(off.contains("'IgnoreRevocationOffline' -PropertyType DWord -Value 0 -Force"));
    assert!(!off.contains("Value 1"));
}

#[test]
fn revocation_messages_name_the_state() {
    assert_eq!(
        sstp_success_message(true),
        "SSTP Revocation Check successfully set to disable = true"
    );
    assert_eq!(
        sstp_success_message(false),
        "SSTP Revocation Check successfully set to disable = false"
    );
}

#[test]
fn revocation_state_reads_back_from_registry_output() {
    assert!(revocation_flag_from_output("1"));
    assert!(!revocation_flag_from_output("0"));
    assert!(!revocation_flag_from_output(""));
    assert!(!revocation_flag_from_output("11"));
}

#[test]
fn deploy_script_embeds_profile_and_name() {
    let script = device_deploy_script("<VPNProfile>x</VPNProfile>", "Acme Device Tunnel");
    assert!(script.starts_with("\n$ErrorActionPreference = \"Stop\"\n$ProfileXML = @\"\n<VPNProfile>x</VPNProfile>\n\"@\n"));
    assert!(script.contains("$profileNameEscaped = \"Acme Device Tunnel\".Replace(' ', '%20')"));
    assert!(script.contains("$namespace = \"root\\cimv2\\mdm\\dmmap\""));
    assert!(script.contains("throw \"FAILURE: Profile was created but could not be found via WMI.\""));
}

#[test]
fn user_deploy_script_handles_the_logged_on_user_context() {
    let script = user_deploy_script("<VPNProfile>y</VPNProfile>", "Acme User Tunnel");
    assert!(script.contains("$profileNameEscaped = \"Acme User Tunnel\".Replace(' ', '%20')"));
    assert!(script.contains("if ($currentUser.IsSystem)"));
    assert!(script.contains("throw \"No user logged in.\""));
    assert!(script.ends_with("Write-Host \"Success! Profile was created.\"\n"));
}

#[test]
fn removal_scripts_target_the_named_profile() {
    let wmi = device_remove_wmi_script("Acme Device Tunnel");
    assert!(wmi.contains("$profileNameEscaped = \"Acme Device Tunnel\".Replace(' ', '%20')"));
    assert!(wmi.contains("catch { $instances = $null }"));

    let user = user_remove_script("Acme User Tunnel");
    assert!(user.contains("Remove-VpnConnection -Name \"Acme User Tunnel\" -Force -ErrorAction SilentlyContinue"));
    assert!(user.ends_with("Write-Host \"Successfully cleaned up User Tunnel.\"\n"));
}

#[test]
fn boot_script_dials_until_connected() {
    let script = boot_connect_script("Acme Device Tunnel", "corp.acme.example");
    assert!(script.contains("$vpnName = \"Acme Device Tunnel\""));
    assert!(script.contains("$internalDomain = \"corp.acme.example\""));
    assert!(script.contains("$maxRetries = 5"));
    assert!(script.contains("rasdial \"$vpnName\""));
    assert!(script.ends_with("exit 1\n"));
}

#[test]
fn boot_task_path_places_the_task_in_a_company_folder() {
    let config = sample_config();
    assert_eq!(boot_task_path(&config), "\\Acme\\Start Acme Device Tunnel");
}

#[test]
fn command_request_fields() {
    let spec = run_cmd_as_system_request("TempDisconnectDeviceTunnel", "rasdial.exe", "\"Acme Device Tunnel\" /disconnect");
    assert_eq!(spec.task_name, "TempDisconnectDeviceTunnel");
    assert_eq!(spec.command, "rasdial.exe");
    assert_eq!(spec.arguments, "&quot;Acme Device Tunnel&quot; /disconnect");
    assert!(matches!(spec.trigger, TaskTrigger::Immediate));
    assert!(spec.hidden);
    assert_eq!(spec.timeout_hours, 1);
    assert_eq!(spec.wait_millis, 1500);
    assert_eq!(spec.success_message, "Command successfully executed natively as SYSTEM.");
}
