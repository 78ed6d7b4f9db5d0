//! The profile operations: each composes a management script or command from
//! the configuration and packages it as an elevation request for the runner,
//! or as a direct invocation the driver performs without elevation.
use crate::config::VpnConfig;
use crate::payload::b64_of;
use crate::payload::encode_powershell_script;
use crate::payload::utf16le_bytes;
use crate::taskdoc::ElevatedTaskSpec;
use crate::taskdoc::TaskTrigger;
use crate::taskdoc::is_escaped;
use crate::xml::escape_xml;
use crate::xml::xml_escape;
use vstd::prelude::*;

verus! {

/// The interpreter flags that precede the encoded command: no profile
/// loading, no prompts, execution policy bypassed.
pub open spec fn encoded_command_raw_args(encoded: Seq<char>) -> Seq<char> {
    "-NoProfile -NonInteractive -ExecutionPolicy Bypass -EncodedCommand "@ + encoded
}

/// Packages a whole script as an elevation request: the interpreter is run
/// with the script as a single encoded-command argument, registered under
/// `task_name`, run once on demand, and torn down after a five-second wait.
pub fn run_as_system_task_request(task_name: &str, powershell_script: &str) -> (r:
    ElevatedTaskSpec)
    requires
        powershell_script@.len() <= 0x1000_0000,
    ensures
        r.task_name@ == task_name@,
        r.command@ == "powershell.exe"@,
        r.arguments@ == xml_escape(
            encoded_command_raw_args(b64_of(utf16le_bytes(powershell_script@))),
        ),
        is_escaped(r.arguments@),
        r.trigger == TaskTrigger::Immediate,
        r.hidden == false,
        r.timeout_hours == 1,
        r.wait_millis == 5000,
        r.success_message@ == "WMI Injection Task successfully triggered and completed."@,
{
    let encoded = encode_powershell_script(powershell_script);
    let mut raw = String::from_str(
        "-NoProfile -NonInteractive -ExecutionPolicy Bypass -EncodedCommand ",
    );
    raw.append(encoded.as_str());
    let arguments = escape_xml(raw.as_str());
    proof {
        assert(is_escaped(arguments@)) by {
            assert(arguments@ == xml_escape(raw@));
        }
    }
    ElevatedTaskSpec {
        task_name: String::from_str(task_name),
        command: String::from_str("powershell.exe"),
        arguments,
        trigger: TaskTrigger::Immediate,
        hidden: false,
        timeout_hours: 1,
        wait_millis: 5000,
        success_message: String::from_str(
            "WMI Injection Task successfully triggered and completed.",
        ),
    }
}

/// Packages a single native command as an elevation request: the command is
/// run directly, its arguments escaped for the document, the task hidden,
/// torn down after a short wait.
pub fn run_cmd_as_system_request(task_name: &str, command: &str, arguments: &str) -> (r:
    ElevatedTaskSpec)
    ensures
        r.task_name@ == task_name@,
        r.command@ == command@,
        r.arguments@ == xml_escape(arguments@),
        is_escaped(r.arguments@),
        r.trigger == TaskTrigger::Immediate,
        r.hidden == true,
        r.timeout_hours == 1,
        r.wait_millis == 1500,
        r.success_message@ == "Command successfully executed natively as SYSTEM."@,
{
    let escaped = escape_xml(arguments);
    proof {
        assert(is_escaped(escaped@)) by {
            assert(escaped@ == xml_escape(arguments@));
        }
    }
    ElevatedTaskSpec {
        task_name: String::from_str(task_name),
        command: String::from_str(command),
        arguments: escaped,
        trigger: TaskTrigger::Immediate,
        hidden: true,
        timeout_hours: 1,
        wait_millis: 1500,
        success_message: String::from_str("Command successfully executed natively as SYSTEM."),
    }
}

/// Packages a script as the persistent boot-trigger workaround: registered
/// under `task_path`, started by the platform at every boot, and intentionally
/// left installed — the runner only removes the temporary document.
pub fn boot_workaround_request(task_path: &str, powershell_script: &str) -> (r: ElevatedTaskSpec)
    requires
        powershell_script@.len() <= 0x1000_0000,
    ensures
        r.task_name@ == task_path@,
        r.command@ == "powershell.exe"@,
        r.arguments@ == xml_escape(
            encoded_command_raw_args(b64_of(utf16le_bytes(powershell_script@))),
        ),
        is_escaped(r.arguments@),
        r.trigger == TaskTrigger::OnBoot,
        r.hidden == false,
        r.timeout_hours == 2,
        r.wait_millis == 0,
        r.success_message@ == "Workaround Task Registered Successfully"@,
{
    let encoded = encode_powershell_script(powershell_script);
    let mut raw = String::from_str(
        "-NoProfile -NonInteractive -ExecutionPolicy Bypass -EncodedCommand ",
    );
    raw.append(encoded.as_str());
    let arguments = escape_xml(raw.as_str());
    proof {
        assert(is_escaped(arguments@)) by {
            assert(arguments@ == xml_escape(raw@));
        }
    }
    ElevatedTaskSpec {
        task_name: String::from_str(task_path),
        command: String::from_str("powershell.exe"),
        arguments,
        trigger: TaskTrigger::OnBoot,
        hidden: false,
        timeout_hours: 2,
        wait_millis: 0,
        success_message: String::from_str("Workaround Task Registered Successfully"),
    }
}

/// The deployment script for the device tunnel: removes any existing profile
/// of the same name, creates the new one from the given profile document, and
/// verifies it can be read back.
pub open spec fn device_deploy_script_spec(profile_xml: Seq<char>, profile_name: Seq<char>) -> Seq<
    char,
> {
    "\n$ErrorActionPreference = \"Stop\"\n$ProfileXML = @\"\n"@ + profile_xml
        + "\n\"@\n$profileNameEscaped = \""@ + profile_name
        + "\".Replace(' ', '%20')\n$escapedXml = $ProfileXML.Replace('<', '&lt;').Replace('>', '&gt;').Replace('\"', '&quot;')\n\n$session = New-CimSession\n$namespace = \"root\\cimv2\\mdm\\dmmap\"\n$className = \"MDM_VPNv2_01\"\n\n$instances = $session.EnumerateInstances($namespace, $className)\nif ($instances) {\n    foreach ($i in $instances) {\n        if ($i.InstanceID -eq $profileNameEscaped) {\n            Write-Host \"Removing existing Device Tunnel...\"\n            $session.DeleteInstance($namespace, $i)\n        }\n    }\n}\n\nWrite-Host \"Creating new Device Tunnel profile...\"\n$newInstance = New-Object Microsoft.Management.Infrastructure.CimInstance $className, $namespace\n$newInstance.CimInstanceProperties.Add([Microsoft.Management.Infrastructure.CimProperty]::Create(\"ParentID\", \"./Vendor/MSFT/VPNv2\", \"String\", \"Key\"))\n$newInstance.CimInstanceProperties.Add([Microsoft.Management.Infrastructure.CimProperty]::Create(\"InstanceID\", \"$profileNameEscaped\", \"String\", \"Key\"))\n$newInstance.CimInstanceProperties.Add([Microsoft.Management.Infrastructure.CimProperty]::Create(\"ProfileXML\", \"$escapedXml\", \"String\", \"Property\"))\n\n$session.CreateInstance($namespace, $newInstance)\n\n$check = $session.EnumerateInstances($namespace, $className) | Where-Object { $_.InstanceID -eq $profileNameEscaped }\nif ($check) {\n    Write-Host \"SUCCESS: Device Tunnel was created.\"\n} else {\n    throw \"FAILURE: Profile was created but could not be found via WMI.\"\n}\n"@
}

/// Renders the device-tunnel deployment script.
pub fn device_deploy_script(profile_xml: &str, profile_name: &str) -> (r: String)
    ensures
        r@ == device_deploy_script_spec(profile_xml@, profile_name@),
{
    let mut r = String::from_str("\n$ErrorActionPreference = \"Stop\"\n$ProfileXML = @\"\n");
    r.append(profile_xml);
    r.append("\n\"@\n$profileNameEscaped = \"");
    r.append(profile_name);
    r.append(
        "\".Replace(' ', '%20')\n$escapedXml = $ProfileXML.Replace('<', '&lt;').Replace('>', '&gt;').Replace('\"', '&quot;')\n\n$session = New-CimSession\n$namespace = \"root\\cimv2\\mdm\\dmmap\"\n$className = \"MDM_VPNv2_01\"\n\n$instances = $session.EnumerateInstances($namespace, $className)\nif ($instances) {\n    foreach ($i in $instances) {\n        if ($i.InstanceID -eq $profileNameEscaped) {\n            Write-Host \"Removing existing Device Tunnel...\"\n            $session.DeleteInstance($namespace, $i)\n        }\n    }\n}\n\nWrite-Host \"Creating new Device Tunnel profile...\"\n$newInstance = New-Object Microsoft.Management.Infrastructure.CimInstance $className, $namespace\n$newInstance.CimInstanceProperties.Add([Microsoft.Management.Infrastructure.CimProperty]::Create(\"ParentID\", \"./Vendor/MSFT/VPNv2\", \"String\", \"Key\"))\n$newInstance.CimInstanceProperties.Add([Microsoft.Management.Infrastructure.CimProperty]::Create(\"InstanceID\", \"$profileNameEscaped\", \"String\", \"Key\"))\n$newInstance.CimInstanceProperties.Add([Microsoft.Management.Infrastructure.CimProperty]::Create(\"ProfileXML\", \"$escapedXml\", \"String\", \"Property\"))\n\n$session.CreateInstance($namespace, $newInstance)\n\n$check = $session.EnumerateInstances($namespace, $className) | Where-Object { $_.InstanceID -eq $profileNameEscaped }\nif ($check) {\n    Write-Host \"SUCCESS: Device Tunnel was created.\"\n} else {\n    throw \"FAILURE: Profile was created but could not be found via WMI.\"\n}\n",
    );
    r
}

/// The script that removes the device tunnel's management object, tolerant of
/// an empty enumeration.
pub open spec fn device_remove_wmi_script_spec(profile_name: Seq<char>) -> Seq<char> {
    "\n$profileNameEscaped = \""@ + profile_name
        + "\".Replace(' ', '%20')\n$namespace = \"root\\cimv2\\mdm\\dmmap\"\n$className = \"MDM_VPNv2_01\"\n\n$session = New-CimSession\ntry { $instances = $session.EnumerateInstances($namespace, $className) } catch { $instances = $null }\nif ($instances) {\n    foreach ($i in $instances) {\n        if ($i.InstanceID -eq $profileNameEscaped) {\n            $session.DeleteInstance($namespace, $i)\n        }\n    }\n}\n"@
}

/// Renders the device-tunnel management-object removal script.
pub fn device_remove_wmi_script(profile_name: &str) -> (r: String)
    ensures
        r@ == device_remove_wmi_script_spec(profile_name@),
{
    let mut r = String::from_str("\n$profileNameEscaped = \"");
    r.append(profile_name);
    r.append(
        "\".Replace(' ', '%20')\n$namespace = \"root\\cimv2\\mdm\\dmmap\"\n$className = \"MDM_VPNv2_01\"\n\n$session = New-CimSession\ntry { $instances = $session.EnumerateInstances($namespace, $className) } catch { $instances = $null }\nif ($instances) {\n    foreach ($i in $instances) {\n        if ($i.InstanceID -eq $profileNameEscaped) {\n            $session.DeleteInstance($namespace, $i)\n        }\n    }\n}\n",
    );
    r
}

/// The raw argument string that removes the device tunnel's network entry;
/// it must run as SYSTEM or global user connections refuse the deletion.
pub open spec fn remove_vpn_connection_args_spec(profile_name: Seq<char>) -> Seq<char> {
    "-Command \"Remove-VpnConnection -Name '"@ + profile_name
        + "' -AllUserConnection -Force -ErrorAction SilentlyContinue\""@
}

/// Renders the device-tunnel network-entry removal arguments.
pub fn remove_vpn_connection_args(profile_name: &str) -> (r: String)
    ensures
        r@ == remove_vpn_connection_args_spec(profile_name@),
{
    let mut r = String::from_str("-Command \"Remove-VpnConnection -Name '");
    r.append(profile_name);
    r.append("' -AllUserConnection -Force -ErrorAction SilentlyContinue\"");
    r
}

/// The outcome of removing the device tunnel, as reported to the caller: the
/// management-object removal is best-effort, so only the network-entry
/// removal decides, and its error is wrapped.
pub fn remove_device_result(net_removal: Result<String, String>) -> (r: Result<String, String>)
    ensures
        net_removal is Ok ==> r is Ok && r->Ok_0@ == "Device Tunnel successfully removed."@,
        net_removal is Err ==> r is Err && r->Err_0@
            == "Failed to remove device tunnel network entry: "@ + net_removal->Err_0@,
{
    match net_removal {
        Ok(_) => Ok(String::from_str("Device Tunnel successfully removed.")),
        Err(e) => {
            let mut m = String::from_str("Failed to remove device tunnel network entry: ");
            m.append(e.as_str());
            Err(m)
        },
    }
}

/// The user-tunnel removal script: deletes the management object (in the
/// logged-on user's context when running as SYSTEM) and the connection entry.
pub open spec fn user_remove_script_spec(profile_name: Seq<char>) -> Seq<char> {
    "\n$profileNameEscaped = \""@ + profile_name
        + "\".Replace(' ', '%20')\n$namespaceName = \"root\\cimv2\\mdm\\dmmap\"\n$className = \"MDM_VPNv2_01\"\n\n$currentUser = [System.Security.Principal.WindowsIdentity]::GetCurrent()\n$options = $null\n\nif ($currentUser.IsSystem) {\n    $explorerProc = Get-CimInstance Win32_Process -Filter \"name='explorer.exe'\" | Select-Object -First 1\n    if ($explorerProc) {\n        $owner = Invoke-CimMethod -InputObject $explorerProc -MethodName GetOwnerSid\n        $targetSID = $owner.Sid\n        $options = New-Object Microsoft.Management.Infrastructure.Options.CimOperationOptions\n        $options.SetCustomOption(\"PolicyPlatformContext_PrincipalContext_Type\", \"PolicyPlatform_UserContext\", $false)\n        $options.SetCustomOption(\"PolicyPlatformContext_PrincipalContext_Id\", \"$targetSID\", $false)\n    }\n}\n\n$session = New-CimSession\ntry {\n    if ($options) { $existing = $session.EnumerateInstances($namespaceName, $className, $options) }\n    else { $existing = $session.EnumerateInstances($namespaceName, $className) }\n} catch { $existing = $null }\n\nif ($existing) {\n    foreach ($instance in $existing) {\n        if ($instance.InstanceID -eq $profileNameEscaped) {\n            Write-Host \"Removing existing User Tunnel via WMI...\"\n            if ($options) { $session.DeleteInstance($namespaceName, $instance, $options) }\n            else { $session.DeleteInstance($namespaceName, $instance) }\n        }\n    }\n}\n\nRemove-VpnConnection -Name \""@
        + profile_name
        + "\" -Force -ErrorAction SilentlyContinue\nWrite-Host \"Successfully cleaned up User Tunnel.\"\n"@
}

/// Renders the user-tunnel removal script.
pub fn user_remove_script(profile_name: &str) -> (r: String)
    ensures
        r@ == user_remove_script_spec(profile_name@),
{
    let mut r = String::from_str("\n$profileNameEscaped = \"");
    r.append(profile_name);
    r.append(
        "\".Replace(' ', '%20')\n$namespaceName = \"root\\cimv2\\mdm\\dmmap\"\n$className = \"MDM_VPNv2_01\"\n\n$currentUser = [System.Security.Principal.WindowsIdentity]::GetCurrent()\n$options = $null\n\nif ($currentUser.IsSystem) {\n    $explorerProc = Get-CimInstance Win32_Process -Filter \"name='explorer.exe'\" | Select-Object -First 1\n    if ($explorerProc) {\n        $owner = Invoke-CimMethod -InputObject $explorerProc -MethodName GetOwnerSid\n        $targetSID = $owner.Sid\n        $options = New-Object Microsoft.Management.Infrastructure.Options.CimOperationOptions\n        $options.SetCustomOption(\"PolicyPlatformContext_PrincipalContext_Type\", \"PolicyPlatform_UserContext\", $false)\n        $options.SetCustomOption(\"PolicyPlatformContext_PrincipalContext_Id\", \"$targetSID\", $false)\n    }\n}\n\n$session = New-CimSession\ntry {\n    if ($options) { $existing = $session.EnumerateInstances($namespaceName, $className, $options) }\n    else { $existing = $session.EnumerateInstances($namespaceName, $className) }\n} catch { $existing = $null }\n\nif ($existing) {\n    foreach ($instance in $existing) {\n        if ($instance.InstanceID -eq $profileNameEscaped) {\n            Write-Host \"Removing existing User Tunnel via WMI...\"\n            if ($options) { $session.DeleteInstance($namespaceName, $instance, $options) }\n            else { $session.DeleteInstance($namespaceName, $instance) }\n        }\n    }\n}\n\nRemove-VpnConnection -Name \"",
    );
    r.append(profile_name);
    r.append(
        "\" -Force -ErrorAction SilentlyContinue\nWrite-Host \"Successfully cleaned up User Tunnel.\"\n",
    );
    r
}

/// The user-tunnel deployment script: removes any existing profile of the
/// same name (in the logged-on user's context when running as SYSTEM) and
/// creates the new one from the given profile document.
pub open spec fn user_deploy_script_spec(profile_xml: Seq<char>, profile_name: Seq<char>) -> Seq<
    char,
> {
    "\n$ErrorActionPreference = \"Stop\"\n$ProfileXML = @\"\n"@ + profile_xml
        + "\n\"@\n$profileNameEscaped = \""@ + profile_name
        + "\".Replace(' ', '%20')\n$escapedXML = $ProfileXML.Replace('<', '&lt;').Replace('>', '&gt;').Replace('\"', '&quot;')\n\n$namespaceName = \"root\\cimv2\\mdm\\dmmap\"\n$className = \"MDM_VPNv2_01\"\n\n$currentUser = [System.Security.Principal.WindowsIdentity]::GetCurrent()\n$options = $null\n\nif ($currentUser.IsSystem) {\n    $explorerProc = Get-CimInstance Win32_Process -Filter \"name='explorer.exe'\" | Select-Object -First 1\n    if ($explorerProc) {\n        $owner = Invoke-CimMethod -InputObject $explorerProc -MethodName GetOwnerSid\n        $targetSID = $owner.Sid\n        $options = New-Object Microsoft.Management.Infrastructure.Options.CimOperationOptions\n        $options.SetCustomOption(\"PolicyPlatformContext_PrincipalContext_Type\", \"PolicyPlatform_UserContext\", $false)\n        $options.SetCustomOption(\"PolicyPlatformContext_PrincipalContext_Id\", \"$targetSID\", $false)\n    } else { throw \"No user logged in.\" }\n}\n\n$session = New-CimSession\nif ($options) { $existing = $session.EnumerateInstances($namespaceName, $className, $options) }\nelse { $existing = $session.EnumerateInstances($namespaceName, $className) }\n\nif ($existing) {\n    foreach ($instance in $existing) {\n        if ($instance.InstanceID -eq $profileNameEscaped) {\n            if ($options) { $session.DeleteInstance($namespaceName, $instance, $options) }\n            else { $session.DeleteInstance($namespaceName, $instance) }\n        }\n    }\n}\n\n$newInstance = New-Object Microsoft.Management.Infrastructure.CimInstance $className, $namespaceName\n$newInstance.CimInstanceProperties.Add([Microsoft.Management.Infrastructure.CimProperty]::Create(\"ParentID\", \"./Vendor/MSFT/VPNv2\", \"String\", \"Key\"))\n$newInstance.CimInstanceProperties.Add([Microsoft.Management.Infrastructure.CimProperty]::Create(\"InstanceID\", \"$profileNameEscaped\", \"String\", \"Key\"))\n$newInstance.CimInstanceProperties.Add([Microsoft.Management.Infrastructure.CimProperty]::Create(\"ProfileXML\", \"$escapedXML\", \"String\", \"Property\"))\n\nif ($options) { $session.CreateInstance($namespaceName, $newInstance, $options) }\nelse { $session.CreateInstance($namespaceName, $newInstance) }\n\nWrite-Host \"Success! Profile was created.\"\n"@
}

/// Renders the user-tunnel deployment script.
pub fn user_deploy_script(profile_xml: &str, profile_name: &str) -> (r: String)
    ensures
        r@ == user_deploy_script_spec(profile_xml@, profile_name@),
{
    let mut r = String::from_str("\n$ErrorActionPreference = \"Stop\"\n$ProfileXML = @\"\n");
    r.append(profile_xml);
    r.append("\n\"@\n$profileNameEscaped = \"");
    r.append(profile_name);
    r.append(
        "\".Replace(' ', '%20')\n$escapedXML = $ProfileXML.Replace('<', '&lt;').Replace('>', '&gt;').Replace('\"', '&quot;')\n\n$namespaceName = \"root\\cimv2\\mdm\\dmmap\"\n$className = \"MDM_VPNv2_01\"\n\n$currentUser = [System.Security.Principal.WindowsIdentity]::GetCurrent()\n$options = $null\n\nif ($currentUser.IsSystem) {\n    $explorerProc = Get-CimInstance Win32_Process -Filter \"name='explorer.exe'\" | Select-Object -First 1\n    if ($explorerProc) {\n        $owner = Invoke-CimMethod -InputObject $explorerProc -MethodName GetOwnerSid\n        $targetSID = $owner.Sid\n        $options = New-Object Microsoft.Management.Infrastructure.Options.CimOperationOptions\n        $options.SetCustomOption(\"PolicyPlatformContext_PrincipalContext_Type\", \"PolicyPlatform_UserContext\", $false)\n        $options.SetCustomOption(\"PolicyPlatformContext_PrincipalContext_Id\", \"$targetSID\", $false)\n    } else { throw \"No user logged in.\" }\n}\n\n$session = New-CimSession\nif ($options) { $existing = $session.EnumerateInstances($namespaceName, $className, $options) }\nelse { $existing = $session.EnumerateInstances($namespaceName, $className) }\n\nif ($existing) {\n    foreach ($instance in $existing) {\n        if ($instance.InstanceID -eq $profileNameEscaped) {\n            if ($options) { $session.DeleteInstance($namespaceName, $instance, $options) }\n            else { $session.DeleteInstance($namespaceName, $instance) }\n        }\n    }\n}\n\n$newInstance = New-Object Microsoft.Management.Infrastructure.CimInstance $className, $namespaceName\n$newInstance.CimInstanceProperties.Add([Microsoft.Management.Infrastructure.CimProperty]::Create(\"ParentID\", \"./Vendor/MSFT/VPNv2\", \"String\", \"Key\"))\n$newInstance.CimInstanceProperties.Add([Microsoft.Management.Infrastructure.CimProperty]::Create(\"InstanceID\", \"$profileNameEscaped\", \"String\", \"Key\"))\n$newInstance.CimInstanceProperties.Add([Microsoft.Management.Infrastructure.CimProperty]::Create(\"ProfileXML\", \"$escapedXML\", \"String\", \"Property\"))\n\nif ($options) { $session.CreateInstance($namespaceName, $newInstance, $options) }\nelse { $session.CreateInstance($namespaceName, $newInstance) }\n\nWrite-Host \"Success! Profile was created.\"\n",
    );
    r
}

/// The script the boot-trigger workaround runs: after a grace period, dial
/// the device tunnel until it connects or the retries run out, unless the
/// internal network is already reachable.
pub open spec fn boot_connect_script_spec(vpn_name: Seq<char>, dns_suffix: Seq<char>) -> Seq<
    char,
> {
    "\n$vpnName = \""@ + vpn_name + "\"\n$internalDomain = \""@ + dns_suffix
        + "\"\n$maxRetries = 5\n$retryCount = 0\n\nStart-Sleep -Seconds 20\n\nif (Test-Connection -ComputerName $internalDomain -Count 2 -Quiet) { exit 0 }\n\ndo {\n    $retryCount++\n    rasdial \"$vpnName\"\n    $status = Get-VpnConnection -Name \"$vpnName\" -ErrorAction SilentlyContinue\n    if ($status.ConnectionStatus -eq 'Connected') { exit 0 }\n    Start-Sleep -Seconds 10\n} while ($retryCount -lt $maxRetries)\nexit 1\n"@
}

/// Renders the boot-trigger connection script.
pub fn boot_connect_script(vpn_name: &str, dns_suffix: &str) -> (r: String)
    ensures
        r@ == boot_connect_script_spec(vpn_name@, dns_suffix@),
{
    let mut r = String::from_str("\n$vpnName = \"");
    r.append(vpn_name);
    r.append("\"\n$internalDomain = \"");
    r.append(dns_suffix);
    r.append(
        "\"\n$maxRetries = 5\n$retryCount = 0\n\nStart-Sleep -Seconds 20\n\nif (Test-Connection -ComputerName $internalDomain -Count 2 -Quiet) { exit 0 }\n\ndo {\n    $retryCount++\n    rasdial \"$vpnName\"\n    $status = Get-VpnConnection -Name \"$vpnName\" -ErrorAction SilentlyContinue\n    if ($status.ConnectionStatus -eq 'Connected') { exit 0 }\n    Start-Sleep -Seconds 10\n} while ($retryCount -lt $maxRetries)\nexit 1\n",
    );
    r
}

/// The scheduler path the workaround task is registered under: a company
/// folder holding one task named after the device tunnel.
pub open spec fn boot_task_path_spec(prefix: Seq<char>) -> Seq<char> {
    "\\"@ + prefix + "\\Start "@ + prefix + " Device Tunnel"@
}

/// Renders the workaround task's scheduler path for `config`.
pub fn boot_task_path(config: &VpnConfig) -> (r: String)
    ensures
        r@ == boot_task_path_spec(config.company_prefix@),
{
    let mut r = String::from_str("\\");
    r.append(config.company_prefix.as_str());
    r.append("\\Start ");
    r.append(config.company_prefix.as_str());
    r.append(" Device Tunnel");
    r
}

/// The raw dial arguments that disconnect a tunnel by name.
pub open spec fn rasdial_disconnect_args_spec(name: Seq<char>) -> Seq<char> {
    "\""@ + name + "\" /disconnect"@
}

/// Renders the dial arguments that disconnect the named tunnel.
pub fn rasdial_disconnect_args(name: &str) -> (r: String)
    ensures
        r@ == rasdial_disconnect_args_spec(name@),
{
    let mut r = String::from_str("\"");
    r.append(name);
    r.append("\" /disconnect");
    r
}

/// The raw dial arguments that connect a tunnel by name.
pub open spec fn rasdial_connect_args_spec(name: Seq<char>) -> Seq<char> {
    "\""@ + name + "\""@
}

/// Renders the dial arguments that connect the named tunnel.
pub fn rasdial_connect_args(name: &str) -> (r: String)
    ensures
        r@ == rasdial_connect_args_spec(name@),
{
    let mut r = String::from_str("\"");
    r.append(name);
    r.append("\"");
    r
}

/// The registry script that sets or clears both revocation-check overrides.
pub open spec fn sstp_revocation_script_spec(disable: bool) -> Seq<char> {
    "New-ItemProperty -Path 'HKLM:\\SYSTEM\\CurrentControlSet\\Services\\SstpSvc\\Parameters' -Name 'NoCertRevocationCheck' -PropertyType DWord -Value "@
        + (if disable {
        "1"@
    } else {
        "0"@
    })
        + " -Force; New-ItemProperty -Path 'HKLM:\\System\\CurrentControlSet\\Services\\RemoteAccess\\Parameters' -Name 'IgnoreRevocationOffline' -PropertyType DWord -Value "@
        + (if disable {
        "1"@
    } else {
        "0"@
    }) + " -Force"@
}

/// Renders the revocation-override registry script; both keys are set to the
/// same value, one under each service the platform documentation names.
pub fn sstp_revocation_script(disable: bool) -> (r: String)
    ensures
        r@ == sstp_revocation_script_spec(disable),
{
    let mut r = String::from_str(
        "New-ItemProperty -Path 'HKLM:\\SYSTEM\\CurrentControlSet\\Services\\SstpSvc\\Parameters' -Name 'NoCertRevocationCheck' -PropertyType DWord -Value ",
    );
    if disable {
        r.append("1");
    } else {
        r.append("0");
    }
    r.append(
        " -Force; New-ItemProperty -Path 'HKLM:\\System\\CurrentControlSet\\Services\\RemoteAccess\\Parameters' -Name 'IgnoreRevocationOffline' -PropertyType DWord -Value ",
    );
    if disable {
        r.append("1");
    } else {
        r.append("0");
    }
    r.append(" -Force");
    r
}

/// The success narrative for the revocation override, naming the state set.
pub fn sstp_success_message(disable: bool) -> (r: String)
    ensures
        disable ==> r@ == "SSTP Revocation Check successfully set to disable = true"@,
        !disable ==> r@ == "SSTP Revocation Check successfully set to disable = false"@,
{
    if disable {
        String::from_str("SSTP Revocation Check successfully set to disable = true")
    } else {
        String::from_str("SSTP Revocation Check successfully set to disable = false")
    }
}

/// Reads the revocation-override state from the registry query's trimmed
/// output: enabled exactly when the value read back is `1`.
pub fn revocation_flag_from_output(trimmed: &str) -> (r: bool)
    ensures
        r == (trimmed@ == "1"@),
{
    proof {
        reveal_strlit("1");
    }
    let n = trimmed.unicode_len();
    if n == 1 {
        let c = trimmed.get_char(0);
        proof {
            if c == '1' {
                assert(trimmed@ =~= "1"@);
            }
        }
        c == '1'
    } else {
        false
    }
}

/// The task name used by one operation; distinct per operation so that
/// different operations never collide in the scheduler namespace.
pub fn deploy_device_task_name() -> (r: &'static str)
    ensures
        r@ == "TempDeployDeviceTunnel"@,
{
    "TempDeployDeviceTunnel"
}

/// The task name for disconnecting the device tunnel.
pub fn disconnect_device_task_name() -> (r: &'static str)
    ensures
        r@ == "TempDisconnectDeviceTunnel"@,
{
    "TempDisconnectDeviceTunnel"
}

/// The task name for connecting the device tunnel.
pub fn connect_device_task_name() -> (r: &'static str)
    ensures
        r@ == "TempConnectDeviceTunnel"@,
{
    "TempConnectDeviceTunnel"
}

/// The task name for removing the device tunnel's management object.
pub fn remove_device_wmi_task_name() -> (r: &'static str)
    ensures
        r@ == "TempRemoveDeviceWMI"@,
{
    "TempRemoveDeviceWMI"
}

/// The task name for removing the device tunnel's network entry.
pub fn remove_device_net_task_name() -> (r: &'static str)
    ensures
        r@ == "TempRemoveDeviceTunnelNet"@,
{
    "TempRemoveDeviceTunnelNet"
}

} // verus!
