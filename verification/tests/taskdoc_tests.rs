use aovpn_manager::ops::run_as_system_task_request;
use aovpn_manager::ops::run_cmd_as_system_request;
use aovpn_manager::taskdoc::ElevatedTaskSpec;
use aovpn_manager::taskdoc::TaskTrigger;
use aovpn_manager::taskdoc::build_task_document;

fn unescape(s: &str) -> String {
    s.replace("&lt;", "<")
        .replace("&gt;", ">")
        .replace("&quot;", "\"")
        .replace("&amp;", "&")
}

fn element_body<'a>(doc: &'a str, open: &str, close: &str) -> &'a str {
    let start = doc.find(open).expect("opening tag missing") + open.len();
    let end = doc.find(close).expect("closing tag missing");
    &doc[start..end]
}

#[test]
fn command_document_carries_the_literal_arguments() {
    // One on-demand exec action; its arguments, read back through
    // XML-unescaping, are exactly the raw argument string.
    let raw = "\"Acme Device Tunnel\" /disconnect";
    let spec = run_cmd_as_system_request("T1", "rasdial.exe", raw);
    assert_eq!(spec.task_name, "T1");
    let doc = build_task_document(&spec);
    assert_eq!(doc.matches("<Exec>").count(), 1);
    assert_eq!(element_body(&doc, "<Command>", "</Command>"), "rasdial.exe");
    let args = element_body(&doc, "<Arguments>", "</Arguments>");
    assert_eq!(args, "&quot;Acme Device Tunnel&quot; /disconnect");
    assert_eq!(unescape(args), raw);
}

#[test]
fn immediate_document_has_empty_triggers() {
    let spec = run_cmd_as_system_request("T1", "rasdial.exe", "x");
    let doc = build_task_document(&spec);
    assert!(doc.contains("<Triggers />"));
    assert!(!doc.contains("<BootTrigger>"));
}

#[test]
fn principal_is_always_system_at_highest_run_level() {
    let spec = run_cmd_as_system_request("T1", "cmd.exe", "/c echo");
    let doc = build_task_document(&spec);
    assert!(doc.contains("<UserId>S-1-5-18</UserId>"));
    assert!(doc.contains("<RunLevel>HighestAvailable</RunLevel>"));
}

#[test]
fn document_reflects_visibility_and_time_ceiling() {
    let spec = run_cmd_as_system_request("T1", "cmd.exe", "/c echo");
    let doc = build_task_document(&spec);
    assert!(doc.contains("<Hidden>true</Hidden>"));
    assert!(doc.contains("<ExecutionTimeLimit>PT1H</ExecutionTimeLimit>"));

    let script_spec = run_as_system_task_request("T2", "Write-Host hi");
    let script_doc = build_task_document(&script_spec);
    assert!(script_doc.contains("<Hidden>false</Hidden>"));
}

#[test]
fn document_renders_multi_digit_time_ceiling() {
    let spec = ElevatedTaskSpec {
        task_name: "T".to_string(),
        command: "cmd.exe".to_string(),
        arguments: "".to_string(),
        trigger: TaskTrigger::Immediate,
        hidden: false,
        timeout_hours: 12,
        wait_millis: 0,
        success_message: "done".to_string(),
    };
    let doc = build_task_document(&spec);
    assert!(doc.contains("<ExecutionTimeLimit>PT12H</ExecutionTimeLimit>"));
}

#[test]
fn script_document_embeds_the_encoded_command_unaltered() {
    let spec = run_as_system_task_request("T3", "Write-Host \"<&>\"");
    let doc = build_task_document(&spec);
    let args = element_body(&doc, "<Arguments>", "</Arguments>");
    let encoded = args
        .strip_prefix("-NoProfile -NonInteractive -ExecutionPolicy Bypass -EncodedCommand ")
        .expect("interpreter flags missing");
    // The payload is pure base64: XML escaping left it untouched.
    assert!(encoded
        .chars()
        .all(|c| c.is_ascii_alphanumeric() || c == '+' || c == '/' || c == '='));
    assert_eq!(
        aovpn_manager::payload::encode_powershell_script("Write-Host \"<&>\""),
        encoded
    );
}

#[test]
fn document_declares_utf16_and_schema() {
    let spec = run_cmd_as_system_request("T1", "cmd.exe", "");
    let doc = build_task_document(&spec);
    assert!(doc.starts_with("<?xml version=\"1.0\" encoding=\"UTF-16\"?>"));
    assert!(doc.contains(
        "<Task version=\"1.2\" xmlns=\"http://schemas.microsoft.com/windows/2004/02/mit/task\">"
    ));
    assert!(doc.ends_with("</Task>"));
}
