use aovpn_manager::export::check_export_path;
use aovpn_manager::export::export_success_message;
use aovpn_manager::export::export_write_failure;

#[test]
fn txt_destination_is_rejected_with_the_validation_error() {
    // A rejected destination: the caller must not touch the filesystem.
    let r = check_export_path("C:\\out\\cfg.txt");
    assert_eq!(r, Err("Only .json files are allowed for export.".to_string()));
}

#[test]
fn json_destination_is_accepted_and_the_message_names_the_path() {
    assert_eq!(check_export_path("C:\\out\\cfg.json"), Ok(()));
    assert_eq!(
        export_success_message("C:\\out\\cfg.json"),
        "Configuration successfully exported to: C:\\out\\cfg.json"
    );
}

#[test]
fn extension_check_ignores_letter_case() {
    assert_eq!(check_export_path("C:\\out\\CFG.JSON"), Ok(()));
    assert_eq!(check_export_path("C:\\out\\cfg.JsOn"), Ok(()));
}

#[test]
fn short_and_near_miss_paths_are_rejected() {
    assert!(check_export_path("").is_err());
    assert!(check_export_path("json").is_err());
    assert!(check_export_path("cfg_json").is_err());
    assert!(check_export_path("cfg.json.bak").is_err());
}

#[test]
fn bare_extension_is_accepted() {
    assert_eq!(check_export_path(".json"), Ok(()));
}

#[test]
fn write_failure_wraps_the_filesystem_error() {
    assert_eq!(
        export_write_failure("Zugriff verweigert (os error 5)"),
        "Failed to write config: Zugriff verweigert (os error 5)"
    );
}
