use std::path::PathBuf;
use tui_kit::storage::secret::{storage_diagnostic, unsupported_platform_message, SecretPlatform, SecretProbes, SecretStore};
use tui_kit::storage::session::SessionFlags;
use tui_kit::storage::time::is_expired_at;

fn store() -> SecretStore {
    SecretStore::new("svc", "Label", "APP", PathBuf::from("/tmp/x"))
}

#[test]
fn expiry() {
    assert!(is_expired_at(100, 50, 30));
    assert!(!is_expired_at(100, 50, 50));
    assert!(!is_expired_at(10, 50, 0));
    assert!(is_expired_at(200, 50, 30));
}

#[test]
fn session_flags() {
    let flags = SessionFlags::default();
    assert!(!flags.auto_login);
    assert!(flags.with_auto_login(true).auto_login);
    assert!(!flags.with_auto_login(true).with_auto_login(false).auto_login);
}

#[test]
fn secret_commands_per_platform() {
    let s = store();
    let c = s.save_command(SecretPlatform::MacOs, "me", "pw").unwrap();
    assert_eq!(c.program, "security");
    assert_eq!(c.args, vec!["add-generic-password", "-a", "me", "-s", "svc", "-w", "pw", "-U"]);
    assert_eq!(c.input, None);
    let c = s.save_command(SecretPlatform::Linux, "me", "pw").unwrap();
    assert_eq!(c.program, "secret-tool");
    assert_eq!(c.args, vec!["store", "--label", "Label", "service", "svc", "account", "me"]);
    assert_eq!(c.input, Some("pw".to_string()));
    assert!(s.save_command(SecretPlatform::Windows, "me", "pw").is_none());
    let c = s.load_command(SecretPlatform::Linux, "me").unwrap();
    assert_eq!(c.args, vec!["lookup", "service", "svc", "account", "me"]);
    let c = s.load_command(SecretPlatform::MacOs, "me").unwrap();
    assert_eq!(c.args, vec!["find-generic-password", "-a", "me", "-s", "svc", "-w"]);
    let c = s.clear_command(SecretPlatform::MacOs, "me").unwrap();
    assert_eq!(c.args, vec!["delete-generic-password", "-a", "me", "-s", "svc"]);
    let c = s.clear_command(SecretPlatform::Linux, "me").unwrap();
    assert_eq!(c.args, vec!["clear", "service", "svc", "account", "me"]);
    assert!(s.clear_command(SecretPlatform::Other, "me").is_none());
}

#[test]
fn secret_scripts_name_their_variable() {
    let s = store();
    assert_eq!(s.env_name("X"), "APP_X");
    let (env, script) = s.encrypt_script();
    assert_eq!(env, "APP_SECRET");
    assert!(script.contains("GetBytes($env:APP_SECRET);"));
    assert!(script.ends_with("[Convert]::ToBase64String($enc)"));
    let (env, script) = s.decrypt_script();
    assert_eq!(env, "APP_SECRET_B64");
    assert!(script.contains("FromBase64String($env:APP_SECRET_B64);"));
}

#[test]
fn diagnostics() {
    let ok = SecretProbes { tool_found: true, shell_found: true, shell_ready: true };
    let none = SecretProbes { tool_found: false, shell_found: false, shell_ready: false };
    let d = storage_diagnostic(SecretPlatform::Linux, ok, "linux");
    assert!(d.available);
    assert_eq!(d.message, "");
    let d = storage_diagnostic(SecretPlatform::Linux, none, "linux");
    assert!(!d.available);
    assert!(d.message.starts_with("Install 'secret-tool'"));
    let d = storage_diagnostic(SecretPlatform::Windows, SecretProbes { tool_found: false, shell_found: true, shell_ready: false }, "windows");
    assert!(d.message.starts_with("Windows secure storage initialization failed"));
    let d = storage_diagnostic(SecretPlatform::Other, ok, "plan9");
    assert!(!d.available);
    assert_eq!(d.message, "Secure password storage is not supported on platform 'plan9'.");
    assert_eq!(unsupported_platform_message("plan9"), "Unsupported platform 'plan9' for secure password storage");
}
