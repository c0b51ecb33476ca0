//! Passwords in the platform's secret store: which commands store, look up
//! and clear them, the scripts that protect them on Windows, and what the
//! availability checks mean to the user.

use vstd::prelude::*;
use std::path::PathBuf;

verus! {

/// `std::path::PathBuf`, carried as the directory of the secrets file.
#[verifier::external_type_specification]
#[verifier::external_body]
pub struct ExPathBuf(PathBuf);

/// `<PathBuf as Clone>::clone`, for the derived `Clone` of `SecretStore`.
/// Nothing is stated of the copy.
pub assume_specification[ <PathBuf as Clone>::clone ](path: &PathBuf) -> PathBuf;

/// Whether the secret store can be used, and if not, why.
#[derive(Debug, Clone)]
pub struct SecretStorageDiagnostic {
    pub available: bool,
    pub message: String,
}

/// Where passwords are kept for one application.
#[derive(Debug, Clone)]
pub struct SecretStore {
    pub service: String,
    pub label: String,
    pub env_prefix: String,
    pub config_dir: PathBuf,
}

/// The platforms with a secret store, and the rest.
#[derive(Debug, Clone, Copy, PartialEq, Eq, Structural)]
pub enum SecretPlatform {
    /// The Keychain, through the `security` tool.
    MacOs,
    /// libsecret, through the `secret-tool` tool.
    Linux,
    /// DPAPI through PowerShell, with the protected passwords in a file.
    Windows,
    Other,
}

/// A program to run: its arguments, and the text to write to its input.
#[derive(Debug, Clone)]
pub struct SecretCommand {
    pub program: String,
    pub args: Vec<String>,
    pub input: Option<String>,
}

/// The results of the availability checks of the secret store.
#[derive(Debug, Clone, Copy, PartialEq, Eq, Structural)]
pub struct SecretProbes {
    /// Whether the platform's tool (`security` or `secret-tool`) was found.
    pub tool_found: bool,
    /// Whether a PowerShell executable was found.
    pub shell_found: bool,
    /// Whether PowerShell loaded `System.Security`.
    pub shell_ready: bool,
}

/// The texts of `strings`.
pub open spec fn texts(strings: Seq<String>) -> Seq<Seq<char>> {
    strings.map_values(|s: String| s@)
}

fn push_text(v: &mut Vec<String>, s: &str)
    ensures
        texts(final(v)@) == texts(old(v)@).push(s@),
{
    let ghost before = v@;
    v.push(String::from_str(s));
    assert(texts(v@) =~= texts(before).push(s@));
}

/// `a`, `b` and `c` one after the other.
fn concat3(a: &str, b: &str, c: &str) -> (r: String)
    ensures
        r@ == a@ + b@ + c@,
{
    let mut r = String::from_str(a);
    r.append(b);
    r.append(c);
    r
}

/// The diagnostic that says the secret store is available.
fn available() -> (d: SecretStorageDiagnostic)
    ensures
        d.available,
        d.message@ == Seq::<char>::empty(),
{
    SecretStorageDiagnostic { available: true, message: String::new() }
}

fn unavailable(message: &str) -> (d: SecretStorageDiagnostic)
    ensures
        !d.available,
        d.message@ == message@,
{
    SecretStorageDiagnostic { available: false, message: String::from_str(message) }
}

/// What the availability checks on `platform` mean; `os` names the platform
/// in the message of an unsupported one.
pub fn storage_diagnostic(platform: SecretPlatform, probes: SecretProbes, os: &str) -> (d:
    SecretStorageDiagnostic)
    ensures
        d.available == match platform {
            SecretPlatform::MacOs | SecretPlatform::Linux => probes.tool_found,
            SecretPlatform::Windows => probes.shell_found && probes.shell_ready,
            SecretPlatform::Other => false,
        },
        d.available ==> d.message@ == Seq::<char>::empty(),
        !d.available ==> d.message@ == match platform {
            SecretPlatform::MacOs =>
                "macOS Keychain CLI not found; auto-login password storage is unavailable."@,
            SecretPlatform::Linux =>
                "Install 'secret-tool' (libsecret) to enable secure password storage and auto-login."@,
            SecretPlatform::Windows => if !probes.shell_found {
                "PowerShell (powershell.exe or pwsh) is required for secure password storage and auto-login."@
            } else {
                "Windows secure storage initialization failed (System.Security unavailable in PowerShell)."@
            },
            SecretPlatform::Other => "Secure password storage is not supported on platform '"@
                + os@ + "'."@,
        },
{
    match platform {
        SecretPlatform::MacOs => {
            if !probes.tool_found {
                return unavailable(
                    "macOS Keychain CLI not found; auto-login password storage is unavailable.",
                );
            }
            available()
        },
        SecretPlatform::Linux => {
            if !probes.tool_found {
                return unavailable(
                    "Install 'secret-tool' (libsecret) to enable secure password storage and auto-login.",
                );
            }
            available()
        },
        SecretPlatform::Windows => {
            if !probes.shell_found {
                return unavailable(
                    "PowerShell (powershell.exe or pwsh) is required for secure password storage and auto-login.",
                );
            }
            if !probes.shell_ready {
                return unavailable(
                    "Windows secure storage initialization failed (System.Security unavailable in PowerShell).",
                );
            }
            available()
        },
        SecretPlatform::Other => {
            let message = concat3(
                "Secure password storage is not supported on platform '",
                os,
                "'.",
            );
            SecretStorageDiagnostic { available: false, message }
        },
    }
}

/// The error text of a save on a platform without a secret store.
pub fn unsupported_platform_message(os: &str) -> (r: String)
    ensures
        r@ == "Unsupported platform '"@ + os@ + "' for secure password storage"@,
{
    concat3("Unsupported platform '", os, "' for secure password storage")
}

impl SecretStore {
    pub fn new(service: &str, label: &str, env_prefix: &str, config_dir: PathBuf) -> (r: Self)
        ensures
            r.service@ == service@,
            r.label@ == label@,
            r.env_prefix@ == env_prefix@,
            r.config_dir == config_dir,
    {
        SecretStore {
            service: String::from_str(service),
            label: String::from_str(label),
            env_prefix: String::from_str(env_prefix),
            config_dir,
        }
    }

    /// The name of the environment variable `<env_prefix>_<suffix>`.
    pub fn env_name(&self, suffix: &str) -> (r: String)
        ensures
            r@ == self.env_prefix@ + seq!['_'] + suffix@,
    {
        let mut r = self.env_prefix.clone();
        crate::strings::push_char(&mut r, '_');
        r.append(suffix);
        r
    }

    /// The command that stores `password` for `account_key`, on the platforms
    /// whose secret store is a command-line tool.
    pub fn save_command(&self, platform: SecretPlatform, account_key: &str, password: &str) -> (r:
        Option<SecretCommand>)
        ensures
            platform == SecretPlatform::MacOs ==> (r matches Some(c) && c.program@ == "security"@
                && texts(c.args@) == seq![
                "add-generic-password"@,
                "-a"@,
                account_key@,
                "-s"@,
                self.service@,
                "-w"@,
                password@,
                "-U"@,
            ] && c.input is None),
            platform == SecretPlatform::Linux ==> (r matches Some(c) && c.program@
                == "secret-tool"@ && texts(c.args@) == seq![
                "store"@,
                "--label"@,
                self.label@,
                "service"@,
                self.service@,
                "account"@,
                account_key@,
            ] && (c.input matches Some(i) && i@ == password@)),
            platform == SecretPlatform::Windows || platform == SecretPlatform::Other ==> r is None,
    {
        match platform {
            SecretPlatform::MacOs => {
                let mut args: Vec<String> = Vec::new();
                push_text(&mut args, "add-generic-password");
                push_text(&mut args, "-a");
                push_text(&mut args, account_key);
                push_text(&mut args, "-s");
                push_text(&mut args, self.service.as_str());
                push_text(&mut args, "-w");
                push_text(&mut args, password);
                push_text(&mut args, "-U");
                assert(texts(args@) =~= seq![
                    "add-generic-password"@,
                    "-a"@,
                    account_key@,
                    "-s"@,
                    self.service@,
                    "-w"@,
                    password@,
                    "-U"@,
                ]);
                Some(SecretCommand { program: String::from_str("security"), args, input: None })
            },
            SecretPlatform::Linux => {
                let mut args: Vec<String> = Vec::new();
                push_text(&mut args, "store");
                push_text(&mut args, "--label");
                push_text(&mut args, self.label.as_str());
                push_text(&mut args, "service");
                push_text(&mut args, self.service.as_str());
                push_text(&mut args, "account");
                push_text(&mut args, account_key);
                assert(texts(args@) =~= seq![
                    "store"@,
                    "--label"@,
                    self.label@,
                    "service"@,
                    self.service@,
                    "account"@,
                    account_key@,
                ]);
                Some(
                    SecretCommand {
                        program: String::from_str("secret-tool"),
                        args,
                        input: Some(String::from_str(password)),
                    },
                )
            },
            _ => None,
        }
    }

    /// The command that prints the password stored for `account_key`.
    pub fn load_command(&self, platform: SecretPlatform, account_key: &str) -> (r: Option<
        SecretCommand,
    >)
        ensures
            platform == SecretPlatform::MacOs ==> (r matches Some(c) && c.program@ == "security"@
                && texts(c.args@) == seq![
                "find-generic-password"@,
                "-a"@,
                account_key@,
                "-s"@,
                self.service@,
                "-w"@,
            ] && c.input is None),
            platform == SecretPlatform::Linux ==> (r matches Some(c) && c.program@
                == "secret-tool"@ && texts(c.args@) == seq![
                "lookup"@,
                "service"@,
                self.service@,
                "account"@,
                account_key@,
            ] && c.input is None),
            platform == SecretPlatform::Windows || platform == SecretPlatform::Other ==> r is None,
    {
        match platform {
            SecretPlatform::MacOs => {
                let mut args: Vec<String> = Vec::new();
                push_text(&mut args, "find-generic-password");
                push_text(&mut args, "-a");
                push_text(&mut args, account_key);
                push_text(&mut args, "-s");
                push_text(&mut args, self.service.as_str());
                push_text(&mut args, "-w");
                assert(texts(args@) =~= seq![
                    "find-generic-password"@,
                    "-a"@,
                    account_key@,
                    "-s"@,
                    self.service@,
                    "-w"@,
                ]);
                Some(SecretCommand { program: String::from_str("security"), args, input: None })
            },
            SecretPlatform::Linux => {
                let mut args: Vec<String> = Vec::new();
                push_text(&mut args, "lookup");
                push_text(&mut args, "service");
                push_text(&mut args, self.service.as_str());
                push_text(&mut args, "account");
                push_text(&mut args, account_key);
                assert(texts(args@) =~= seq![
                    "lookup"@,
                    "service"@,
                    self.service@,
                    "account"@,
                    account_key@,
                ]);
                Some(SecretCommand { program: String::from_str("secret-tool"), args, input: None })
            },
            _ => None,
        }
    }

    /// The command that removes the password stored for `account_key`.
    pub fn clear_command(&self, platform: SecretPlatform, account_key: &str) -> (r: Option<
        SecretCommand,
    >)
        ensures
            platform == SecretPlatform::MacOs ==> (r matches Some(c) && c.program@ == "security"@
                && texts(c.args@) == seq![
                "delete-generic-password"@,
                "-a"@,
                account_key@,
                "-s"@,
                self.service@,
            ] && c.input is None),
            platform == SecretPlatform::Linux ==> (r matches Some(c) && c.program@
                == "secret-tool"@ && texts(c.args@) == seq![
                "clear"@,
                "service"@,
                self.service@,
                "account"@,
                account_key@,
            ] && c.input is None),
            platform == SecretPlatform::Windows || platform == SecretPlatform::Other ==> r is None,
    {
        match platform {
            SecretPlatform::MacOs => {
                let mut args: Vec<String> = Vec::new();
                push_text(&mut args, "delete-generic-password");
                push_text(&mut args, "-a");
                push_text(&mut args, account_key);
                push_text(&mut args, "-s");
                push_text(&mut args, self.service.as_str());
                assert(texts(args@) =~= seq![
                    "delete-generic-password"@,
                    "-a"@,
                    account_key@,
                    "-s"@,
                    self.service@,
                ]);
                Some(SecretCommand { program: String::from_str("security"), args, input: None })
            },
            SecretPlatform::Linux => {
                let mut args: Vec<String> = Vec::new();
                push_text(&mut args, "clear");
                push_text(&mut args, "service");
                push_text(&mut args, self.service.as_str());
                push_text(&mut args, "account");
                push_text(&mut args, account_key);
                assert(texts(args@) =~= seq![
                    "clear"@,
                    "service"@,
                    self.service@,
                    "account"@,
                    account_key@,
                ]);
                Some(SecretCommand { program: String::from_str("secret-tool"), args, input: None })
            },
            _ => None,
        }
    }

    /// The PowerShell script that protects the text in the environment
    /// variable `<env_prefix>_SECRET` with DPAPI and prints it in Base64,
    /// together with the variable's name.
    pub fn encrypt_script(&self) -> (r: (String, String))
        ensures
            r.0@ == self.env_prefix@ + seq!['_'] + "SECRET"@,
            r.1@ == "Add-Type -AssemblyName System.Security;$bytes=[System.Text.Encoding]::UTF8.GetBytes($env:"@
                + r.0@
                + ");$enc=[System.Security.Cryptography.ProtectedData]::Protect($bytes,$null,[System.Security.Cryptography.DataProtectionScope]::CurrentUser);[Convert]::ToBase64String($enc)"@,
    {
        let env_name = self.env_name("SECRET");
        let script = concat3(
            "Add-Type -AssemblyName System.Security;$bytes=[System.Text.Encoding]::UTF8.GetBytes($env:",
            env_name.as_str(),
            ");$enc=[System.Security.Cryptography.ProtectedData]::Protect($bytes,$null,[System.Security.Cryptography.DataProtectionScope]::CurrentUser);[Convert]::ToBase64String($enc)",
        );
        (env_name, script)
    }

    /// The PowerShell script that unprotects the Base64 text in the
    /// environment variable `<env_prefix>_SECRET_B64` and prints it, together
    /// with the variable's name.
    pub fn decrypt_script(&self) -> (r: (String, String))
        ensures
            r.0@ == self.env_prefix@ + seq!['_'] + "SECRET_B64"@,
            r.1@ == "Add-Type -AssemblyName System.Security;$bytes=[Convert]::FromBase64String($env:"@
                + r.0@
                + ");$dec=[System.Security.Cryptography.ProtectedData]::Unprotect($bytes,$null,[System.Security.Cryptography.DataProtectionScope]::CurrentUser);[System.Text.Encoding]::UTF8.GetString($dec)"@,
    {
        let env_name = self.env_name("SECRET_B64");
        let script = concat3(
            "Add-Type -AssemblyName System.Security;$bytes=[Convert]::FromBase64String($env:",
            env_name.as_str(),
            ");$dec=[System.Security.Cryptography.ProtectedData]::Unprotect($bytes,$null,[System.Security.Cryptography.DataProtectionScope]::CurrentUser);[System.Text.Encoding]::UTF8.GetString($dec)",
        );
        (env_name, script)
    }
}

} // verus!
