//! Registering the bridge as the browser's native-messaging host.

use vstd::prelude::*;
use crate::platform::Platform;
use crate::text::{cat, contains, contains_str, eq_str, has_prefix, owned, starts_with, to_chars};
use crate::trusted::{path_join, path_parent, spec_join, spec_parent};

verus! {

pub open spec fn placeholder_origin() -> Seq<char> {
    "chrome-extension://replace-with-your-extension-id/"@
}

pub open spec fn args_request_registration(args: Seq<String>) -> bool {
    exists|i: int| 0 <= i < args.len() && ((#[trigger] args[i])@ == "--register"@ || args[i]@ == "--repair"@)
}

/// Whether the command line asks to register (or repair) the host.
pub fn requested(args: &[String]) -> (r: bool)
    ensures
        r == args_request_registration(args@),
{
    let mut i: usize = 0;
    while i < args.len()
        invariant
            i <= args.len(),
            forall|j: int| 0 <= j < i ==> !((#[trigger] args@[j])@ == "--register"@ || args@[j]@ == "--repair"@),
        decreases args.len() - i,
    {
        let c = to_chars(args[i].as_str());
        if eq_str(c.as_slice(), "--register") || eq_str(c.as_slice(), "--repair") {
            return true;
        }
        i = i + 1;
    }
    false
}

/// Why an extension origin is refused, if it is.
pub open spec fn origin_error(origin: Seq<char>) -> Option<Seq<char>> {
    if origin == placeholder_origin() || contains(origin, "replace-with-your-extension-id"@) {
        Some(
            "KHUKRI_EXTENSION_ORIGIN is not set. Set it to your extension's chrome-extension://<id>/ origin before registering."@,
        )
    } else if !starts_with(origin, "chrome-extension://"@) && !starts_with(origin, "moz-extension://"@) {
        Some(
            "KHUKRI_EXTENSION_ORIGIN must start with chrome-extension:// or moz-extension://, got: "@
                + origin,
        )
    } else {
        None
    }
}

/// Accepts Chrome and Firefox extension origins; refuses the placeholder
/// origin and any other scheme.
pub fn validate_extension_origin(origin: &str) -> (r: Result<(), String>)
    ensures
        match origin_error(origin@) {
            Some(m) => r matches Err(e) && e@ == m,
            None => r is Ok,
        },
{
    let c = to_chars(origin);
    if eq_str(c.as_slice(), "chrome-extension://replace-with-your-extension-id/") || contains_str(
        c.as_slice(),
        "replace-with-your-extension-id",
    ) {
        return Err(
            owned(
                "KHUKRI_EXTENSION_ORIGIN is not set. Set it to your extension's chrome-extension://<id>/ origin before registering.",
            ),
        );
    }
    if !has_prefix(c.as_slice(), "chrome-extension://") && !has_prefix(c.as_slice(), "moz-extension://") {
        return Err(
            cat("KHUKRI_EXTENSION_ORIGIN must start with chrome-extension:// or moz-extension://, got: ", origin),
        );
    }
    Ok(())
}

/// The origin to allow: `KHUKRI_EXTENSION_ORIGIN` when set (else the
/// placeholder), if it is acceptable.
pub fn extension_origin(env_value: Option<&str>) -> (r: Result<String, String>)
    ensures
        ({
            let o = match env_value {
                Some(v) => v@,
                None => placeholder_origin(),
            };
            match origin_error(o) {
                Some(m) => r matches Err(e) && e@ == m,
                None => r matches Ok(s) && s@ == o,
            }
        }),
{
    let origin = match env_value {
        Some(v) => v,
        None => "chrome-extension://replace-with-your-extension-id/",
    };
    validate_extension_origin(origin)?;
    Ok(owned(origin))
}

/// The native-messaging host manifest.
#[derive(Debug, Clone)]
pub struct HostManifest {
    pub name: String,
    pub description: String,
    pub path: String,
    pub host_type: String,
    pub allowed_origins: Vec<String>,
}

/// The manifest for the bridge at `binary_path`, allowing the configured
/// extension origin.
pub fn native_host_manifest(binary_path: &str, origin_env: Option<&str>) -> (r: Result<HostManifest, String>)
    ensures
        ({
            let o = match origin_env {
                Some(v) => v@,
                None => placeholder_origin(),
            };
            match origin_error(o) {
                Some(m) => r matches Err(e) && e@ == m,
                None => r matches Ok(h) && h.name@ == "com.khukri.host"@ && h.description@
                    == "Khukri Native Messaging Host"@ && h.path@ == binary_path@ && h.host_type@ == "stdio"@
                    && h.allowed_origins@.len() == 1 && h.allowed_origins@[0]@ == o,
            }
        }),
{
    let origin = extension_origin(origin_env)?;
    let mut origins: Vec<String> = Vec::new();
    origins.push(origin);
    Ok(
        HostManifest {
            name: owned("com.khukri.host"),
            description: owned("Khukri Native Messaging Host"),
            path: owned(binary_path),
            host_type: owned("stdio"),
            allowed_origins: origins,
        },
    )
}

/// What registering on this platform does: create `create_dir` (if any),
/// then write `manifest` (or fail with its error) to `manifest_path`, then
/// point the registry key (if any) at the manifest.
#[derive(Debug)]
pub struct RegistrationPlan {
    pub create_dir: Option<String>,
    pub manifest_path: String,
    pub manifest: Result<HostManifest, String>,
    pub registry_key: Option<String>,
}

/// Chrome's per-user host directory under `home`, on Linux and macOS.
pub open spec fn chrome_host_dir(platform: Platform, home: Seq<char>) -> Seq<char> {
    if platform is LinuxX64 {
        spec_join(spec_join(spec_join(home, ".config"@), "google-chrome"@), "NativeMessagingHosts"@)
    } else {
        spec_join(
            spec_join(spec_join(spec_join(spec_join(home, "Library"@), "Application Support"@), "Google"@), "Chrome"@),
            "NativeMessagingHosts"@,
        )
    }
}

/// Law: on Linux the host manifest goes into Google Chrome's per-user host
/// directory, `~/.config/google-chrome/NativeMessagingHosts`, and on macOS
/// into `~/Library/Application Support/Google/Chrome/NativeMessagingHosts`.
pub proof fn lemma_chrome_host_dirs(home: Seq<char>)
    ensures
        chrome_host_dir(Platform::LinuxX64, home) == spec_join(
            spec_join(spec_join(home, ".config"@), "google-chrome"@),
            "NativeMessagingHosts"@,
        ),
        chrome_host_dir(Platform::MacosArm64, home) == spec_join(
            spec_join(spec_join(spec_join(spec_join(home, "Library"@), "Application Support"@), "Google"@), "Chrome"@),
            "NativeMessagingHosts"@,
        ),
        chrome_host_dir(Platform::MacosX64, home) == chrome_host_dir(Platform::MacosArm64, home),
{
}

/// Registering the bridge at `binary_path`: on Windows the manifest goes
/// next to the binary and a registry key names it; on Linux and macOS it
/// goes into Chrome's per-user host directory under `home`.
pub fn register(binary_path: &str, platform: Platform, home: Option<&str>, origin_env: Option<&str>) -> (r: Result<RegistrationPlan, String>)
    ensures
        match platform {
            Platform::WindowsX64 => match spec_parent(binary_path@) {
                None => r matches Err(e) && e@ == "bridge binary has no parent directory"@,
                Some(dir) => r matches Ok(p) && p.create_dir.is_none() && p.manifest_path@ == spec_join(
                    dir,
                    "com.khukri.host.json"@,
                ) && p.registry_key.is_some() && p.registry_key.unwrap()@
                    == "HKCU\\Software\\Google\\Chrome\\NativeMessagingHosts\\com.khukri.host"@,
            },
            Platform::LinuxX64 | Platform::MacosX64 | Platform::MacosArm64 => match home {
                None => r matches Err(e) && e@ == "HOME is not set"@,
                Some(h) => r matches Ok(p) && p.create_dir.is_some()
                    && p.create_dir.unwrap()@ == chrome_host_dir(platform, h@) && p.manifest_path@
                    == spec_join(chrome_host_dir(platform, h@), "com.khukri.host.json"@)
                    && p.registry_key.is_none(),
            },
            Platform::Other => r matches Err(e) && e@ == "native host registration is not implemented for this platform"@,
        },
        r matches Ok(p) ==> ({
            let o = match origin_env {
                Some(v) => v@,
                None => placeholder_origin(),
            };
            match origin_error(o) {
                Some(m) => p.manifest matches Err(e) && e@ == m,
                None => p.manifest matches Ok(h) && h.path@ == binary_path@ && h.allowed_origins@.len() == 1
                    && h.allowed_origins@[0]@ == o,
            }
        }),
{
    match platform {
        Platform::WindowsX64 => {
            let dir = match path_parent(binary_path) {
                Some(d) => d,
                None => {
                    return Err(owned("bridge binary has no parent directory"));
                },
            };
            let manifest_path = path_join(dir.as_str(), "com.khukri.host.json");
            Ok(
                RegistrationPlan {
                    create_dir: None,
                    manifest_path,
                    manifest: native_host_manifest(binary_path, origin_env),
                    registry_key: Some(owned("HKCU\\Software\\Google\\Chrome\\NativeMessagingHosts\\com.khukri.host")),
                },
            )
        },
        Platform::LinuxX64 | Platform::MacosX64 | Platform::MacosArm64 => {
            let h = match home {
                Some(h) => h,
                None => {
                    return Err(owned("HOME is not set"));
                },
            };
            let dir = if platform == Platform::LinuxX64 {
                let a = path_join(h, ".config");
                let b = path_join(a.as_str(), "google-chrome");
                path_join(b.as_str(), "NativeMessagingHosts")
            } else {
                let a = path_join(h, "Library");
                let b = path_join(a.as_str(), "Application Support");
                let c = path_join(b.as_str(), "Google");
                let d = path_join(c.as_str(), "Chrome");
                path_join(d.as_str(), "NativeMessagingHosts")
            };
            let manifest_path = path_join(dir.as_str(), "com.khukri.host.json");
            Ok(
                RegistrationPlan {
                    create_dir: Some(dir),
                    manifest_path,
                    manifest: native_host_manifest(binary_path, origin_env),
                    registry_key: None,
                },
            )
        },
        Platform::Other => Err(owned("native host registration is not implemented for this platform")),
    }
}

} // verus!
