//! Registering the bundled native-messaging bridge with the browsers.

use vstd::prelude::*;
use crate::bridge::media::{push_string, string_views};
use crate::platform::Platform;
use crate::text::{cat, to_chars, trim, trim_chars, from_chars};
use crate::trusted::{path_join, spec_join};

verus! {

/// The extension origin the desktop build registers the bridge for.
pub fn beta_extension_origin() -> (r: &'static str)
    ensures
        r@ == "chrome-extension://hlingdbecfefhglkbballggindegcmik/"@,
{
    "chrome-extension://hlingdbecfefhglkbballggindegcmik/"
}

/// The file names the bundled bridge may have next to the executable, in
/// the order they are tried: the plain name, then the name with the target
/// triple. No names on an unsupported platform.
pub open spec fn spec_bridge_names(platform: Platform) -> Seq<Seq<char>> {
    match platform {
        Platform::WindowsX64 => seq!["khukri-bridge.exe"@, "khukri-bridge-x86_64-pc-windows-msvc.exe"@],
        Platform::MacosArm64 => seq!["khukri-bridge"@, "khukri-bridge-aarch64-apple-darwin"@],
        Platform::MacosX64 => seq!["khukri-bridge"@, "khukri-bridge-x86_64-apple-darwin"@],
        Platform::LinuxX64 => seq!["khukri-bridge"@, "khukri-bridge-x86_64-unknown-linux-gnu"@],
        Platform::Other => Seq::empty(),
    }
}

pub fn bridge_names(platform: Platform) -> (r: Vec<&'static str>)
    ensures
        r@.len() == spec_bridge_names(platform).len(),
        forall|i: int| 0 <= i < r@.len() ==> (#[trigger] r@[i])@ == spec_bridge_names(platform)[i],
{
    match platform {
        Platform::WindowsX64 => vec!["khukri-bridge.exe", "khukri-bridge-x86_64-pc-windows-msvc.exe"],
        Platform::MacosArm64 => vec!["khukri-bridge", "khukri-bridge-aarch64-apple-darwin"],
        Platform::MacosX64 => vec!["khukri-bridge", "khukri-bridge-x86_64-apple-darwin"],
        Platform::LinuxX64 => vec!["khukri-bridge", "khukri-bridge-x86_64-unknown-linux-gnu"],
        Platform::Other => Vec::new(),
    }
}

/// The paths tried for the bridge: each name of `bridge_names` in the
/// executable's directory.
pub fn bridge_candidate_paths(directory: &str, platform: Platform) -> (r: Vec<String>)
    ensures
        string_views(r@) == spec_bridge_names(platform).map_values(|n: Seq<char>| spec_join(directory@, n)),
{
    let names = bridge_names(platform);
    let mut out: Vec<String> = Vec::new();
    let mut i: usize = 0;
    while i < names.len()
        invariant
            i <= names.len(),
            names@.len() == spec_bridge_names(platform).len(),
            forall|k: int| 0 <= k < names@.len() ==> (#[trigger] names@[k])@ == spec_bridge_names(platform)[k],
            string_views(out@) == spec_bridge_names(platform).subrange(0, i as int).map_values(
                |n: Seq<char>| spec_join(directory@, n),
            ),
        decreases names.len() - i,
    {
        let p = path_join(directory, names[i]);
        push_string(&mut out, p);
        assert(spec_bridge_names(platform).subrange(0, i + 1) =~= spec_bridge_names(platform).subrange(
            0,
            i as int,
        ).push(spec_bridge_names(platform)[i as int]));
        i = i + 1;
    }
    assert(spec_bridge_names(platform).subrange(0, names.len() as int) =~= spec_bridge_names(platform));
    out
}

/// The error when none of the bridge names exists beside the executable.
pub fn missing_bridge_message(executable: &str) -> (r: String)
    ensures
        r@ == "bundled native bridge was not found next to "@ + executable@,
{
    cat("bundled native bridge was not found next to ", executable)
}

/// The error when the bridge ran and reported failure on its error stream.
pub fn registration_failure_message(stderr: &str) -> (r: String)
    ensures
        r@ == "native host registration failed: "@ + trim(stderr@),
{
    let c = to_chars(stderr);
    let t = trim_chars(c.as_slice());
    let tail = from_chars(t.as_slice());
    cat("native host registration failed: ", tail.as_str())
}

} // verus!
