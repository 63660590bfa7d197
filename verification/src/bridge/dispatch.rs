//! How the bridge turns a browser request into a download.

use vstd::prelude::*;
use crate::bridge::request::{filename_from_url, sanitize_filename, sanitized, url_filename};
use crate::config::{DownloadConfig, Priority, ThrottleConfig};
use crate::desktop::downloads::configured_proxy_url;
use crate::desktop::settings::AppSettings;
use crate::text::trim;
use crate::trusted::{path_join, spec_join};

verus! {

/// The name a download is saved under: the browser's file name made safe,
/// else the name the URL suggests.
pub open spec fn filename_for(filename: Option<Seq<char>>, url: Seq<char>) -> Seq<char> {
    match filename {
        Some(n) => sanitized(n),
        None => url_filename(url),
    }
}

pub fn resolved_filename(filename: Option<&str>, url: &str) -> (r: String)
    ensures
        r@ == filename_for(crate::text::opt_str(filename), url@),
{
    match filename {
        Some(name) => sanitize_filename(name),
        None => filename_from_url(url),
    }
}

/// The file a browser download is written to: the resolved name inside
/// `output_root`.
pub fn output_path_in(output_root: &str, filename: Option<&str>, url: &str) -> (r: String)
    ensures
        r@ == spec_join(output_root@, filename_for(crate::text::opt_str(filename), url@)),
{
    let name = resolved_filename(filename, url);
    path_join(output_root, name.as_str())
}

/// The engine configuration for a browser download: confined to
/// `output_root`, with the forwarded headers and the user's proxy,
/// bandwidth cap and thread override; everything else as `DownloadConfig::new`
/// sets it.
pub fn bridge_download_config(
    url: String,
    output_root: &str,
    output_path: String,
    headers: Vec<(String, String)>,
    settings: &AppSettings,
) -> (r: DownloadConfig)
    ensures
        r.url == url,
        r.file_path == output_path,
        r.allowed_root matches Some(root) && root@ == output_root@,
        r.custom_headers == headers,
        r.proxy_url.is_some() == (settings.proxy.enabled && trim(settings.proxy.url@).len() > 0),
        r.proxy_url matches Some(u) ==> u@ == trim(settings.proxy.url@),
        r.throttle.bytes_per_sec == settings.performance.bandwidth_cap,
        r.override_threads == settings.performance.thread_override,
        r.retry.max_retries == 3,
        r.retry.base_delay_ms == 1000,
        r.priority == Priority::Low,
{
    let mut config = DownloadConfig::new(url, output_path);
    config.allowed_root = Some(crate::text::owned(output_root));
    config.custom_headers = headers;
    config.proxy_url = configured_proxy_url(settings);
    config.throttle = ThrottleConfig { bytes_per_sec: settings.performance.bandwidth_cap };
    config.override_threads = settings.performance.thread_override;
    config
}

} // verus!
