use pipework_datagen::fetch::{
    datagen_args, datagen_is_current, find_version_url, plan_downloads, version_info_message,
    DownloadPlan, ManifestVersion,
};

fn plan(fetch_manifest: bool, fetch_jar: bool, fetch_mappings: bool) -> DownloadPlan {
    DownloadPlan { fetch_manifest, fetch_jar, fetch_mappings }
}

#[test]
fn complete_cache_downloads_nothing() {
    assert_eq!(plan_downloads(true, false, true, false), plan(false, false, false));
}

#[test]
fn empty_cache_downloads_everything() {
    assert_eq!(plan_downloads(false, false, false, false), plan(true, true, true));
}

#[test]
fn interrupted_jar_download_is_redone() {
    assert_eq!(plan_downloads(true, true, true, false), plan(true, true, false));
}

#[test]
fn missing_mappings_alone_are_downloaded() {
    assert_eq!(plan_downloads(true, false, false, false), plan(true, false, true));
}

#[test]
fn stale_mappings_temp_fetches_only_the_manifest() {
    assert_eq!(plan_downloads(true, false, true, true), plan(true, false, false));
}

#[test]
fn every_plan_fetches_the_manifest_before_downloading() {
    for bits in 0..16u8 {
        let p = plan_downloads(bits & 1 != 0, bits & 2 != 0, bits & 4 != 0, bits & 8 != 0);
        assert!(!p.fetch_jar || p.fetch_manifest);
        assert!(!p.fetch_mappings || p.fetch_manifest);
    }
}

fn version(id: &str, url: &str) -> ManifestVersion {
    ManifestVersion { id: id.to_string(), url: url.to_string() }
}

#[test]
fn version_lookup_takes_the_first_match() {
    let versions = vec![
        version("1.21.9", "https://example/a.json"),
        version("1.21.8", "https://example/b.json"),
        version("1.21.8", "https://example/c.json"),
    ];
    assert_eq!(find_version_url(&versions, "1.21.8"), Some("https://example/b.json".to_string()));
    assert_eq!(find_version_url(&versions, "1.21.9"), Some("https://example/a.json".to_string()));
    assert_eq!(find_version_url(&versions, "1.0"), None);
    assert_eq!(find_version_url(&Vec::new(), "1.21.8"), None);
}

#[test]
fn version_info_message_names_the_version() {
    assert_eq!(version_info_message("1.21.8"), "Fetching 1.21.8 version info...");
}

#[test]
fn datagen_runs_unless_its_output_is_complete() {
    assert!(datagen_is_current(true, false));
    assert!(!datagen_is_current(true, true));
    assert!(!datagen_is_current(false, false));
    assert!(!datagen_is_current(false, true));
}

#[test]
fn datagen_arguments() {
    assert_eq!(
        datagen_args(),
        vec!["-DbundlerMainClass=net.minecraft.data.Main", "-jar", "../server.jar", "--output", "./", "--server", "--all", "--dev"]
    );
}
