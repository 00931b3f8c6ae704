use alpharing_launcher::digest::{hex_lower_string, sha256_hex};
use alpharing_launcher::launch::launch_command;
use alpharing_launcher::platform::Platform;
use alpharing_launcher::release::{latest_mod_version, release_asset_download_url, Release, ReleaseAsset};

fn asset(name: Option<&str>, url: Option<&str>) -> ReleaseAsset {
    ReleaseAsset { name: name.map(String::from), browser_download_url: url.map(String::from) }
}

#[test]
fn sha256_hex_of_abc() {
    assert_eq!(
        sha256_hex(b"abc"),
        "ba7816bf8f01cfea414140de5dae2223b00361a396177a9cb410ff61f20015ad"
    );
}

#[test]
fn sha256_hex_of_empty_input() {
    assert_eq!(
        sha256_hex(b""),
        "e3b0c44298fc1c149afbf4c8996fb92427ae41e4649b934ca495991b7852b855"
    );
}

#[test]
fn hex_is_lowercase_two_digits_per_byte() {
    assert_eq!(hex_lower_string(&[10, 20, 30]), "0a141e");
    assert_eq!(hex_lower_string(&[0, 255, 0xab]), "00ffab");
    assert_eq!(hex_lower_string(&[]), "");
}

#[test]
fn download_url_of_the_mod_asset() {
    let r = Release {
        tag_name: Some("v1".into()),
        assets: Some(vec![
            asset(Some("README.md"), Some("https://x/readme")),
            asset(None, Some("https://x/none")),
            asset(Some("WTSAPI32.dll"), Some("https://x/dll")),
            asset(Some("WTSAPI32.dll"), Some("https://x/second")),
        ]),
    };
    assert_eq!(release_asset_download_url(&r), Ok("https://x/dll".to_string()));
}

#[test]
fn download_url_errors() {
    let no_assets = Release { tag_name: None, assets: None };
    assert_eq!(release_asset_download_url(&no_assets), Err("Release contains no assets".to_string()));
    let no_dll = Release { tag_name: None, assets: Some(vec![asset(Some("wtsapi32.dll"), Some("u"))]) };
    assert_eq!(
        release_asset_download_url(&no_dll),
        Err("WTSAPI32.dll was not found in the latest release".to_string())
    );
    let no_url = Release { tag_name: None, assets: Some(vec![asset(Some("WTSAPI32.dll"), None)]) };
    assert_eq!(release_asset_download_url(&no_url), Err("Release asset has no download URL".to_string()));
}

#[test]
fn mod_version_is_the_tag() {
    let r = Release { tag_name: Some("v2.1".into()), assets: None };
    assert_eq!(latest_mod_version(&r), Ok("v2.1".to_string()));
    let untagged = Release { tag_name: None, assets: Some(vec![]) };
    assert_eq!(latest_mod_version(&untagged), Err("Release has no tag name".to_string()));
}

#[test]
fn launch_with_mod_on_linux() {
    let cmd = launch_command(Platform::Linux, false);
    assert_eq!(cmd.program, "steam");
    assert_eq!(cmd.args, vec!["-applaunch", "976730", "-eac"]);
    assert_eq!(cmd.env, vec![("WINEDLLOVERRIDES".to_string(), "WTSAPI32=n,b".to_string())]);
}

#[test]
fn launch_with_mod_on_windows_and_vanilla() {
    let cmd = launch_command(Platform::Windows, false);
    assert_eq!(cmd.args, vec!["-applaunch", "976730", "-eac"]);
    assert!(cmd.env.is_empty());
    let vanilla = launch_command(Platform::Linux, true);
    assert_eq!(vanilla.args, vec!["-applaunch", "976730"]);
    assert!(vanilla.env.is_empty());
}

#[test]
fn sha256_hex_has_sixty_four_lowercase_digits() {
    let h = sha256_hex(b"AlphaRing");
    assert_eq!(h.chars().count(), 64);
    assert!(h.chars().all(|c| c.is_ascii_digit() || ('a'..='f').contains(&c)));
}

#[test]
fn error_report_prefixes_the_error() {
    assert_eq!(alpharing_launcher::report::error_report("Couldn't find MCC"), "Error: Couldn't find MCC");
}
