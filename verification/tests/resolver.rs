use asset_mirror::text::{lower_ascii, strip_leading_slashes, strip_prefix_repeated, trim, truncate_version};
use asset_mirror::utils::{get_all_assets_urls, get_assets_url, get_cdragon_url, resolve, resolve_cased, AssetsType, Config, LanguageType};

#[test]
fn test_truncate_version_drops_patch() {
    assert_eq!(truncate_version("14.21.1"), "14.21");
    assert_eq!(truncate_version("14.21.9"), "14.21");
    assert_eq!(truncate_version("14.21"), "14.21");
    assert_eq!(truncate_version("14"), "14");
    assert_eq!(truncate_version("14."), "14.");
    assert_eq!(truncate_version(""), "");
    assert_eq!(truncate_version("1.2.3.4"), "1.2");
}

#[test]
fn test_trim_whitespace() {
    assert_eq!(trim("  /a/b \t\n"), "/a/b");
    assert_eq!(trim(""), "");
    assert_eq!(trim("   "), "");
    assert_eq!(trim("x"), "x");
}

#[test]
fn test_strip_leading_slashes() {
    assert_eq!(strip_leading_slashes("/a/b"), "a/b");
    assert_eq!(strip_leading_slashes("///a"), "a");
    assert_eq!(strip_leading_slashes("a/"), "a/");
}

#[test]
fn test_strip_prefix_repeated() {
    assert_eq!(strip_prefix_repeated("/lol-game-data/assets/x", "/lol-game-data/assets/"), "x");
    assert_eq!(strip_prefix_repeated("abab-tail", "ab"), "-tail");
    assert_eq!(strip_prefix_repeated("no-match", "/lol-game-data/assets/"), "no-match");
}

#[test]
fn test_lower_ascii() {
    assert_eq!(lower_ascii("ASSETS/Loot/Jhin_37.JPG"), "assets/loot/jhin_37.jpg");
    assert_eq!(lower_ascii(""), "");
}

#[test]
fn test_assets_type_as_str() {
    assert_eq!(AssetsType::Loot.as_str(), "loot.json");
    assert_eq!(AssetsType::SummonerIconSets.as_str(), "summoner-icon-sets.json");
    assert_eq!(AssetsType::WardSkinSets.as_str(), "ward-skin-sets.json");
}

#[test]
fn test_assets_type_to_vec() {
    let v = AssetsType::to_vec();
    assert_eq!(v.len(), 9);
    assert_eq!(v[0], AssetsType::Loot);
    assert_eq!(v[8], AssetsType::WardSkinSets);
}

#[test]
fn test_language_as_str() {
    assert_eq!(LanguageType::Default.as_str(), "default");
    assert_eq!(LanguageType::Korean.as_str(), "ko_kr");
    assert_eq!(LanguageType::ChineseTaiwan.as_str(), "zh_tw");
}

#[test]
fn test_assets_url_latest() {
    let url = get_assets_url(&AssetsType::Loot, &LanguageType::Default, &None);
    assert_eq!(
        url,
        "https://raw.communitydragon.org/latest/plugins/rcp-be-lol-game-data/global/default/v1/loot.json"
    );
    assert!(url.contains("/latest/"));
}

#[test]
fn test_assets_url_versioned_truncates_patch() {
    let a = get_assets_url(
        &AssetsType::Skins,
        &LanguageType::Korean,
        &Some("14.21.1".to_string()),
    );
    let b = get_assets_url(
        &AssetsType::Skins,
        &LanguageType::Korean,
        &Some("14.21.9".to_string()),
    );
    assert_eq!(
        a,
        "https://raw.communitydragon.org/14.21/plugins/rcp-be-lol-game-data/global/ko_kr/v1/skins.json"
    );
    assert_eq!(a, b);
}

#[test]
fn test_cdragon_url_example() {
    let url = get_cdragon_url(
        "/lol-game-data/assets/ASSETS/Loot/jhin_tile_37.jpg",
        &Config::default(),
    );
    assert_eq!(
        url,
        "https://raw.communitydragon.org/latest/plugins/rcp-be-lol-game-data/global/default/assets/loot/jhin_tile_37.jpg"
    );
}

#[test]
fn test_cdragon_url_versioned() {
    let cfg = Config::new(Some("14.21.1".to_string()), LanguageType::Default);
    let url = get_cdragon_url("/lol-game-data/assets/ASSETS/A.png", &cfg);
    assert_eq!(
        url,
        "https://raw.communitydragon.org/14.21/plugins/rcp-be-lol-game-data/global/default/assets/a.png"
    );
}

#[test]
fn test_resolve_varies_host_only() {
    let cfg = Config::default();
    let reference = "/lol-game-data/assets/ASSETS/A.png";
    let primary = resolve(reference, &cfg, "https://raw.communitydragon.org");
    let fallback = resolve(reference, &cfg, "https://cdn.example.net");
    assert_eq!(
        primary,
        "https://raw.communitydragon.org/latest/plugins/rcp-be-lol-game-data/global/default/assets/a.png"
    );
    assert_eq!(
        fallback,
        "https://cdn.example.net/latest/plugins/rcp-be-lol-game-data/global/default/assets/a.png"
    );
}

#[test]
fn test_resolve_cased_keeps_reference_casing() {
    let cfg = Config::default();
    let url = resolve_cased(
        "/lol-game-data/assets/ASSETS/Loot/jhin_tile_37.jpg",
        &cfg,
        "https://raw.communitydragon.org",
    );
    assert_eq!(
        url,
        "https://raw.communitydragon.org/latest/plugins/rcp-be-lol-game-data/global/default/ASSETS/Loot/jhin_tile_37.jpg"
    );
}

#[test]
fn test_all_assets_urls() {
    let cfg = Config::default();
    let urls = get_all_assets_urls(&cfg);
    assert_eq!(urls.len(), 9);
    assert_eq!(
        urls[0],
        "https://raw.communitydragon.org/latest/plugins/rcp-be-lol-game-data/global/default/v1/loot.json"
    );
    assert_eq!(
        urls[8],
        "https://raw.communitydragon.org/latest/plugins/rcp-be-lol-game-data/global/default/v1/ward-skin-sets.json"
    );
}

#[test]
fn test_config_constructors() {
    let d = Config::default();
    assert_eq!(d.version, None);
    assert_eq!(d.language, LanguageType::Default);
    let c = Config::new(Some("14.21.1".to_string()), LanguageType::Japanese);
    assert_eq!(c.version.as_deref(), Some("14.21.1"));
    assert_eq!(c.language, LanguageType::Japanese);
}
