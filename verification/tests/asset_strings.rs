use authcore::assets::{
    get_assets_string, get_manifest_assets, get_tailwind_asset_string, AssetMap, ManifestEntry,
};

fn sample_manifest() -> Vec<ManifestEntry> {
    vec![
        ManifestEntry {
            key: "main.js".to_string(),
            file: Some("main-D4f7.js".to_string()),
            css: vec!["assets/main-B2c9.css".to_string()],
        },
        ManifestEntry {
            key: "extra.css".to_string(),
            file: Some("extra-A1b2.css".to_string()),
            css: vec![],
        },
        ManifestEntry { key: "ignored".to_string(), file: None, css: vec![] },
    ]
}

#[test]
fn test_manifest_assets_collects_files_and_css() {
    let assets = get_manifest_assets(&sample_manifest());

    assert_eq!(assets.get("main.js"), Some("main-D4f7.js".to_string()));
    assert_eq!(assets.get("main-B2c9.css"), Some("main-B2c9.css".to_string()));
    assert_eq!(assets.get("extra.css"), Some("extra-A1b2.css".to_string()));
    assert_eq!(assets.get("ignored"), None);
    assert_eq!(assets.len(), 3);
}

#[test]
fn test_assets_string_for_whole_manifest() {
    let assets = get_manifest_assets(&sample_manifest());

    let html = get_assets_string(None, &assets);
    assert_eq!(
        html,
        "<script src=\"/public/main-D4f7.js\" defer></script>\
<link rel=\"stylesheet\" href=\"/public/main-B2c9.css\">\
<link rel=\"stylesheet\" href=\"/public/extra-A1b2.css\">"
    );
}

#[test]
fn test_assets_string_for_requested_names() {
    let assets = get_manifest_assets(&sample_manifest());

    let html = get_assets_string(Some(vec!["main.js".to_string()]), &assets);
    assert_eq!(html, "<script src=\"/public/main-D4f7.js\" defer></script>");

    let html = get_assets_string(Some(vec!["extra.css".to_string()]), &assets);
    assert_eq!(html, "<link rel=\"stylesheet\" href=\"/public/extra-A1b2.css\">");
}

#[test]
fn test_assets_string_skips_unknown_names() {
    let assets = get_manifest_assets(&sample_manifest());

    let html = get_assets_string(
        Some(vec!["missing.css".to_string(), "main.js".to_string()]),
        &assets,
    );
    assert_eq!(html, "<script src=\"/public/main-D4f7.js\" defer></script>");
}

#[test]
fn test_asset_map_insert_overwrites() {
    let mut assets = AssetMap::new();
    assets.insert("a.css".to_string(), "a-1.css".to_string());
    assets.insert("a.css".to_string(), "a-2.css".to_string());

    assert_eq!(assets.get("a.css"), Some("a-2.css".to_string()));
    assert_eq!(assets.len(), 1);
}

#[test]
fn test_tailwind_asset_string() {
    assert_eq!(
        get_tailwind_asset_string(),
        "<link rel=\"stylesheet\" href=\"/styles.css\"><script src=\"/scripts.js\" defer></script>"
    );
}
