use zerolaunch::icon::{
    classify_everything_path, get_everything_icon, refresh_source, EverythingIconPlan,
    IconLookup, IconManagerInner, IconRequest, ImageIdentity,
};

fn s(x: &str) -> String {
    x.to_string()
}

fn index(files: &[&str]) -> IconManagerInner {
    IconManagerInner::new(s("app.png"), s("web.png"), files.iter().map(|f| s(f)).collect(), 100)
}

#[test]
fn hash_is_blake3_of_bincode_encoding() {
    let expected = blake3::hash(&[0u8, 1, b'a']).to_hex().to_string();
    assert_eq!(IconRequest::Path(s("a")).get_hash_string(), expected);
    let expected = blake3::hash(&[2u8, 4, b'.', b't', b'x', b't']).to_hex().to_string();
    assert_eq!(IconRequest::Extension(s(".txt")).get_hash_string(), expected);
    let mut bytes = vec![1u8, 6];
    bytes.extend_from_slice("网址".as_bytes());
    let expected = blake3::hash(&bytes).to_hex().to_string();
    assert_eq!(IconRequest::Url(s("网址")).get_hash_string(), expected);
}

#[test]
fn hash_names_are_64_hex_digits_and_differ_by_variant() {
    let a = IconRequest::Path(s("C:/x.exe")).get_hash_string();
    let b = IconRequest::Url(s("C:/x.exe")).get_hash_string();
    assert_eq!(a.len(), 64);
    assert!(a.chars().all(|c| c.is_ascii_hexdigit() && !c.is_ascii_uppercase()));
    assert_ne!(a, b);
    assert_eq!(a, IconRequest::Path(s("C:/x.exe")).get_hash_string());
    assert_eq!(IconRequest::Path(s("C:/x.exe")).cache_file_name(), format!("{}.png", a));
}

#[test]
fn new_index_holds_png_files_only() {
    let req = IconRequest::Path(s("p"));
    let name = req.cache_file_name();
    let mut idx = index(&[name.as_str(), "readme.txt"]);
    assert!(matches!(idx.get_icon(&req, 100), IconLookup::Cached { refresh: false, .. }));
    let other = IconRequest::Path(s("readme"));
    assert!(matches!(idx.get_icon(&other, 100), IconLookup::ProbeDisk { .. }));
}

#[test]
fn cached_icon_is_refreshed_after_interval() {
    let req = IconRequest::Extension(s(".md"));
    let name = req.cache_file_name();
    let mut idx = index(&[name.as_str()]);
    // Stamped at 100 ns; the interval is 600 whole seconds of age.
    assert!(!idx.should_refresh_cache(&name, 600_000_000_099));
    assert!(idx.should_refresh_cache(&name, 600_000_000_100));
    assert!(!idx.should_refresh_cache(&name, 50));
    match idx.get_icon(&req, 700_000_000_000) {
        IconLookup::Cached { hash_name, refresh } => {
            assert_eq!(hash_name, name);
            assert!(refresh);
        }
        _ => panic!("expected a cache hit"),
    }
    assert!(!idx.should_refresh_cache(&s("missing.png"), 10_000_000_000_000));
}

#[test]
fn load_from_config_asks_for_scan_when_index_empty() {
    let mut idx = index(&[]);
    assert!(idx.load_from_config(true, false));
    assert!(!idx.load_from_config(false, true));
    let mut idx = index(&["a.png"]);
    assert!(!idx.load_from_config(true, true));
}

#[test]
fn disabled_cache_claims_and_dedups_requests() {
    let mut idx = index(&[]);
    idx.load_from_config(false, true);
    let req = IconRequest::Url(s("https://example.com"));
    let name = req.cache_file_name();
    match idx.get_icon(&req, 1) {
        IconLookup::Fetch { hash_name } => assert_eq!(hash_name, name),
        _ => panic!("expected a fetch"),
    }
    match idx.get_icon(&req, 2) {
        IconLookup::UseDefault { default_path } => assert_eq!(default_path, "web.png"),
        _ => panic!("expected the default icon"),
    }
    idx.finish_request(&name);
    assert!(matches!(idx.get_icon(&req, 3), IconLookup::Fetch { .. }));
}

#[test]
fn disk_hit_indexes_the_file() {
    let mut idx = index(&[]);
    let req = IconRequest::Path(s("C:/a.lnk"));
    let name = match idx.get_icon(&req, 5) {
        IconLookup::ProbeDisk { hash_name } => hash_name,
        _ => panic!("expected a disk probe"),
    };
    assert!(!idx.disk_hit(name.clone(), 5));
    assert!(matches!(idx.get_icon(&req, 6), IconLookup::Cached { refresh: false, .. }));
}

#[test]
fn claim_after_disk_miss() {
    let mut idx = index(&[]);
    let req = IconRequest::Extension(s(".rs"));
    let name = req.cache_file_name();
    assert!(matches!(idx.claim_request(&req, name.clone(), 1), IconLookup::Fetch { .. }));
    match idx.claim_request(&req, name.clone(), 1) {
        IconLookup::UseDefault { default_path } => assert_eq!(default_path, "app.png"),
        _ => panic!("expected the default icon"),
    }
    assert!(!idx.begin_refresh(&name, 2));
    idx.finish_request(&name);
    assert!(idx.begin_refresh(&name, 2));
    assert!(!idx.begin_refresh(&name, 3));
}

#[test]
fn fetch_sources_and_defaults() {
    let mut idx = index(&[]);
    assert_eq!(idx.fetch_source(&IconRequest::Path(s("p"))), Some(ImageIdentity::File(s("p"))));
    assert_eq!(idx.fetch_source(&IconRequest::Url(s("u"))), Some(ImageIdentity::Web(s("u"))));
    assert_eq!(idx.fetch_source(&IconRequest::Extension(s("e"))), Some(ImageIdentity::Extension(s("e"))));
    idx.load_from_config(true, false);
    assert_eq!(idx.fetch_source(&IconRequest::Url(s("u"))), None);
    assert_eq!(refresh_source(&IconRequest::Url(s("u"))), ImageIdentity::Web(s("u")));
    assert_eq!(idx.get_default_icon(&IconRequest::Url(s("u"))), "web.png");
    assert_eq!(idx.get_default_icon(&IconRequest::Extension(s("e"))), "app.png");
    assert_eq!(idx.get_default_icon(&IconRequest::Path(s("p"))), "app.png");
}

#[test]
fn saving_rules() {
    let mut idx = index(&[]);
    assert!(idx.should_save_to_cache(false, &vec![1]));
    assert!(!idx.should_save_to_cache(true, &vec![1]));
    assert!(!idx.should_save_to_cache(false, &vec![]));
    idx.load_from_config(false, true);
    assert!(!idx.should_save_to_cache(false, &vec![1]));
}

#[test]
fn recorded_icons_are_hits() {
    let mut idx = index(&[]);
    let req = IconRequest::Path(s("x"));
    let name = req.cache_file_name();
    idx.record_cached(name, 10);
    assert!(matches!(idx.get_icon(&req, 11), IconLookup::Cached { refresh: false, .. }));
}

#[test]
fn everything_icon_plans() {
    assert!(matches!(
        get_everything_icon(&s("C:\\Users\\me\\Docs"), true),
        EverythingIconPlan::Icon(IconRequest::Extension(ref e)) if e == "folder"
    ));
    assert!(matches!(
        get_everything_icon(&s("C:/Docs/Report.DOCX"), false),
        EverythingIconPlan::Icon(IconRequest::Extension(ref e)) if e == ".docx"
    ));
    assert!(matches!(get_everything_icon(&s("C:/bin/Tool.EXE"), false), EverythingIconPlan::LoadFile));
    assert!(matches!(get_everything_icon(&s("C:/pics/Cat.JPG"), false), EverythingIconPlan::LoadResized));
    assert!(matches!(get_everything_icon(&s("C:/data/x.bin"), false), EverythingIconPlan::LoadFile));
    assert!(matches!(get_everything_icon(&s("C:/data/noext"), false), EverythingIconPlan::LoadFile));
}

#[test]
fn classification_given_extension() {
    assert!(matches!(
        classify_everything_path("c:/a.txt", &Some(s(".txt")), false),
        EverythingIconPlan::Icon(IconRequest::Extension(ref e)) if e == ".txt"
    ));
    assert!(matches!(classify_everything_path("c:/a.url", &Some(s(".url")), false), EverythingIconPlan::LoadFile));
    assert!(matches!(classify_everything_path("c:/a.svg", &None, false), EverythingIconPlan::LoadResized));
}

#[test]
fn extension_decides_shared_icon() {
    assert!(matches!(
        get_everything_icon(&s("C:/Docs/Report.PDF"), false),
        EverythingIconPlan::Icon(IconRequest::Extension(ref e)) if e == ".pdf"
    ));
    assert!(matches!(
        get_everything_icon(&s("/docs/a.tar.GZ"), false),
        EverythingIconPlan::Icon(IconRequest::Extension(ref e)) if e == ".gz"
    ));
}

#[test]
fn fetch_falls_back_to_default_icon() {
    let idx = index(&[]);
    match idx.settle_fetch(&IconRequest::Url(s("u")), vec![]) {
        zerolaunch::icon::FetchedIcon::LoadDefault(p) => assert_eq!(p, "web.png"),
        _ => panic!("expected the default icon"),
    }
    match idx.settle_fetch(&IconRequest::Path(s("p")), vec![]) {
        zerolaunch::icon::FetchedIcon::LoadDefault(p) => assert_eq!(p, "app.png"),
        _ => panic!("expected the default icon"),
    }
    match idx.settle_fetch(&IconRequest::Path(s("p")), vec![7]) {
        zerolaunch::icon::FetchedIcon::Loaded(d) => assert_eq!(d, vec![7]),
        _ => panic!("expected the loaded icon"),
    }
}
