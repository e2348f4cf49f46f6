use icon_lookup::{lookup_icon, resolve_attempts, LookupResult};

#[test]
fn it_works() {
    let r = lookup_icon("firefox");
    if r.is_found() {
        assert!(r.len() > 0);
    }
    println!("LENGTH: {}", r.len());
}

#[test]
fn size_constrained_path_wins() {
    let sized = b"/usr/share/icons/hicolor/128x128/apps/x.png".to_vec();
    let unconstrained = b"/usr/share/icons/hicolor/scalable/apps/x.svg".to_vec();
    match resolve_attempts(Some(sized.clone()), Some(unconstrained)) {
        LookupResult::Found(bytes) => assert_eq!(bytes, sized),
        LookupResult::NotFound => panic!("expected the size-constrained path"),
    }
}

#[test]
fn fallback_on_size_miss() {
    let unconstrained = b"/usr/share/icons/hicolor/scalable/apps/y.svg".to_vec();
    match resolve_attempts(None, Some(unconstrained.clone())) {
        LookupResult::Found(bytes) => assert_eq!(bytes, unconstrained),
        LookupResult::NotFound => panic!("expected the unconstrained path"),
    }
}

#[test]
fn double_miss_is_not_found() {
    let r = resolve_attempts(None, None);
    assert!(!r.is_found());
    assert_eq!(r.len(), 0);
    assert!(r.into_bytes().is_none());
}

#[test]
fn found_bytes_round_trip() {
    let path = b"/usr/share/icons/hicolor/128x128/apps/z.png".to_vec();
    let r = resolve_attempts(Some(path.clone()), None);
    assert!(r.is_found());
    assert_eq!(r.len(), path.len());
    assert_eq!(r.into_bytes(), Some(path));
}

#[test]
fn absent_name_is_not_found() {
    let r = lookup_icon("definitely-not-a-real-icon-xyz123");
    assert!(!r.is_found());
    assert_eq!(r.len(), 0);
    assert!(r.into_bytes().is_none());
}

#[test]
fn agrees_with_resolver() {
    let expected: Option<Vec<u8>> = freedesktop_icons::lookup("firefox")
        .with_size(128)
        .find()
        .or_else(|| freedesktop_icons::lookup("firefox").find())
        .map(|path| path.into_os_string().into_encoded_bytes());
    assert_eq!(lookup_icon("firefox").into_bytes(), expected);
}
