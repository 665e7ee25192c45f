use qrserve::assets::AssetSet;

#[test]
fn empty_set_holds_nothing() {
    let assets = AssetSet::new();
    assert_eq!(assets.get("index.html"), None);
    assert_eq!(assets.get(""), None);
}

#[test]
fn stored_bytes_come_back_exactly() {
    let mut assets = AssetSet::new();
    assets.insert(String::from("index.html"), b"<html></html>".to_vec());
    assets.insert(String::from("css/site.css"), b"body{}".to_vec());
    assert_eq!(assets.get("index.html"), Some(&b"<html></html>".to_vec()));
    assert_eq!(assets.get("css/site.css"), Some(&b"body{}".to_vec()));
}

#[test]
fn lookup_matches_letter_for_letter() {
    let mut assets = AssetSet::new();
    assets.insert(String::from("js/app.js"), vec![7u8]);
    assert_eq!(assets.get("js/app.js"), Some(&vec![7u8]));
    assert_eq!(assets.get("js/App.js"), None);
    assert_eq!(assets.get("/js/app.js"), None);
    assert_eq!(assets.get("js/app"), None);
    assert_eq!(assets.get("js//app.js"), None);
    assert_eq!(assets.get("js/../js/app.js"), None);
    assert_eq!(assets.get("js/"), None);
    assert_eq!(assets.get("js"), None);
}

#[test]
fn a_second_insert_replaces_the_first() {
    let mut assets = AssetSet::new();
    assets.insert(String::from("a.txt"), vec![1u8]);
    assets.insert(String::from("b.txt"), vec![2u8]);
    assets.insert(String::from("a.txt"), vec![3u8, 4]);
    assert_eq!(assets.get("a.txt"), Some(&vec![3u8, 4]));
    assert_eq!(assets.get("b.txt"), Some(&vec![2u8]));
}

#[test]
fn an_empty_file_is_still_stored() {
    let mut assets = AssetSet::new();
    assets.insert(String::from("empty.bin"), Vec::new());
    assert_eq!(assets.get("empty.bin"), Some(&Vec::new()));
    assert_eq!(assets.get("other.bin"), None);
}
