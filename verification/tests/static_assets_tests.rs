use asset_server::response::Response;
use asset_server::static_assets::{index, resolve, respond, static_files, Asset, EmbeddedFile};

fn file(data: &[u8]) -> EmbeddedFile {
    EmbeddedFile { data: data.to_vec(), mime: None }
}

fn declared(data: &[u8], mime: &str) -> EmbeddedFile {
    EmbeddedFile { data: data.to_vec(), mime: Some(mime.to_string()) }
}

fn site() -> Asset {
    let mut assets = Asset::new();
    assets.insert("index.html".to_string(), file(b"<html>home</html>"));
    assets.insert("css/site.css".to_string(), file(b"body { margin: 0 }"));
    assets.insert("app.js".to_string(), file(b"console.log(1)"));
    assets.insert("logo.png".to_string(), file(&[0x89, b'P', b'N', b'G', 0, 255]));
    assets.insert("data.bin".to_string(), declared(&[1, 2, 3], "application/x-custom"));
    assets.insert("LICENSE".to_string(), file(b"free"));
    assets.insert("blob.zzunknownzz".to_string(), file(&[9, 9]));
    assets
}

fn not_found() -> Response {
    Response { status: 404, content_type: None, body: b"File is not found".to_vec() }
}

#[test]
fn empty_table_holds_nothing() {
    let assets = Asset::new();
    assert_eq!(assets.get("index.html"), None);
    assert_eq!(assets.get(""), None);
    assert_eq!(index(&assets), not_found());
}

#[test]
fn get_returns_what_was_inserted() {
    let assets = site();
    assert_eq!(assets.get("index.html"), Some(&file(b"<html>home</html>")));
    assert_eq!(assets.get("css/site.css"), Some(&file(b"body { margin: 0 }")));
    assert_eq!(assets.get("data.bin"), Some(&declared(&[1, 2, 3], "application/x-custom")));
    assert_eq!(assets.get("missing.txt"), None);
}

#[test]
fn insert_replaces_an_earlier_file() {
    let mut assets = site();
    assets.insert("app.js".to_string(), file(b"console.log(2)"));
    assert_eq!(assets.get("app.js"), Some(&file(b"console.log(2)")));
    assert_eq!(assets.get("index.html"), Some(&file(b"<html>home</html>")));
    assert_eq!(assets.get("logo.png"), Some(&file(&[0x89, b'P', b'N', b'G', 0, 255])));
}

#[test]
fn insert_says_whether_it_stored() {
    let mut assets = Asset::new();
    assert!(assets.insert("a.txt".to_string(), file(b"a")));
    assert!(assets.insert("a.txt".to_string(), file(b"b")));
    assert!(assets.insert("".to_string(), file(b"empty name")));
    assert!(assets.insert("dir/a.txt".to_string(), file(b"c")));
    assert_eq!(assets.get("a.txt"), Some(&file(b"b")));
    assert_eq!(assets.get(""), Some(&file(b"empty name")));
}

#[test]
fn path_with_leading_slash_is_turned_down() {
    let mut assets = site();
    assert!(!assets.insert("/index.html".to_string(), file(b"other")));
    assert!(!assets.insert("/".to_string(), file(b"other")));
    assert!(!assets.insert("//a".to_string(), file(b"other")));
    assert_eq!(assets.get("/index.html"), None);
    assert_eq!(assets.get("/"), None);
    assert_eq!(assets.get("index.html"), Some(&file(b"<html>home</html>")));
    assert_eq!(static_files(&assets, "/index.html"), not_found());
    assert_eq!(resolve(&assets, "/static//index.html"), not_found());
}

#[test]
fn paths_are_case_sensitive_and_verbatim() {
    let assets = site();
    assert_eq!(assets.get("Index.html"), None);
    assert_eq!(assets.get("INDEX.HTML"), None);
    assert_eq!(assets.get("/index.html"), None);
    assert_eq!(assets.get("index.html "), None);
    assert_eq!(assets.get("./index.html"), None);
    assert_eq!(assets.get("css/../index.html"), None);
    assert_eq!(assets.get("license"), None);
}

#[test]
fn stored_file_is_served_with_its_bytes_and_guessed_type() {
    let assets = site();
    assert_eq!(
        static_files(&assets, "index.html"),
        Response {
            status: 200,
            content_type: Some("text/html".to_string()),
            body: b"<html>home</html>".to_vec(),
        }
    );
    assert_eq!(
        static_files(&assets, "css/site.css"),
        Response {
            status: 200,
            content_type: Some("text/css".to_string()),
            body: b"body { margin: 0 }".to_vec(),
        }
    );
    assert_eq!(
        static_files(&assets, "logo.png"),
        Response {
            status: 200,
            content_type: Some("image/png".to_string()),
            body: vec![0x89, b'P', b'N', b'G', 0, 255],
        }
    );
}

#[test]
fn guessed_type_is_what_the_guesser_says() {
    let assets = site();
    let expected = mime_guess::from_path("app.js").first_raw().map(String::from);
    assert!(expected.is_some());
    assert_eq!(static_files(&assets, "app.js").content_type, expected);
}

#[test]
fn declared_type_wins_over_the_guess() {
    let assets = site();
    assert_eq!(
        static_files(&assets, "data.bin"),
        Response {
            status: 200,
            content_type: Some("application/x-custom".to_string()),
            body: vec![1, 2, 3],
        }
    );
}

#[test]
fn unknown_extension_is_served_as_binary() {
    let assets = site();
    assert_eq!(
        static_files(&assets, "blob.zzunknownzz"),
        Response {
            status: 200,
            content_type: Some("application/octet-stream".to_string()),
            body: vec![9, 9],
        }
    );
}

#[test]
fn missing_extension_is_served_as_binary() {
    let assets = site();
    assert_eq!(
        static_files(&assets, "LICENSE"),
        Response {
            status: 200,
            content_type: Some("application/octet-stream".to_string()),
            body: b"free".to_vec(),
        }
    );
}

#[test]
fn absent_path_is_not_found() {
    let assets = site();
    assert_eq!(static_files(&assets, "missing.html"), not_found());
    assert_eq!(static_files(&assets, ""), not_found());
    assert_eq!(static_files(&assets, "../etc/passwd"), not_found());
    assert_eq!(static_files(&assets, "/index.html"), not_found());
}

#[test]
fn respond_takes_declared_then_guess_then_binary() {
    let plain = file(b"abc");
    let typed = declared(b"abc", "text/x-declared");
    assert_eq!(
        respond(&typed, Some("text/x-guessed".to_string())).content_type,
        Some("text/x-declared".to_string())
    );
    assert_eq!(respond(&typed, None).content_type, Some("text/x-declared".to_string()));
    assert_eq!(
        respond(&plain, Some("text/x-guessed".to_string())).content_type,
        Some("text/x-guessed".to_string())
    );
    assert_eq!(respond(&plain, None).content_type, Some("application/octet-stream".to_string()));
    assert_eq!(respond(&plain, None).status, 200);
    assert_eq!(respond(&plain, None).body, b"abc".to_vec());
}

#[test]
fn index_serves_the_entry_point() {
    let assets = site();
    assert_eq!(
        index(&assets),
        Response {
            status: 200,
            content_type: Some("text/html".to_string()),
            body: b"<html>home</html>".to_vec(),
        }
    );
}

#[test]
fn root_is_the_same_as_static_index() {
    let assets = site();
    assert_eq!(resolve(&assets, "/"), resolve(&assets, "/static/index.html"));
    assert_eq!(resolve(&assets, "/").status, 200);
    let empty = Asset::new();
    assert_eq!(resolve(&empty, "/"), resolve(&empty, "/static/index.html"));
    assert_eq!(resolve(&empty, "/"), not_found());
}

#[test]
fn resolve_strips_the_static_prefix() {
    let assets = site();
    assert_eq!(resolve(&assets, "/static/css/site.css"), static_files(&assets, "css/site.css"));
    assert_eq!(resolve(&assets, "/static/app.js"), static_files(&assets, "app.js"));
    assert_eq!(resolve(&assets, "/static/app.js").status, 200);
    assert_eq!(resolve(&assets, "/static/missing.js"), not_found());
    assert_eq!(resolve(&assets, "/static/"), not_found());
    assert_eq!(resolve(&assets, "/static//app.js"), not_found());
}

#[test]
fn resolve_finds_nothing_outside_root_and_static() {
    let assets = site();
    assert_eq!(resolve(&assets, ""), not_found());
    assert_eq!(resolve(&assets, "/index.html"), not_found());
    assert_eq!(resolve(&assets, "index.html"), not_found());
    assert_eq!(resolve(&assets, "/static"), not_found());
    assert_eq!(resolve(&assets, "/STATIC/app.js"), not_found());
    assert_eq!(resolve(&assets, "/app.js"), not_found());
}

#[test]
fn same_path_is_answered_the_same_way() {
    let assets = site();
    assert_eq!(resolve(&assets, "/static/logo.png"), resolve(&assets, "/static/logo.png"));
}
