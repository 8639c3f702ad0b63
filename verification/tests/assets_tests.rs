use tts_studio::assets::{asset_path, content_type};

#[test]
fn empty_request_names_index() {
    assert_eq!(asset_path(""), "index.html");
    assert_eq!(asset_path("///"), "index.html");
}

#[test]
fn leading_slashes_are_dropped() {
    assert_eq!(asset_path("/app.js"), "app.js");
    assert_eq!(asset_path("//css/site.css"), "css/site.css");
    assert_eq!(asset_path("img/a/b.png"), "img/a/b.png");
}

#[test]
fn content_types_by_last_extension() {
    assert_eq!(content_type("index.html"), "text/html; charset=utf-8");
    assert_eq!(content_type("app.min.js"), "application/javascript; charset=utf-8");
    assert_eq!(content_type("site.css"), "text/css; charset=utf-8");
    assert_eq!(content_type("logo.png"), "image/png");
    assert_eq!(content_type("logo.svg"), "image/svg+xml");
    assert_eq!(content_type("favicon.ico"), "image/x-icon");
    assert_eq!(content_type("README"), "application/octet-stream");
    assert_eq!(content_type("html"), "text/html; charset=utf-8");
    assert_eq!(content_type("archive.html.gz"), "application/octet-stream");
    assert_eq!(content_type("trailing."), "application/octet-stream");
}

#[test]
fn asking_again_for_the_named_file_names_it_again() {
    for req in ["", "/", "//a.js", "x/y.css", "/index.html"] {
        let p = asset_path(req);
        assert!(!p.starts_with('/'));
        assert_eq!(asset_path(&p), p);
    }
}
