use sidecar_launcher::paths::join_path;
use sidecar_launcher::paths::resolve_data_paths;
use sidecar_launcher::text::fmt_i32;
use sidecar_launcher::text::fmt_u32;
use sidecar_launcher::text::trim_end;

#[test]
fn join_path_inserts_separator() {
    assert_eq!(join_path("/a/b", "/", "data").as_str(), "/a/b/data");
}

#[test]
fn join_path_keeps_existing_separator() {
    assert_eq!(join_path("/a/b/", "/", "data").as_str(), "/a/b/data");
}

#[test]
fn join_path_empty_dir() {
    assert_eq!(join_path("", "/", "data").as_str(), "data");
}

#[test]
fn join_path_windows_separator() {
    assert_eq!(
        join_path("C:\\Users\\u\\AppData\\Roaming\\vn.giaphaonline.app", "\\", "data").as_str(),
        "C:\\Users\\u\\AppData\\Roaming\\vn.giaphaonline.app\\data"
    );
}

#[test]
fn resolve_data_paths_linux() {
    let p = resolve_data_paths("/home/u/.local/share/vn.giaphaonline.app", "/");
    assert_eq!(p.data_dir.as_str(), "/home/u/.local/share/vn.giaphaonline.app/data");
    assert_eq!(p.db_path.as_str(), "/home/u/.local/share/vn.giaphaonline.app/data/family.db");
    assert_eq!(
        p.database_url.as_str(),
        "file:/home/u/.local/share/vn.giaphaonline.app/data/family.db"
    );
}

#[test]
fn resolve_data_paths_macos() {
    let p = resolve_data_paths(
        "/Users/u/Library/Application Support/vn.giaphaonline.app",
        "/",
    );
    assert_eq!(
        p.database_url.as_str(),
        "file:/Users/u/Library/Application Support/vn.giaphaonline.app/data/family.db"
    );
}

#[test]
fn resolve_data_paths_windows() {
    let p = resolve_data_paths("C:\\Users\\u\\AppData\\Roaming\\vn.giaphaonline.app", "\\");
    assert_eq!(
        p.database_url.as_str(),
        "file:C:\\Users\\u\\AppData\\Roaming\\vn.giaphaonline.app\\data\\family.db"
    );
}

#[test]
fn connection_string_has_file_scheme() {
    let p = resolve_data_paths("/root", "/");
    assert!(p.database_url.starts_with("file:"));
    assert_eq!(&p.database_url[5..], p.db_path.as_str());
}

#[test]
fn trim_end_removes_trailing_whitespace() {
    assert_eq!(trim_end("hello \t\r\n").as_str(), "hello");
}

#[test]
fn trim_end_keeps_leading_whitespace() {
    assert_eq!(trim_end("  hi").as_str(), "  hi");
}

#[test]
fn trim_end_empty_and_all_space() {
    assert_eq!(trim_end("").as_str(), "");
    assert_eq!(trim_end(" \n\t ").as_str(), "");
}

#[test]
fn fmt_u32_exact() {
    assert_eq!(fmt_u32(0).as_str(), "0");
    assert_eq!(fmt_u32(7).as_str(), "7");
    assert_eq!(fmt_u32(10).as_str(), "10");
    assert_eq!(fmt_u32(305).as_str(), "305");
    assert_eq!(fmt_u32(4294967295).as_str(), "4294967295");
}

#[test]
fn fmt_i32_exact() {
    assert_eq!(fmt_i32(0).as_str(), "0");
    assert_eq!(fmt_i32(123).as_str(), "123");
    assert_eq!(fmt_i32(-45).as_str(), "-45");
    assert_eq!(fmt_i32(i32::MAX).as_str(), "2147483647");
    assert_eq!(fmt_i32(i32::MIN).as_str(), "-2147483648");
}
