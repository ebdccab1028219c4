use search_path::path_list::{join_entries, split_entries, EncodingError};
use search_path::platform::Platform;
use search_path::search_paths::SearchPaths;

fn strings(v: &[&str]) -> Vec<String> {
    v.iter().map(|s| s.to_string()).collect()
}

fn home(h: &str) -> Option<String> {
    Some(h.to_string())
}

#[test]
fn unix_defaults_without_configured_paths() {
    let sp = SearchPaths::assemble(None, Platform::Unix, home("/home/u"));
    assert_eq!(sp.entries(), &strings(&["/usr/local/bin", "/home/u/.local/bin"]));
}

#[test]
fn macos_appends_homebrew_after_unix_defaults() {
    let sp = SearchPaths::assemble(None, Platform::MacOs, home("/home/u"));
    assert_eq!(
        sp.entries(),
        &strings(&["/usr/local/bin", "/home/u/.local/bin", "/opt/homebrew/bin"])
    );
}

#[test]
fn windows_and_other_platforms_have_no_defaults() {
    let sp = SearchPaths::assemble(None, Platform::Windows, home("C:\\Users\\u"));
    assert!(sp.entries().is_empty());
    let sp = SearchPaths::assemble(Some(strings(&["/x"])), Platform::Other, None);
    assert_eq!(sp.entries(), &strings(&["/x"]));
}

#[test]
fn npm_under_home_on_unix() {
    let sp = SearchPaths::assemble(None, Platform::Unix, home("/home/u"))
        .with_npm_dir(Platform::Unix, home("/home/u"));
    assert_eq!(
        sp.entries(),
        &strings(&["/usr/local/bin", "/home/u/.local/bin", "/home/u/.npm-global/bin"])
    );
}

#[test]
fn npm_under_app_data_on_windows() {
    let sp = SearchPaths::assemble(None, Platform::Windows, None)
        .with_npm_dir(Platform::Windows, home("C:\\Users\\u\\AppData\\Roaming"));
    assert_eq!(sp.entries(), &strings(&["C:\\Users\\u\\AppData\\Roaming\\npm"]));
}

#[test]
fn npm_without_directory_appends_nothing() {
    let sp = SearchPaths::assemble(None, Platform::Unix, home("/home/u"))
        .with_npm_dir(Platform::Unix, None);
    assert_eq!(sp.entries(), &strings(&["/usr/local/bin", "/home/u/.local/bin"]));
    let sp = SearchPaths::assemble(None, Platform::Windows, None).with_npm_dir(Platform::Windows, None);
    assert!(sp.entries().is_empty());
}

#[test]
fn npm_join_does_not_double_the_separator() {
    let sp = SearchPaths::assemble(None, Platform::Other, None).with_npm_dir(Platform::Other, home("/home/u/"));
    assert_eq!(sp.entries(), &strings(&["/home/u/.npm-global/bin"]));
    let sp = SearchPaths::assemble(None, Platform::Other, None).with_npm_dir(Platform::Other, home(""));
    assert_eq!(sp.entries(), &strings(&[".npm-global/bin"]));
}

#[test]
fn render_appends_current_variable() {
    let sp = SearchPaths::assemble(Some(strings(&["/a", "/b"])), Platform::Other, None);
    assert_eq!(sp.env_var(Some("/c:/d".to_string()), Platform::Other), Ok("/a:/b:/c:/d".to_string()));
}

#[test]
fn render_without_current_variable() {
    let sp = SearchPaths::assemble(Some(strings(&["/a", "/b"])), Platform::Other, None);
    assert_eq!(sp.env_var(None, Platform::Other), Ok("/a:/b".to_string()));
    let sp = SearchPaths::assemble(None, Platform::Other, None);
    assert_eq!(sp.env_var(None, Platform::Other), Ok(String::new()));
}

#[test]
fn render_keeps_empty_and_duplicate_entries() {
    let sp = SearchPaths::assemble(Some(strings(&["/a", "/a"])), Platform::Other, None);
    assert_eq!(sp.env_var(Some("/a::/b".to_string()), Platform::Other), Ok("/a:/a:/a::/b".to_string()));
    let sp = SearchPaths::assemble(Some(strings(&["/a"])), Platform::Other, None);
    assert_eq!(sp.env_var(Some(String::new()), Platform::Other), Ok("/a:".to_string()));
}

#[test]
fn render_on_windows_uses_semicolon() {
    let sp = SearchPaths::assemble(Some(strings(&["C:\\a"])), Platform::Windows, None)
        .with_npm_dir(Platform::Windows, home("C:\\data"));
    assert_eq!(
        sp.env_var(Some("C:\\b;C:\\c".to_string()), Platform::Windows),
        Ok("C:\\a;C:\\data\\npm;C:\\b;C:\\c".to_string())
    );
}

#[test]
fn render_fails_on_separator_in_entry() {
    let sp = SearchPaths::assemble(Some(strings(&["/a", "/b:c"])), Platform::Unix, None);
    assert_eq!(sp.env_var(None, Platform::Unix), Err(EncodingError));
    let sp = SearchPaths::assemble(Some(strings(&["C:\\a;b"])), Platform::Windows, None);
    assert_eq!(sp.env_var(None, Platform::Windows), Err(EncodingError));
}

#[test]
fn render_fails_on_quote_on_windows_only() {
    let sp = SearchPaths::assemble(Some(strings(&["C:\\\"a\""])), Platform::Windows, None);
    assert_eq!(sp.env_var(None, Platform::Windows), Err(EncodingError));
    let sp = SearchPaths::assemble(Some(strings(&["/\"a\""])), Platform::Unix, None);
    assert!(sp.env_var(None, Platform::Unix).is_ok());
}

#[test]
fn semicolon_is_fine_on_unix_colon_is_fine_on_windows() {
    let sp = SearchPaths::assemble(Some(strings(&["/a;b"])), Platform::Other, None);
    assert_eq!(sp.env_var(None, Platform::Other), Ok("/a;b".to_string()));
    let sp = SearchPaths::assemble(Some(strings(&["C:\\a"])), Platform::Windows, None);
    assert_eq!(sp.env_var(None, Platform::Windows), Ok("C:\\a".to_string()));
}

#[test]
fn configured_home_relative_entry_is_expanded_first() {
    let sp = SearchPaths::assemble(Some(strings(&["~/bin"])), Platform::Unix, home("/home/u"));
    assert_eq!(
        sp.entries(),
        &strings(&["/home/u/bin", "/usr/local/bin", "/home/u/.local/bin"])
    );
}

#[test]
fn tilde_rules() {
    let sp = SearchPaths::assemble(
        Some(strings(&["~", "~other/bin", "/x/~/y", "bin~"])),
        Platform::Other,
        home("/h"),
    );
    assert_eq!(sp.entries(), &strings(&["/h", "~other/bin", "/x/~/y", "bin~"]));
}

#[test]
fn tilde_left_alone_without_home() {
    let sp = SearchPaths::assemble(Some(strings(&["~/bin"])), Platform::Unix, None);
    assert_eq!(sp.entries(), &strings(&["~/bin", "/usr/local/bin", "~/.local/bin"]));
}

#[test]
fn full_chain_order() {
    let sp = SearchPaths::assemble(Some(strings(&["~/p", "/q"])), Platform::MacOs, home("/home/u"))
        .with_npm_dir(Platform::MacOs, home("/home/u"));
    let value = sp.env_var(Some("/e1:/e2".to_string()), Platform::MacOs).unwrap();
    assert_eq!(
        value,
        "/home/u/p:/q:/usr/local/bin:/home/u/.local/bin:/opt/homebrew/bin:/home/u/.npm-global/bin:/e1:/e2"
    );
    let parts = split_entries(&value, Platform::MacOs);
    assert_eq!(parts.len(), 8);
    assert_eq!(parts[0], "/home/u/p");
    assert_eq!(parts[7], "/e2");
}

#[test]
fn split_and_join_round_trip() {
    let parts = split_entries("/a::/b:", Platform::Unix);
    assert_eq!(parts, strings(&["/a", "", "/b", ""]));
    assert_eq!(join_entries(&parts, Platform::Unix), Ok("/a::/b:".to_string()));
    assert_eq!(split_entries("", Platform::Windows), strings(&[""]));
    assert_eq!(split_entries("a;b:c", Platform::Windows), strings(&["a", "b:c"]));
}

#[test]
fn builder_with_real_home_keeps_order() {
    let sp = SearchPaths::builder(Some(strings(&["/cfg"])), Platform::Unix);
    let e = sp.entries();
    assert_eq!(e.len(), 3);
    assert_eq!(e[0], "/cfg");
    assert_eq!(e[1], "/usr/local/bin");
    let before = e.len();
    let sp = sp.with_npm(Platform::Unix);
    assert!(sp.entries().len() == before || sp.entries().len() == before + 1);
    let sp = SearchPaths::builder(None, Platform::Other);
    assert!(sp.entries().is_empty());
}

#[test]
fn platform_facts() {
    assert!(Platform::MacOs.is_unix());
    assert!(Platform::Unix.is_unix());
    assert!(!Platform::Windows.is_unix());
    assert!(Platform::MacOs.is_macos());
    assert!(!Platform::Unix.is_macos());
    assert!(Platform::Windows.is_windows());
    assert_eq!(Platform::Windows.list_separator_str(), ";");
    assert_eq!(Platform::Other.list_separator_str(), ":");
    assert_eq!(Platform::Windows.dir_separator_str(), "\\");
    assert_eq!(Platform::Unix.dir_separator_str(), "/");
}
