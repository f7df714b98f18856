use listas::errors::Error;
use listas::import::parse_import_payload;
use listas::util::{create_random_string, parse_url, sanitize_tags, to_slug_case};

fn strings(v: &[&str]) -> Vec<String> {
    v.iter().map(|s| s.to_string()).collect()
}

#[test]
fn sanitize_tags_lowercases_trims_drops_empty_and_duplicates() {
    let tags = strings(&["  Rust ", "rust", "", "   ", "Web", "RUST", "web "]);
    assert_eq!(sanitize_tags(tags), strings(&["rust", "web"]));
}

#[test]
fn sanitize_tags_keeps_first_occurrence_order() {
    let tags = strings(&["b", "a", "B", "c", "A"]);
    assert_eq!(sanitize_tags(tags), strings(&["b", "a", "c"]));
}

#[test]
fn sanitize_tags_unicode_lowercase_and_whitespace() {
    let tags = strings(&["\u{00a0}ÉTÉ\t", "été"]);
    assert_eq!(sanitize_tags(tags), strings(&["été"]));
}

#[test]
fn sanitize_tags_empty() {
    assert_eq!(sanitize_tags(vec![]), Vec::<String>::new());
}

#[test]
fn random_strings_have_the_asked_size_and_alphabet() {
    let s = create_random_string(40);
    assert_eq!(s.chars().count(), 40);
    assert!(s.chars().all(|c| c.is_ascii_alphanumeric()));
    assert_eq!(create_random_string(0), "");
}

#[test]
fn slugs() {
    assert_eq!(to_slug_case("My Test String!!!1!1"), "my-test-string-1-1");
    assert_eq!(to_slug_case("  --test_-_cool"), "test-cool");
    assert_eq!(to_slug_case("user@example.com"), "user-example-com");
}

#[test]
fn parse_url_strips_trailing_slashes() {
    let u = parse_url("https://example.com/path///").unwrap();
    assert_eq!(u.as_str(), "https://example.com/path");
    let v = parse_url("https://example.com").unwrap();
    assert_eq!(v.to_string(), "https://example.com/");
}

#[test]
fn parse_url_rejects_relative_urls() {
    assert_eq!(parse_url("not a url"), Err(Error::ParseURL));
    assert_eq!(parse_url("/"), Err(Error::ParseURL));
}

#[test]
fn import_payload_takes_first_word_of_each_valid_line() {
    let payload = "\n  https://a.com first link\r\nnot-a-url\n\n   \nhttps://b.org/x?y=1\nftp://c.net  \n".to_string();
    assert_eq!(
        parse_import_payload(payload),
        strings(&["https://a.com", "https://b.org/x?y=1", "ftp://c.net"])
    );
}

#[test]
fn import_payload_empty() {
    assert_eq!(parse_import_payload("   \n \n".to_string()), Vec::<String>::new());
    assert_eq!(parse_import_payload(String::new()), Vec::<String>::new());
}

#[test]
fn import_payload_keeps_duplicates_and_order() {
    let payload = "http://x.io\nhttp://a.io\nhttp://x.io".to_string();
    assert_eq!(parse_import_payload(payload), strings(&["http://x.io", "http://a.io", "http://x.io"]));
}

#[test]
fn sanitizing_twice_changes_nothing() {
    let once = sanitize_tags(strings(&[" Rust ", "rust", "", "  Verus", "b ", "B"]));
    assert_eq!(once, strings(&["rust", "verus", "b"]));
    assert_eq!(sanitize_tags(once.clone()), once);
}
