use metadata_registry::slug::{slugify, to_slug};

/// The slug as two regular expressions give it: lowercase, replace what is
/// neither a letter of `a` to `z` nor white space by a space, trim, and
/// put a hyphen for every run of white space.
fn slug_by_patterns(input: &str) -> String {
    let lower = input.to_lowercase();
    let kept = regex::Regex::new(r"[^a-z\s]").unwrap().replace_all(&lower, " ").to_string();
    let trimmed = kept.trim().to_string();
    regex::Regex::new(r"\s+").unwrap().replace_all(&trimmed, "-").to_string()
}

fn samples() -> Vec<&'static str> {
    vec![
        "",
        " ",
        "a",
        "A",
        "My Org! 2.0",
        "Acme Corp!",
        "  leading and trailing  ",
        "tabs\tand\nnewlines\r\nhere",
        "snake_case_name",
        "kebab-case-name",
        "--__--",
        "123",
        "a1b2c3",
        "MiXeD CaSe",
        "Ünïcödé Nämé",
        "İstanbul",
        "\u{212A}elvin",
        "ΟΔΥΣΣΕΥΣ",
        "a\u{00A0}b",
        "a\u{2003}b\u{3000}c",
        "a\u{0085}b",
        "\u{FEFF}bom",
        "emoji 🚀 rocket",
        "ends with hyphen-",
        "x  -  y",
        "日本語 text",
        "ǅ titlecase",
        "ẞ sharp",
    ]
}

#[test]
fn slug_of_a_name_with_punctuation() {
    assert_eq!(to_slug("My Org! 2.0"), "my-org");
}

#[test]
fn slug_of_acme() {
    assert_eq!(to_slug("Acme Corp!"), "acme-corp");
}

#[test]
fn slug_without_letters_is_empty() {
    assert_eq!(to_slug(""), "");
    assert_eq!(to_slug("   "), "");
    assert_eq!(to_slug("1234 !!"), "");
}

#[test]
fn slug_lowers_upper_case() {
    assert_eq!(to_slug("ABC"), "abc");
    assert_eq!(to_slug("Hello World"), "hello-world");
}

#[test]
fn slugify_reads_the_text_as_it_is() {
    assert_eq!(slugify("ABC def"), "def");
    assert_eq!(slugify("abc  def"), "abc-def");
}

#[test]
fn slug_separators_collapse() {
    assert_eq!(to_slug("a - b"), "a-b");
    assert_eq!(to_slug("a\t\n b"), "a-b");
    assert_eq!(to_slug("--a--b--"), "a-b");
}

#[test]
fn slug_follows_unicode_lowercase() {
    assert_eq!(to_slug("\u{212A}elvin"), "kelvin");
    assert_eq!(to_slug("İstanbul"), "i-stanbul");
    assert_eq!(to_slug("Ünïcödé"), "n-c-d");
}

#[test]
fn slug_agrees_with_the_patterns() {
    for s in samples() {
        assert_eq!(to_slug(s), slug_by_patterns(s), "for {:?}", s);
    }
}

#[test]
fn slug_is_idempotent() {
    for s in samples() {
        let once = to_slug(s);
        assert_eq!(to_slug(&once), once, "for {:?}", s);
    }
}

#[test]
fn slug_has_the_shape_of_a_slug() {
    let shape = regex::Regex::new(r"^[a-z]+(-[a-z]+)*$").unwrap();
    for s in samples() {
        let slug = to_slug(s);
        assert!(slug.is_empty() || shape.is_match(&slug), "for {:?}: {:?}", s, slug);
    }
}
