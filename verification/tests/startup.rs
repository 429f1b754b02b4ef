use fiximg::util::{check_jpegoptim, is_dir, trim_str, CheckResult};

#[test]
fn missing_probe_means_tool_not_found() {
    assert!(matches!(check_jpegoptim(None), CheckResult::NotFound));
}

#[test]
fn probe_output_is_trimmed_to_the_tool_path() {
    match check_jpegoptim(Some("/usr/bin/jpegoptim\n".to_string())) {
        CheckResult::Found(path) => assert_eq!(path, "/usr/bin/jpegoptim"),
        CheckResult::NotFound => panic!("probe output dropped"),
    }
}

#[test]
fn trim_strips_surrounding_whitespace_only() {
    assert_eq!(trim_str("  a b \t\r\n"), "a b");
    assert_eq!(trim_str("no-space"), "no-space");
    assert_eq!(trim_str(" \n\t "), "");
    assert_eq!(trim_str(""), "");
}

#[test]
fn trim_strips_unicode_whitespace() {
    assert_eq!(trim_str("\u{00A0}x\u{2003}"), "x");
    assert_eq!(trim_str("\u{0085}\u{3000}path\u{202F}"), "path");
    assert_eq!(trim_str("a\u{2009}b"), "a\u{2009}b");
}

#[test]
fn is_dir_rejects_the_empty_path() {
    match is_dir("") {
        Ok(p) => panic!("empty path accepted: {}", p),
        Err(m) => assert_eq!(
            m,
            "The path provided is not a directory. Please provide a directory path."
        ),
    }
}

#[test]
fn is_dir_accepts_an_existing_directory() {
    assert_eq!(is_dir("."), Ok(".".to_string()));
}

#[test]
fn is_dir_rejects_a_missing_path() {
    match is_dir("surely/not/a/real/directory") {
        Ok(p) => panic!("missing path accepted: {}", p),
        Err(m) => assert_eq!(
            m,
            "The path provided is not a directory. Please provide a directory path."
        ),
    }
}

#[test]
fn config_modes() {
    let copy = fiximg::config::resolve_config(
        b"in".to_vec(),
        Some(b"out".to_vec()),
        false,
        "jpegoptim".to_string(),
    );
    assert_eq!(copy.in_dir, b"in".to_vec());
    assert_eq!(copy.out_dir, b"out".to_vec());
    assert!(!copy.rename);
    assert_eq!(copy.jpegoptim, "jpegoptim");

    let rename = fiximg::config::resolve_config(
        b"in".to_vec(),
        None,
        true,
        "jpegoptim".to_string(),
    );
    assert_eq!(rename.out_dir, b"in".to_vec());
    assert!(rename.rename);
}
