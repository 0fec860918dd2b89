use incli::language::Language;
use incli::toolchain;

#[test]
fn test_find_nolang() {
    assert!(toolchain::Language::find("NOLANG").is_none());
}

#[test]
fn test_find_ok() {
    assert!(toolchain::Language::find("rust").is_some());
}

#[test]
fn test_language_from_str() {
    assert!(Language::from_str("c").is_ok());
    assert!(Language::from_str("php").is_ok());
    assert!(Language::from_str("rust").is_ok());
    assert!(Language::from_str("bang!").is_err());
}
