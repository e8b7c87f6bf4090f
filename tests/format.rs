use shotgun::format::OutputFormat;

#[test]
fn format_names_ignore_case() {
    assert_eq!(OutputFormat::from_name("png"), Some(OutputFormat::Png));
    assert_eq!(OutputFormat::from_name("PnG"), Some(OutputFormat::Png));
    assert_eq!(OutputFormat::from_name("PAM"), Some(OutputFormat::Pam));
    assert_eq!(OutputFormat::from_name("jpg"), None);
    assert_eq!(OutputFormat::from_name("pngg"), None);
    assert_eq!(OutputFormat::from_name(""), None);
}

#[test]
fn format_extensions() {
    assert_eq!(OutputFormat::Png.extension(), "png");
    assert_eq!(OutputFormat::Pam.extension(), "pam");
}
