use cookbook_generator::config::Config;
use cookbook_generator::error::BuildError;
use cookbook_generator::init::default_config;
use cookbook_generator::tools::PdfSettings;

#[test]
fn well_formed_lines_are_retrievable_with_trimmed_values() {
    let config = Config::parse("paper_size = a4\n  pdf_sans_family   =   Bai Jamjuree  \n");
    assert_eq!(config.get("paper_size").unwrap(), "a4");
    assert_eq!(config.get("pdf_sans_family").unwrap(), "Bai Jamjuree");
}

#[test]
fn first_equals_sign_is_the_separator() {
    let config = Config::parse("formula = a = b = c");
    assert_eq!(config.get("formula").unwrap(), "a = b = c");
}

#[test]
fn lines_without_equals_sign_are_skipped() {
    let config = Config::parse("# a comment\n\nnot an entry\nkey = value\ntrailing words");
    assert_eq!(config.get("key").unwrap(), "value");
    assert!(config.get("not an entry").is_err());
    assert!(config.get("# a comment").is_err());
    assert!(config.get("").is_err());
}

#[test]
fn absent_key_gives_an_error_that_names_it() {
    let config = Config::parse("a = 1\n");
    let error = config.get("paper_size").unwrap_err();
    assert_eq!(error, BuildError::MissingKey("paper_size".to_string()));
    assert_eq!(error.message(), "Missing config key: paper_size");
}

#[test]
fn later_entry_replaces_earlier_one() {
    let config = Config::parse("a = 1\nb = 2\na = 3\n");
    assert_eq!(config.get("a").unwrap(), "3");
    assert_eq!(config.get("b").unwrap(), "2");
}

#[test]
fn empty_key_and_empty_value_are_entries() {
    let config = Config::parse("= lonely\nempty =\n");
    assert_eq!(config.get("").unwrap(), "lonely");
    assert_eq!(config.get("empty").unwrap(), "");
}

#[test]
fn carriage_returns_and_tabs_are_trimmed() {
    let config = Config::parse("a = 1\r\n\tb\t=\t2\r\nc=\r\n");
    assert_eq!(config.get("a").unwrap(), "1");
    assert_eq!(config.get("b").unwrap(), "2");
    assert_eq!(config.get("c").unwrap(), "");
}

#[test]
fn empty_text_gives_empty_config() {
    let config = Config::parse("");
    assert!(config.get("a").is_err());
    let blank = Config::new();
    assert!(blank.get("a").is_err());
}

#[test]
fn default_config_has_every_required_key() {
    let config = Config::parse(&default_config());
    assert_eq!(config.get("pdf_sans_family").unwrap(), "Bai Jamjuree");
    assert_eq!(config.get("pdf_mono_family").unwrap(), "DejaVu Sans Mono");
    assert_eq!(config.get("pdf_standard_font").unwrap(), "sans");
    assert_eq!(config.get("pdf_default_font_size").unwrap(), "20");
    assert_eq!(config.get("pdf_mono_font_size").unwrap(), "20");
    assert_eq!(config.get("pdf_page_margin_left").unwrap(), "48");
    assert_eq!(config.get("pdf_page_margin_right").unwrap(), "48");
    assert_eq!(config.get("pdf_page_margin_top").unwrap(), "72");
    assert_eq!(config.get("pdf_page_margin_bottom").unwrap(), "108");
    assert_eq!(config.get("paper_size").unwrap(), "a4");
    assert_eq!(
        config.get("pdf_toc_title").unwrap(),
        "\u{0e2a}\u{0e32}\u{0e23}\u{0e1a}\u{0e31}\u{0e0d}"
    );
    assert!(PdfSettings::from_config(&config).is_ok());
}

#[test]
fn settings_name_the_first_missing_key() {
    let config = Config::parse("pdf_sans_family = a\npdf_standard_font = b\npaper_size = a4\n");
    assert_eq!(
        PdfSettings::from_config(&config).unwrap_err(),
        BuildError::MissingKey("pdf_mono_family".to_string())
    );
    assert_eq!(
        PdfSettings::from_config(&Config::new()).unwrap_err(),
        BuildError::MissingKey("pdf_sans_family".to_string())
    );
}
