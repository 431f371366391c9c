use rcli::cli::base64::parse_format as parse_base64_format;
use rcli::cli::csv::parse_format as parse_output_format;
use rcli::cli::jwt::parse_exp_time;
use rcli::cli::text::{parse_crypt_format, parse_verify_format};
use rcli::cli::{check_dir_path, check_input_file, str_eq, verify_file, verify_path};
use rcli::{
    Base64Format, CliError, ExpObj, OutputFormat, TextCryptFormat, TextError, TextSignFormat,
    TimeUnit,
};

#[test]
fn test_verify_input_file() {
    assert_eq!(verify_file("-"), Ok("-".into()));
    assert_eq!(verify_file("*"), Err("File does not exist"));
    assert_eq!(verify_file("src/lib.rs"), Ok("src/lib.rs".into()));
}

#[test]
fn verify_path_accepts_only_directories() {
    assert_eq!(verify_path("."), Ok(".".to_string()));
    assert_eq!(
        verify_path("Cargo.toml"),
        Err("Path does not exist or is not a directory")
    );
    assert_eq!(
        verify_path("no/such/dir"),
        Err("Path does not exist or is not a directory")
    );
}

#[test]
fn designator_checks_on_given_answers() {
    assert_eq!(check_input_file("-", false), Ok("-".to_string()));
    assert_eq!(check_input_file("a.txt", true), Ok("a.txt".to_string()));
    assert_eq!(check_input_file("a.txt", false), Err("File does not exist"));
    assert_eq!(check_dir_path("d", true, true), Ok("d".to_string()));
    assert_eq!(
        check_dir_path("d", true, false),
        Err("Path does not exist or is not a directory")
    );
    assert_eq!(
        check_dir_path("d", false, false),
        Err("Path does not exist or is not a directory")
    );
}

#[test]
fn strings_compare_by_characters() {
    assert!(str_eq("blake3", "blake3"));
    assert!(!str_eq("blake3", "blake"));
    assert!(!str_eq("ed25519", "Ed25519"));
    assert!(str_eq("", ""));
    assert!(str_eq("ünï", "ünï"));
}

#[test]
fn sign_and_crypt_selectors_parse() {
    assert_eq!(parse_verify_format("blake3"), Ok(TextSignFormat::Blake3));
    assert_eq!(parse_verify_format("ed25519"), Ok(TextSignFormat::Ed25519));
    assert_eq!(
        parse_verify_format("rsa"),
        Err(TextError::UnsupportedAlgorithm)
    );
    assert_eq!(
        parse_crypt_format("chacha20poly1305"),
        Ok(TextCryptFormat::Chacha20poly1305)
    );
    assert_eq!(
        parse_crypt_format("aes"),
        Err(TextError::UnsupportedAlgorithm)
    );
    assert_eq!(TextSignFormat::Ed25519.as_str(), "ed25519");
    assert_eq!(TextSignFormat::Blake3.as_str(), "blake3");
    assert_eq!(TextCryptFormat::Chacha20poly1305.as_str(), "chacha20poly1305");
}

#[test]
fn base64_and_output_formats_parse() {
    assert_eq!(parse_base64_format("standard"), Ok(Base64Format::Standard));
    assert_eq!(parse_base64_format("urlsafe"), Ok(Base64Format::UrlSafe));
    assert_eq!(parse_base64_format("url"), Err(CliError::InvalidFormat));
    assert_eq!(Base64Format::UrlSafe.as_str(), "urlsafe");
    assert_eq!(parse_output_format("json"), Ok(OutputFormat::Json));
    assert_eq!(parse_output_format("yaml"), Ok(OutputFormat::Yaml));
    assert_eq!(parse_output_format("toml"), Ok(OutputFormat::Toml));
    assert_eq!(parse_output_format("xml"), Err(CliError::UnsupportedFormat));
    assert_eq!(OutputFormat::Yaml.as_str(), "yaml");
}

#[test]
fn expiry_strings_parse() {
    assert_eq!(parse_exp_time("14D"), Ok(ExpObj::new(14, TimeUnit::Day)));
    assert_eq!(parse_exp_time("3M"), Ok(ExpObj::new(3, TimeUnit::Month)));
    assert_eq!(parse_exp_time("90m"), Ok(ExpObj::new(90, TimeUnit::Minute)));
    assert_eq!(parse_exp_time("-2D"), Ok(ExpObj::new(-2, TimeUnit::Day)));
    assert_eq!(parse_exp_time("+7m"), Ok(ExpObj::new(7, TimeUnit::Minute)));
    assert_eq!(parse_exp_time("xD"), Ok(ExpObj::new(14, TimeUnit::Day)));
    assert_eq!(parse_exp_time("D"), Ok(ExpObj::new(14, TimeUnit::Day)));
    assert_eq!(
        parse_exp_time("9223372036854775808M"),
        Ok(ExpObj::new(14, TimeUnit::Month))
    );
    assert_eq!(
        parse_exp_time("-9223372036854775808m"),
        Ok(ExpObj::new(i64::MIN, TimeUnit::Minute))
    );
    assert_eq!(parse_exp_time(""), Err(CliError::InvalidTimeUnit));
    assert_eq!(parse_exp_time("5Y"), Err(CliError::InvalidTimeUnit));
    assert_eq!(TimeUnit::from_name("M"), Ok(TimeUnit::Month));
    assert_eq!(TimeUnit::from_name("d"), Err(CliError::InvalidTimeUnit));
    assert_eq!(TimeUnit::Minute.as_str(), "m");
}

#[test]
fn expiry_in_seconds() {
    assert_eq!(ExpObj::new(14, TimeUnit::Day).seconds(), Some(1_209_600));
    assert_eq!(ExpObj::new(1, TimeUnit::Month).seconds(), Some(2_592_000));
    assert_eq!(ExpObj::new(5, TimeUnit::Minute).seconds(), Some(300));
    assert_eq!(ExpObj::new(i64::MAX, TimeUnit::Minute).seconds(), None);
}

#[test]
fn key_files_are_named_by_family() {
    let mac = rcli::TextKeyGenerateOpts {
        format: TextSignFormat::Blake3,
        output: ".".to_string(),
    };
    assert_eq!(mac.key_file_names(), vec!["blake3.txt"]);
    let pair = rcli::TextKeyGenerateOpts {
        format: TextSignFormat::Ed25519,
        output: ".".to_string(),
    };
    assert_eq!(pair.key_file_names(), vec!["ed25519.sk", "ed25519.pk"]);
}
