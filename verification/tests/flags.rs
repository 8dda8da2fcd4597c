use totp::Config;
use totp::TotpError;
use totp::parse_args;

fn args(list: &[&str]) -> Vec<String> {
    list.iter().map(|a| a.to_string()).collect()
}

#[test]
fn no_arguments_mean_print_only() {
    assert_eq!(
        parse_args(&args(&[])),
        Ok(Config { copy: false, quiet: false })
    );
}

#[test]
fn recognises_copy_and_quiet_in_both_spellings() {
    assert_eq!(
        parse_args(&args(&["--copy"])),
        Ok(Config { copy: true, quiet: false })
    );
    assert_eq!(
        parse_args(&args(&["-c"])),
        Ok(Config { copy: true, quiet: false })
    );
    assert_eq!(
        parse_args(&args(&["--quiet"])),
        Ok(Config { copy: false, quiet: true })
    );
    assert_eq!(
        parse_args(&args(&["-q"])),
        Ok(Config { copy: false, quiet: true })
    );
    assert_eq!(
        parse_args(&args(&["-q", "--copy"])),
        Ok(Config { copy: true, quiet: true })
    );
}

#[test]
fn rejects_an_unexpected_argument() {
    assert_eq!(
        parse_args(&args(&["--bogus"])),
        Err(TotpError::ArgumentError(
            "Unexpected argument: --bogus".to_string()
        ))
    );
}

#[test]
fn reports_the_first_unexpected_argument() {
    assert_eq!(
        parse_args(&args(&["--copy", "extra", "-q", "more"])),
        Err(TotpError::ArgumentError(
            "Unexpected argument: extra".to_string()
        ))
    );
}

#[test]
fn quiet_without_copy_is_rejected() {
    let config = parse_args(&args(&["--quiet"])).unwrap();
    assert_eq!(
        config.validate(),
        Err(TotpError::ArgumentError(
            "Nothing to do: either remove --quiet or add --copy".to_string()
        ))
    );
}

#[test]
fn quiet_with_copy_is_accepted() {
    let config = parse_args(&args(&["--quiet", "--copy"])).unwrap();
    assert_eq!(config.validate(), Ok(()));
    assert_eq!(parse_args(&args(&[])).unwrap().validate(), Ok(()));
    assert_eq!(parse_args(&args(&["-c"])).unwrap().validate(), Ok(()));
}
