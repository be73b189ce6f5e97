use portable_env::dialect::EnvType;
use portable_env::error::ProfileError;
use portable_env::rewrite::transform_vars;

#[test]
fn test_transform_vars() {
    assert_eq!(transform_vars("", EnvType::BASH).unwrap(), "");
    assert_eq!(transform_vars("b", EnvType::BASH).unwrap(), "b");
    assert_eq!(transform_vars("%ASD%", EnvType::BASH).unwrap(), "${ASD}");
    assert_eq!(transform_vars("%ASD%b", EnvType::BASH).unwrap(), "${ASD}b");
    assert_eq!(transform_vars("a%ASD%b", EnvType::BASH).unwrap(), "a${ASD}b");
    assert_eq!(transform_vars("a%%ASDb", EnvType::BASH).unwrap(), "a%ASDb");
}

#[test]
#[should_panic]
fn test_transform_vars_fail() {
    transform_vars("a%b", EnvType::BASH).unwrap();
}

#[test]
#[should_panic]
fn test_transform_vars_fail2() {
    transform_vars("a%%ASD%b", EnvType::BASH).unwrap();
}

#[test]
fn unterminated_placeholder_is_malformed() {
    assert_eq!(transform_vars("a%b", EnvType::BASH), Err(ProfileError::MalformedPlaceholder));
    assert_eq!(transform_vars("a%b", EnvType::POWERSHELL), Err(ProfileError::MalformedPlaceholder));
    assert_eq!(transform_vars("%ASD", EnvType::BASH), Err(ProfileError::MalformedPlaceholder));
}

#[test]
fn odd_delimiter_after_literal_percent_is_malformed() {
    assert_eq!(transform_vars("a%%ASD%b", EnvType::BASH), Err(ProfileError::MalformedPlaceholder));
    assert_eq!(
        transform_vars("a%%ASD%b", EnvType::POWERSHELL),
        Err(ProfileError::MalformedPlaceholder)
    );
}

#[test]
fn batch_values_stand_as_they_are() {
    assert_eq!(transform_vars("", EnvType::CMD).unwrap(), "");
    assert_eq!(transform_vars("%ASD%", EnvType::CMD).unwrap(), "%ASD%");
    assert_eq!(transform_vars("a%%ASDb", EnvType::CMD).unwrap(), "a%%ASDb");
    assert_eq!(transform_vars("a%b", EnvType::CMD).unwrap(), "a%b");
    assert_eq!(transform_vars("a%%ASD%b", EnvType::CMD).unwrap(), "a%%ASD%b");
}

#[test]
fn powershell_references_name_the_env_drive() {
    assert_eq!(transform_vars("%ASD%", EnvType::POWERSHELL).unwrap(), "${env:ASD}");
    assert_eq!(transform_vars("a%ASD%b", EnvType::POWERSHELL).unwrap(), "a${env:ASD}b");
    assert_eq!(transform_vars("a%%ASDb", EnvType::POWERSHELL).unwrap(), "a%ASDb");
    assert_eq!(
        transform_vars("%A%;%B%", EnvType::POWERSHELL).unwrap(),
        "${env:A};${env:B}"
    );
}

#[test]
fn text_without_percent_is_kept() {
    let samples = ["", "b", "C:\\tools\\bin", "a b c", "${HOME}", "d\u{e9}j\u{e0} vu", "$x:'y'"];
    for e in [EnvType::CMD, EnvType::BASH, EnvType::POWERSHELL] {
        for s in samples {
            assert_eq!(transform_vars(s, e).unwrap(), s);
        }
    }
}

#[test]
fn trailing_delimiter_is_a_literal_percent() {
    assert_eq!(transform_vars("%", EnvType::BASH).unwrap(), "%");
    assert_eq!(transform_vars("a%", EnvType::BASH).unwrap(), "a%");
    assert_eq!(transform_vars("100%", EnvType::POWERSHELL).unwrap(), "100%");
    assert_eq!(transform_vars("a%b%c%", EnvType::BASH).unwrap(), "a${b}c%");
}

#[test]
fn doubled_delimiter_is_a_literal_percent() {
    assert_eq!(transform_vars("%%", EnvType::BASH).unwrap(), "%");
    assert_eq!(transform_vars("a%%", EnvType::BASH).unwrap(), "a%");
    assert_eq!(transform_vars("%%%%", EnvType::BASH).unwrap(), "%%");
    assert_eq!(transform_vars("%%%A%", EnvType::BASH).unwrap(), "%${A}");
    assert_eq!(transform_vars("%A%%%", EnvType::POWERSHELL).unwrap(), "${env:A}%");
}

#[test]
fn several_placeholders_are_rewritten_in_order() {
    assert_eq!(
        transform_vars("%JAVA_HOME%\\bin;%ANT_HOME%\\bin", EnvType::BASH).unwrap(),
        "${JAVA_HOME}\\bin;${ANT_HOME}\\bin"
    );
    assert_eq!(transform_vars("%A%%B%", EnvType::BASH).unwrap(), "${A}${B}");
}

#[test]
fn characters_outside_ascii_are_kept() {
    assert_eq!(
        transform_vars("\u{fc}ber%NAME%\u{2713}", EnvType::BASH).unwrap(),
        "\u{fc}ber${NAME}\u{2713}"
    );
    assert_eq!(
        transform_vars("%N\u{c4}ME%", EnvType::POWERSHELL).unwrap(),
        "${env:N\u{c4}ME}"
    );
}
