use portable_env::config::{parse_entry, parse_profile};
use portable_env::dialect::EnvType;
use portable_env::error::ProfileError;
use portable_env::mutation::ModType;
use portable_env::record::Record;
use portable_env::script::{generate_script, IncludeRecord, MutationRecord, ProfileEntry};

fn record(fields: &[(&str, &str)]) -> Record {
    let mut r = Record::new();
    for (k, v) in fields {
        r.insert(k.to_string(), v.to_string());
    }
    r
}

#[test]
fn new_record_has_no_keys() {
    let r = Record::new();
    assert_eq!(r.get("command"), None);
    assert_eq!(r.get(""), None);
}

#[test]
fn values_are_found_by_key() {
    let r = record(&[("command", "env"), ("key", "PATH"), ("value", "x")]);
    assert_eq!(r.get("command"), Some(&"env".to_string()));
    assert_eq!(r.get("key"), Some(&"PATH".to_string()));
    assert_eq!(r.get("value"), Some(&"x".to_string()));
    assert_eq!(r.get("mode"), None);
    assert_eq!(r.get("Key"), None);
    assert_eq!(r.get("ke"), None);
}

#[test]
fn setting_a_key_again_replaces_its_value() {
    let mut r = record(&[("key", "first"), ("mode", "SET")]);
    r.insert("key".to_string(), "second".to_string());
    assert_eq!(r.get("key"), Some(&"second".to_string()));
    assert_eq!(r.get("mode"), Some(&"SET".to_string()));
    r.insert("mode".to_string(), "PATH".to_string());
    assert_eq!(r.get("key"), Some(&"second".to_string()));
    assert_eq!(r.get("mode"), Some(&"PATH".to_string()));
}

#[test]
fn keys_outside_ascii_are_told_apart() {
    let r = record(&[("cl\u{e9}", "a"), ("cle", "b")]);
    assert_eq!(r.get("cl\u{e9}"), Some(&"a".to_string()));
    assert_eq!(r.get("cle"), Some(&"b".to_string()));
}

#[test]
fn env_record_becomes_a_mutation() {
    let r = record(&[("command", "env"), ("key", "FOO"), ("value", "bar"), ("mode", "SET")]);
    assert_eq!(
        parse_entry(&r),
        Ok(ProfileEntry::Mutation(MutationRecord {
            variable_name: "FOO".to_string(),
            raw_value: "bar".to_string(),
            kind: ModType::SET,
        }))
    );
    let r = record(&[("mode", "PATH"), ("value", "C:\\x"), ("key", "X_HOME"), ("command", "env")]);
    assert_eq!(
        parse_entry(&r),
        Ok(ProfileEntry::Mutation(MutationRecord {
            variable_name: "X_HOME".to_string(),
            raw_value: "C:\\x".to_string(),
            kind: ModType::PATH,
        }))
    );
}

#[test]
fn every_mode_is_read() {
    let modes = [
        ("PREPEND_PATH", ModType::PREPEND_PATH),
        ("APPEND_PATH", ModType::APPEND_PATH),
        ("SET", ModType::SET),
        ("PATH", ModType::PATH),
    ];
    for (token, kind) in modes {
        let r = record(&[("command", "env"), ("key", "K"), ("value", "v"), ("mode", token)]);
        assert_eq!(
            parse_entry(&r),
            Ok(ProfileEntry::Mutation(MutationRecord {
                variable_name: "K".to_string(),
                raw_value: "v".to_string(),
                kind,
            }))
        );
    }
}

#[test]
fn source_record_becomes_an_include() {
    let r = record(&[("command", "source"), ("env", "jdk17")]);
    assert_eq!(
        parse_entry(&r),
        Ok(ProfileEntry::Include(IncludeRecord { profile_name: "jdk17".to_string() }))
    );
}

#[test]
fn record_without_command_misses_a_field() {
    assert_eq!(parse_entry(&Record::new()), Err(ProfileError::MissingField));
    let r = record(&[("key", "FOO"), ("value", "bar"), ("mode", "SET")]);
    assert_eq!(parse_entry(&r), Err(ProfileError::MissingField));
}

#[test]
fn env_record_needs_key_value_and_mode() {
    let r = record(&[("command", "env"), ("value", "bar"), ("mode", "SET")]);
    assert_eq!(parse_entry(&r), Err(ProfileError::MissingField));
    let r = record(&[("command", "env"), ("key", "FOO"), ("mode", "SET")]);
    assert_eq!(parse_entry(&r), Err(ProfileError::MissingField));
    let r = record(&[("command", "env"), ("key", "FOO"), ("value", "bar")]);
    assert_eq!(parse_entry(&r), Err(ProfileError::MissingField));
}

#[test]
fn source_record_needs_env() {
    let r = record(&[("command", "source")]);
    assert_eq!(parse_entry(&r), Err(ProfileError::MissingField));
    let r = record(&[("command", "source"), ("key", "jdk17")]);
    assert_eq!(parse_entry(&r), Err(ProfileError::MissingField));
}

#[test]
fn unknown_command_is_refused() {
    let r = record(&[("command", "unset"), ("key", "FOO")]);
    assert_eq!(parse_entry(&r), Err(ProfileError::UnknownCommand));
    let r = record(&[("command", "ENV"), ("key", "FOO"), ("value", "bar"), ("mode", "SET")]);
    assert_eq!(parse_entry(&r), Err(ProfileError::UnknownCommand));
    let r = record(&[("command", "")]);
    assert_eq!(parse_entry(&r), Err(ProfileError::UnknownCommand));
}

#[test]
fn unknown_mode_is_refused() {
    let r = record(&[("command", "env"), ("key", "FOO"), ("value", "bar"), ("mode", "REPLACE")]);
    assert_eq!(parse_entry(&r), Err(ProfileError::UnknownMutationKind));
}

#[test]
fn missing_field_is_reported_before_unknown_mode() {
    let r = record(&[("command", "env"), ("key", "FOO"), ("mode", "REPLACE")]);
    assert_eq!(parse_entry(&r), Err(ProfileError::MissingField));
}

#[test]
fn malformed_value_is_accepted_when_read() {
    let r = record(&[("command", "env"), ("key", "FOO"), ("value", "a%b"), ("mode", "SET")]);
    assert!(parse_entry(&r).is_ok());
}

#[test]
fn profile_keeps_the_order_of_its_records() {
    let records = vec![
        record(&[("command", "source"), ("env", "jdk17")]),
        record(&[
            ("command", "env"),
            ("key", "ANT_HOME"),
            ("value", "C:\\portable\\ant-1.9"),
            ("mode", "PATH"),
        ]),
        record(&[
            ("command", "env"),
            ("key", "PATH"),
            ("value", "%ANT_HOME%\\bin"),
            ("mode", "PREPEND_PATH"),
        ]),
    ];
    let entries = parse_profile(&records).unwrap();
    assert_eq!(
        entries,
        vec![
            ProfileEntry::Include(IncludeRecord { profile_name: "jdk17".to_string() }),
            ProfileEntry::Mutation(MutationRecord {
                variable_name: "ANT_HOME".to_string(),
                raw_value: "C:\\portable\\ant-1.9".to_string(),
                kind: ModType::PATH,
            }),
            ProfileEntry::Mutation(MutationRecord {
                variable_name: "PATH".to_string(),
                raw_value: "%ANT_HOME%\\bin".to_string(),
                kind: ModType::PREPEND_PATH,
            }),
        ]
    );
    assert_eq!(
        generate_script(&entries, EnvType::BASH).unwrap(),
        "# this-file-is-marked-for-removal-on-generation\n\
         source env_jdk17.sh\n\
         export ANT_HOME=`cygpath -p  \"C:\\portable\\ant-1.9\"`\n\
         export PATH=`cygpath -p  \"\\${ANT_HOME}\\bin\"`:${PATH}\n"
    );
}

#[test]
fn empty_profile_has_no_entries() {
    assert_eq!(parse_profile(&Vec::new()), Ok(Vec::new()));
}

#[test]
fn first_refused_record_decides_the_error() {
    let good = || record(&[("command", "source"), ("env", "jdk17")]);
    let unknown_command = || record(&[("command", "run")]);
    let unknown_mode =
        || record(&[("command", "env"), ("key", "K"), ("value", "v"), ("mode", "NONE")]);
    let missing = || record(&[("command", "source")]);
    assert_eq!(
        parse_profile(&vec![good(), unknown_command(), unknown_mode()]),
        Err(ProfileError::UnknownCommand)
    );
    assert_eq!(
        parse_profile(&vec![unknown_mode(), good(), missing()]),
        Err(ProfileError::UnknownMutationKind)
    );
    assert_eq!(
        parse_profile(&vec![good(), good(), missing(), unknown_command()]),
        Err(ProfileError::MissingField)
    );
}
