//! Turning one mutation of a variable into the line of script that performs it.

use vstd::prelude::*;
use vstd::string::StringExecFns;
use crate::dialect::{
    generate_get_env, generate_separator, line_end_text, reference_text, separator_text, EnvType,
};
use crate::error::ProfileError;
use crate::path::{fixed_path_text, generate_fix_path};
use crate::rewrite::{rewritten, transform_vars};
use crate::text::same_text;

verus! {

/// How the value of a mutation is combined with what the variable held before.
#[allow(non_camel_case_types)]
#[derive(Clone, Copy, Debug, PartialEq, Eq, Structural)]
pub enum ModType {
    /// The value is a path that goes in front of the variable's path list.
    PREPEND_PATH,
    /// The value is a path that goes behind the variable's path list.
    APPEND_PATH,
    /// The value replaces what the variable held.
    SET,
    /// The value is a path that replaces what the variable held.
    PATH,
}

/// The kind of mutation that the token `token` of a configuration names, if any.
pub open spec fn mod_type_of(token: Seq<char>) -> Option<ModType> {
    if token == "PREPEND_PATH"@ {
        Some(ModType::PREPEND_PATH)
    } else if token == "APPEND_PATH"@ {
        Some(ModType::APPEND_PATH)
    } else if token == "SET"@ {
        Some(ModType::SET)
    } else if token == "PATH"@ {
        Some(ModType::PATH)
    } else {
        None
    }
}

/// The plain value `value` as shell `e` has to spell it in an assignment: a
/// POSIX shell gets it in single quotes, which keep it in one word.
pub open spec fn set_value_text(value: Seq<char>, e: EnvType) -> Seq<char> {
    if e == EnvType::BASH {
        "'"@ + value + "'"@
    } else {
        value
    }
}

/// The right-hand side of the assignment that applies a mutation of kind `m`
/// to the variable `name`, where `value` is the rewritten value.
pub open spec fn combined_text(name: Seq<char>, value: Seq<char>, m: ModType, e: EnvType) -> Seq<
    char,
> {
    match m {
        ModType::PREPEND_PATH => fixed_path_text(value, e) + separator_text(e) + reference_text(
            name,
            e,
        ),
        ModType::APPEND_PATH => reference_text(name, e) + separator_text(e) + fixed_path_text(
            value,
            e,
        ),
        ModType::SET => set_value_text(value, e),
        ModType::PATH => fixed_path_text(value, e),
    }
}

/// The right-hand side for the raw value `value`, or `None` where its
/// placeholders are malformed.
pub open spec fn mod_env_value_text(
    name: Seq<char>,
    value: Seq<char>,
    m: ModType,
    e: EnvType,
) -> Option<Seq<char>> {
    match rewritten(value, e) {
        Some(evaluated) => Some(combined_text(name, evaluated, m, e)),
        None => None,
    }
}

/// The statement, line end included, that assigns `rhs` to the variable `name`.
pub open spec fn assignment_text(name: Seq<char>, rhs: Seq<char>, e: EnvType) -> Seq<char> {
    match e {
        EnvType::CMD => "set "@ + name + "="@ + rhs + line_end_text(e),
        EnvType::POWERSHELL => "$env:"@ + name + "=\""@ + rhs + "\""@ + line_end_text(e),
        EnvType::BASH => "export "@ + name + "="@ + rhs + line_end_text(e),
    }
}

/// The whole line for a mutation, or `None` where the placeholders of its
/// value are malformed.
pub open spec fn mod_env_text(name: Seq<char>, value: Seq<char>, m: ModType, e: EnvType) -> Option<
    Seq<char>,
> {
    match mod_env_value_text(name, value, m, e) {
        Some(rhs) => Some(assignment_text(name, rhs, e)),
        None => None,
    }
}

/// Reads the kind of a mutation from its token in the configuration.
///
/// Fails with `UnknownMutationKind` exactly where `s` is none of
/// `PREPEND_PATH`, `APPEND_PATH`, `SET` and `PATH`.
pub fn get_mod_type_by_str(s: &str) -> (result: Result<ModType, ProfileError>)
    ensures
        match result {
            Ok(m) => mod_type_of(s@) == Some(m),
            Err(error) => error == ProfileError::UnknownMutationKind && mod_type_of(s@) is None,
        },
{
    if same_text(s, "PREPEND_PATH") {
        Ok(ModType::PREPEND_PATH)
    } else if same_text(s, "APPEND_PATH") {
        Ok(ModType::APPEND_PATH)
    } else if same_text(s, "SET") {
        Ok(ModType::SET)
    } else if same_text(s, "PATH") {
        Ok(ModType::PATH)
    } else {
        Err(ProfileError::UnknownMutationKind)
    }
}

/// Spells the rewritten value `eval_value` of a `SET` mutation for the shell `t`.
pub fn generate_mod_env_set_value(eval_value: &str, t: EnvType) -> (text: String)
    ensures
        text@ == set_value_text(eval_value@, t),
{
    match t {
        EnvType::CMD | EnvType::POWERSHELL => String::from_str(eval_value),
        EnvType::BASH => {
            let mut text = String::from_str("'");
            text.append(eval_value);
            text.append("'");
            text
        },
    }
}

/// Produces the right-hand side of the assignment that applies the mutation.
///
/// Fails with `MalformedPlaceholder` exactly where the placeholders of
/// `value` are malformed for the shell `e`.
pub fn generate_mod_env_value(name: &str, value: &str, m: ModType, e: EnvType) -> (result: Result<
    String,
    ProfileError,
>)
    ensures
        match result {
            Ok(text) => mod_env_value_text(name@, value@, m, e) == Some(text@),
            Err(error) => error == ProfileError::MalformedPlaceholder && mod_env_value_text(
                name@,
                value@,
                m,
                e,
            ) is None,
        },
{
    let eval_value = match transform_vars(value, e) {
        Ok(text) => text,
        Err(error) => {
            return Err(error);
        },
    };
    match m {
        ModType::PREPEND_PATH => {
            let mut s = generate_fix_path(eval_value.as_str(), e);
            s.append(generate_separator(e));
            s.append(generate_get_env(name, e).as_str());
            Ok(s)
        },
        ModType::APPEND_PATH => {
            let mut s = generate_get_env(name, e);
            s.append(generate_separator(e));
            s.append(generate_fix_path(eval_value.as_str(), e).as_str());
            Ok(s)
        },
        ModType::SET => Ok(generate_mod_env_set_value(eval_value.as_str(), e)),
        ModType::PATH => Ok(generate_fix_path(eval_value.as_str(), e)),
    }
}

/// Produces the line of script, line end included, that applies the mutation.
///
/// Fails with `MalformedPlaceholder` exactly where the placeholders of
/// `value` are malformed for the shell `e`.
pub fn generate_mod_env(name: &str, value: &str, m: ModType, e: EnvType) -> (result: Result<
    String,
    ProfileError,
>)
    ensures
        match result {
            Ok(line) => mod_env_text(name@, value@, m, e) == Some(line@),
            Err(error) => error == ProfileError::MalformedPlaceholder && mod_env_text(
                name@,
                value@,
                m,
                e,
            ) is None,
        },
{
    let mod_env_val = match generate_mod_env_value(name, value, m, e) {
        Ok(text) => text,
        Err(error) => {
            return Err(error);
        },
    };
    let mut line = String::new();
    match e {
        EnvType::CMD => {
            line.append("set ");
            line.append(name);
            line.append("=");
            line.append(mod_env_val.as_str());
            line.append("\r\n");
        },
        EnvType::POWERSHELL => {
            line.append("$env:");
            line.append(name);
            line.append("=\"");
            line.append(mod_env_val.as_str());
            line.append("\"");
            line.append("\r\n");
        },
        EnvType::BASH => {
            line.append("export ");
            line.append(name);
            line.append("=");
            line.append(mod_env_val.as_str());
            line.append("\n");
        },
    }
    Ok(line)
}

} // verus!
