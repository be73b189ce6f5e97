//! The target shells and the fixed pieces of syntax that belong to each.

use vstd::prelude::*;
use vstd::string::StringExecFns;

verus! {

/// A shell for which activation scripts are produced.
#[allow(non_camel_case_types)]
#[derive(Clone, Copy, Debug, PartialEq, Eq, Structural)]
pub enum EnvType {
    /// Windows batch files run by `cmd.exe`.
    CMD,
    /// POSIX shell scripts, sourced by bash under Cygwin or MSYS.
    BASH,
    /// PowerShell scripts.
    POWERSHELL,
}

/// The token that marks a file as generated, so that it may be deleted before
/// the scripts are generated again.
pub const AUTOREMOVE_MARKER: &'static str = "this-file-is-marked-for-removal-on-generation";

/// The characters that separate the entries of a path list.
pub open spec fn separator_text(e: EnvType) -> Seq<char> {
    match e {
        EnvType::CMD => ";"@,
        EnvType::BASH => ":"@,
        EnvType::POWERSHELL => ";"@,
    }
}

/// The characters that end a line of a script.
pub open spec fn line_end_text(e: EnvType) -> Seq<char> {
    match e {
        EnvType::CMD => "\r\n"@,
        EnvType::BASH => "\n"@,
        EnvType::POWERSHELL => "\r\n"@,
    }
}

/// The characters that open a comment line.
pub open spec fn comment_prefix_text(e: EnvType) -> Seq<char> {
    match e {
        EnvType::CMD => "@rem "@,
        EnvType::BASH => "# "@,
        EnvType::POWERSHELL => "# "@,
    }
}

/// The name of the directory, below the output root, that holds the scripts of one shell.
pub open spec fn subdir_text(e: EnvType) -> Seq<char> {
    match e {
        EnvType::CMD => "cmd"@,
        EnvType::BASH => "bash"@,
        EnvType::POWERSHELL => "ps"@,
    }
}

/// The extension of a script's file name, without the dot.
pub open spec fn extension_text(e: EnvType) -> Seq<char> {
    match e {
        EnvType::CMD => "bat"@,
        EnvType::BASH => "sh"@,
        EnvType::POWERSHELL => "ps1"@,
    }
}

/// The expression by which a script reads the current value of the variable `name`.
pub open spec fn reference_text(name: Seq<char>, e: EnvType) -> Seq<char> {
    match e {
        EnvType::CMD => "%"@ + name + "%"@,
        EnvType::BASH => "${"@ + name + "}"@,
        EnvType::POWERSHELL => "${env:"@ + name + "}"@,
    }
}

/// The first line of every generated script: a comment that holds the marker.
pub open spec fn marker_line_text(e: EnvType) -> Seq<char> {
    comment_prefix_text(e) + AUTOREMOVE_MARKER@ + line_end_text(e)
}

/// Returns all the shells, in the order in which their scripts are written.
pub fn all_env_types() -> (all: [EnvType; 3])
    ensures
        all@ == seq![EnvType::CMD, EnvType::BASH, EnvType::POWERSHELL],
        forall|e: EnvType| all@.contains(e),
{
    let all = [EnvType::CMD, EnvType::BASH, EnvType::POWERSHELL];
    assert(all@ =~= seq![EnvType::CMD, EnvType::BASH, EnvType::POWERSHELL]);
    assert forall|e: EnvType| all@.contains(e) by {
        match e {
            EnvType::CMD => assert(all@[0] == e),
            EnvType::BASH => assert(all@[1] == e),
            EnvType::POWERSHELL => assert(all@[2] == e),
        }
    }
    all
}

/// Returns the separator between the entries of a path list.
pub fn generate_separator(e: EnvType) -> (sep: &'static str)
    ensures
        sep@ == separator_text(e),
{
    match e {
        EnvType::CMD => ";",
        EnvType::BASH => ":",
        EnvType::POWERSHELL => ";",
    }
}

/// Returns the line terminator of the shell's scripts.
pub fn line_end(e: EnvType) -> (end: &'static str)
    ensures
        end@ == line_end_text(e),
{
    match e {
        EnvType::CMD => "\r\n",
        EnvType::BASH => "\n",
        EnvType::POWERSHELL => "\r\n",
    }
}

/// Returns the text that opens a comment line.
pub fn comment_prefix(e: EnvType) -> (prefix: &'static str)
    ensures
        prefix@ == comment_prefix_text(e),
{
    match e {
        EnvType::CMD => "@rem ",
        EnvType::BASH => "# ",
        EnvType::POWERSHELL => "# ",
    }
}

/// Returns the name of the directory that holds the scripts of one shell.
pub fn output_subdir(e: EnvType) -> (subdir: &'static str)
    ensures
        subdir@ == subdir_text(e),
{
    match e {
        EnvType::CMD => "cmd",
        EnvType::BASH => "bash",
        EnvType::POWERSHELL => "ps",
    }
}

/// Returns the extension of the shell's script files, without the dot.
pub fn output_extension(e: EnvType) -> (extension: &'static str)
    ensures
        extension@ == extension_text(e),
{
    match e {
        EnvType::CMD => "bat",
        EnvType::BASH => "sh",
        EnvType::POWERSHELL => "ps1",
    }
}

/// Returns the expression by which a script reads the variable `name`.
pub fn generate_get_env(name: &str, e: EnvType) -> (reference: String)
    ensures
        reference@ == reference_text(name@, e),
{
    let (open, close) = match e {
        EnvType::CMD => ("%", "%"),
        EnvType::BASH => ("${", "}"),
        EnvType::POWERSHELL => ("${env:", "}"),
    };
    let mut reference = String::from_str(open);
    reference.append(name);
    reference.append(close);
    reference
}

/// Returns the comment line that opens every generated script.
pub fn marker_line(e: EnvType) -> (line: String)
    ensures
        line@ == marker_line_text(e),
{
    let mut line = String::from_str(comment_prefix(e));
    line.append(AUTOREMOVE_MARKER);
    line.append(line_end(e));
    line
}

} // verus!
