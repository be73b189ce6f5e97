//! Profiles and the scripts that are generated from them.
//!
//! A profile is an ordered list of entries. Each entry becomes one line of the
//! script, in the order given; nothing is reordered, merged or left out.

use vstd::prelude::*;
use vstd::string::StringExecFns;
use crate::dialect::{
    extension_text, line_end_text, marker_line, marker_line_text, output_extension, output_subdir,
    subdir_text, EnvType,
};
use crate::error::ProfileError;
use crate::mutation::{generate_mod_env, mod_env_text, ModType};

verus! {

/// One mutation of an environment variable.
#[derive(Clone, Debug, PartialEq, Eq)]
pub struct MutationRecord {
    /// The name of the variable.
    pub variable_name: String,
    /// The value as the configuration gives it, placeholders included.
    pub raw_value: String,
    /// How the value is combined with what the variable held before.
    pub kind: ModType,
}

/// A reference to another profile, whose script is run first.
#[derive(Clone, Debug, PartialEq, Eq)]
pub struct IncludeRecord {
    /// The name of the profile referred to.
    pub profile_name: String,
}

/// One entry of a profile.
#[derive(Clone, Debug, PartialEq, Eq)]
pub enum ProfileEntry {
    /// A variable is changed.
    Mutation(MutationRecord),
    /// Another profile is brought in.
    Include(IncludeRecord),
}

/// What an entry of a profile says, as plain text.
pub enum EntryModel {
    /// The variable `name` is changed by `value` in the way `kind`.
    Mutation { name: Seq<char>, value: Seq<char>, kind: ModType },
    /// The profile `profile` is brought in.
    Include { profile: Seq<char> },
}

impl View for MutationRecord {
    type V = EntryModel;

    open spec fn view(&self) -> EntryModel {
        EntryModel::Mutation {
            name: self.variable_name@,
            value: self.raw_value@,
            kind: self.kind,
        }
    }
}

impl View for IncludeRecord {
    type V = EntryModel;

    open spec fn view(&self) -> EntryModel {
        EntryModel::Include { profile: self.profile_name@ }
    }
}

impl View for ProfileEntry {
    type V = EntryModel;

    open spec fn view(&self) -> EntryModel {
        match self {
            ProfileEntry::Mutation(record) => record@,
            ProfileEntry::Include(record) => record@,
        }
    }
}

impl DeepView for ProfileEntry {
    type V = EntryModel;

    open spec fn deep_view(&self) -> EntryModel {
        self@
    }
}

/// Where the script of one profile for one shell is written.
#[derive(Clone, Debug, PartialEq, Eq)]
pub struct ScriptPath {
    /// The output root, as the caller gave it.
    pub root: String,
    /// The directory below the root that holds the scripts of the shell.
    pub subdir: String,
    /// The name of the script's file in that directory.
    pub file_name: String,
}

/// The file name of the script of profile `script_name` for shell `e`.
pub open spec fn script_file_name_text(e: EnvType, script_name: Seq<char>) -> Seq<char> {
    "env_"@ + script_name + "."@ + extension_text(e)
}

/// The line by which a script runs the script in `file`, which lies beside it.
pub open spec fn src_env_text(file: Seq<char>, e: EnvType) -> Seq<char> {
    match e {
        EnvType::CMD => "call %~dp0\\"@ + file + line_end_text(e),
        EnvType::BASH => "source "@ + file + line_end_text(e),
        EnvType::POWERSHELL => ". "@ + file + line_end_text(e),
    }
}

/// The line of script for one entry, or `None` where it is a mutation whose
/// value has malformed placeholders.
pub open spec fn entry_text(entry: EntryModel, e: EnvType) -> Option<Seq<char>> {
    match entry {
        EntryModel::Mutation { name, value, kind } => mod_env_text(name, value, kind, e),
        EntryModel::Include { profile } => Some(src_env_text(script_file_name_text(e, profile), e)),
    }
}

/// The lines for all of `entries`, in their order, or `None` where one of
/// them has none.
pub open spec fn script_body_text(entries: Seq<EntryModel>, e: EnvType) -> Option<Seq<char>>
    decreases entries.len(),
{
    if entries.len() == 0 {
        Some(Seq::empty())
    } else {
        match (script_body_text(entries.drop_last(), e), entry_text(entries.last(), e)) {
            (Some(before), Some(line)) => Some(before + line),
            _ => None,
        }
    }
}

/// The whole script of a profile: the marker line, then the lines of the
/// entries.
pub open spec fn script_text(entries: Seq<EntryModel>, e: EnvType) -> Option<Seq<char>> {
    match script_body_text(entries, e) {
        Some(body) => Some(marker_line_text(e) + body),
        None => None,
    }
}

/// Whether `result` is what generating the script of `entries` for the shell
/// `e` returns: the script where every entry has its line, and
/// `MalformedPlaceholder` where one has none.
pub open spec fn is_script_outcome(
    result: Result<String, ProfileError>,
    entries: Seq<EntryModel>,
    e: EnvType,
) -> bool {
    match result {
        Ok(content) => script_text(entries, e) == Some(content@),
        Err(error) => error == ProfileError::MalformedPlaceholder && script_text(entries, e)
            is None,
    }
}

/// Where a part of a profile has no script, the whole profile has none.
proof fn lemma_body_of_prefix(entries: Seq<EntryModel>, k: int, e: EnvType)
    requires
        0 <= k <= entries.len(),
        script_body_text(entries.take(k), e) is None,
    ensures
        script_body_text(entries, e) is None,
    decreases entries.len() - k,
{
    if k == entries.len() {
        assert(entries.take(k) =~= entries);
    } else {
        assert(entries.take(k + 1).drop_last() =~= entries.take(k));
        lemma_body_of_prefix(entries, k + 1, e);
    }
}

/// Generating the script of the same entries for the same shell twice gives
/// the same outcome: the same characters, or the same error.
pub proof fn generate_script_is_deterministic(
    entries: Seq<EntryModel>,
    e: EnvType,
    first: Result<String, ProfileError>,
    second: Result<String, ProfileError>,
)
    requires
        is_script_outcome(first, entries, e),
        is_script_outcome(second, entries, e),
    ensures
        match (first, second) {
            (Ok(a), Ok(b)) => a@ == b@,
            (Err(a), Err(b)) => a == b,
            _ => false,
        },
{
}

/// Every script begins with the marker line of its shell.
pub proof fn script_begins_with_marker_line(entries: Seq<EntryModel>, e: EnvType)
    requires
        script_text(entries, e) is Some,
    ensures
        marker_line_text(e).is_prefix_of(script_text(entries, e).unwrap()),
{
}

/// The script of a list of entries is the marker line followed by the lines
/// of the entries in their order: the lines of two lists put together are the
/// lines of the first followed by those of the second.
pub proof fn script_body_of_concatenation(
    first: Seq<EntryModel>,
    second: Seq<EntryModel>,
    e: EnvType,
)
    ensures
        script_body_text(first + second, e) == match (
            script_body_text(first, e),
            script_body_text(second, e),
        ) {
            (Some(a), Some(b)) => Some(a + b),
            _ => None,
        },
    decreases second.len(),
{
    if second.len() == 0 {
        assert(first + second =~= first);
        if let Some(a) = script_body_text(first, e) {
            assert(a + Seq::<char>::empty() =~= a);
        }
    } else {
        assert((first + second).drop_last() =~= first + second.drop_last());
        assert((first + second).last() == second.last());
        script_body_of_concatenation(first, second.drop_last(), e);
        if let (Some(a), Some(b), Some(line)) = (
            script_body_text(first, e),
            script_body_text(second.drop_last(), e),
            entry_text(second.last(), e),
        ) {
            assert((a + b) + line =~= a + (b + line));
        }
    }
}

/// The scripts of two profiles, or of one profile for two shells, never lie
/// in the same file.
pub proof fn script_paths_are_distinct(
    e1: EnvType,
    script_name1: Seq<char>,
    e2: EnvType,
    script_name2: Seq<char>,
)
    requires
        e1 != e2 || script_name1 != script_name2,
    ensures
        subdir_text(e1) != subdir_text(e2) || script_file_name_text(e1, script_name1)
            != script_file_name_text(e2, script_name2),
{
    if e1 != e2 {
        reveal_strlit("cmd");
        reveal_strlit("bash");
        reveal_strlit("ps");
        assert(subdir_text(e1).len() != subdir_text(e2).len());
    } else {
        let head = "env_"@;
        let file1 = script_file_name_text(e1, script_name1);
        let file2 = script_file_name_text(e2, script_name2);
        if file1 == file2 {
            let rest = "."@.len() + extension_text(e1).len();
            assert(file1.len() == head.len() + script_name1.len() + rest);
            assert(file2.len() == head.len() + script_name2.len() + rest);
            assert(script_name1 =~= file1.subrange(
                head.len() as int,
                (head.len() + script_name1.len()) as int,
            ));
            assert(script_name2 =~= file2.subrange(
                head.len() as int,
                (head.len() + script_name2.len()) as int,
            ));
        }
    }
}

/// Produces the line by which a script runs the script in `file_to_src`.
pub fn generate_src_env(file_to_src: &str, e: EnvType) -> (line: String)
    ensures
        line@ == src_env_text(file_to_src@, e),
{
    let mut line = String::new();
    match e {
        EnvType::CMD => {
            line.append("call %~dp0\\");
            line.append(file_to_src);
            line.append("\r\n");
        },
        EnvType::BASH => {
            line.append("source ");
            line.append(file_to_src);
            line.append("\n");
        },
        EnvType::POWERSHELL => {
            line.append(". ");
            line.append(file_to_src);
            line.append("\r\n");
        },
    }
    line
}

/// Names the file that holds the script of profile `script_name` for shell `e`.
pub fn script_file_name(e: EnvType, script_name: &str) -> (file_name: String)
    ensures
        file_name@ == script_file_name_text(e, script_name@),
{
    let mut file_name = String::from_str("env_");
    file_name.append(script_name);
    file_name.append(".");
    file_name.append(output_extension(e));
    file_name
}

/// Tells where the script of profile `script_name` for shell `e` is written
/// below the output root `out_path_str`.
pub fn get_script_output_path(e: EnvType, out_path_str: &str, script_name: &str) -> (path:
    ScriptPath)
    ensures
        path.root@ == out_path_str@,
        path.subdir@ == subdir_text(e),
        path.file_name@ == script_file_name_text(e, script_name@),
{
    ScriptPath {
        root: String::from_str(out_path_str),
        subdir: String::from_str(output_subdir(e)),
        file_name: script_file_name(e, script_name),
    }
}

/// Produces the line of script for one entry of a profile.
///
/// Fails with `MalformedPlaceholder` exactly where the entry is a mutation
/// whose value has malformed placeholders for the shell `e`.
pub fn generate_entry(entry: &ProfileEntry, e: EnvType) -> (result: Result<String, ProfileError>)
    ensures
        match result {
            Ok(line) => entry_text(entry@, e) == Some(line@),
            Err(error) => error == ProfileError::MalformedPlaceholder && entry_text(entry@, e)
                is None,
        },
{
    match entry {
        ProfileEntry::Mutation(record) => generate_mod_env(
            record.variable_name.as_str(),
            record.raw_value.as_str(),
            record.kind,
            e,
        ),
        ProfileEntry::Include(record) => {
            let file_to_source = script_file_name(e, record.profile_name.as_str());
            Ok(generate_src_env(file_to_source.as_str(), e))
        },
    }
}

/// Produces the script of a profile for the shell `e`: the marker line, then
/// one line for each of `cmds`, in their order.
///
/// Fails with `MalformedPlaceholder` exactly where some mutation among `cmds`
/// has a value with malformed placeholders for the shell `e`.
pub fn generate_script(cmds: &Vec<ProfileEntry>, e: EnvType) -> (result: Result<
    String,
    ProfileError,
>)
    ensures
        is_script_outcome(result, cmds.deep_view(), e),
        result matches Ok(content) ==> marker_line_text(e).is_prefix_of(content@),
{
    let ghost entries = cmds.deep_view();
    let ghost mut body: Seq<char> = Seq::empty();
    let mut out_content = marker_line(e);
    let mut i: usize = 0;
    assert(entries.take(0) =~= Seq::<EntryModel>::empty());
    while i < cmds.len()
        invariant
            i <= cmds.len(),
            entries == cmds.deep_view(),
            script_body_text(entries.take(i as int), e) == Some(body),
            out_content@ == marker_line_text(e) + body,
        decreases cmds.len() - i,
    {
        proof {
            assert(entries.take(i + 1).drop_last() =~= entries.take(i as int));
            assert(entries.take(i + 1).last() == cmds[i as int]@);
        }
        match generate_entry(&cmds[i], e) {
            Ok(line) => {
                out_content.append(line.as_str());
                proof {
                    body = body + line@;
                }
            },
            Err(error) => {
                proof {
                    lemma_body_of_prefix(entries, i + 1, e);
                }
                return Err(error);
            },
        }
        i += 1;
    }
    assert(entries.take(i as int) =~= entries);
    Ok(out_content)
}

} // verus!
