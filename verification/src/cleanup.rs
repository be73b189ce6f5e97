//! Recognising the scripts of an earlier run, which are deleted before the
//! scripts are generated again.
//!
//! A file is taken for a generated script where its name begins with `env_`
//! and its first line holds the marker. Files written by hand are thus left
//! alone.

use vstd::prelude::*;
use crate::dialect::{
    comment_prefix_text, line_end_text, marker_line_text, EnvType, AUTOREMOVE_MARKER,
};
use crate::script::{script_file_name_text, script_text, EntryModel};
use crate::text::{contains_text, occurs_at, occurs_in, starts_with_text};

verus! {

/// Whether `name` is the kind of file name that generated scripts have.
pub open spec fn is_script_name_text(name: Seq<char>) -> bool {
    "env_"@.is_prefix_of(name)
}

/// Whether the line `line` holds the marker of generated scripts.
pub open spec fn has_marker_text(line: Seq<char>) -> bool {
    occurs_in(line, AUTOREMOVE_MARKER@)
}

/// The number of characters in the first line of `text`, its line feed included.
pub open spec fn first_line_len(text: Seq<char>) -> nat
    decreases text.len(),
{
    if text.len() == 0 {
        0
    } else if text[0] == '\n' {
        1
    } else {
        1 + first_line_len(text.drop_first())
    }
}

/// The first line of `text`, up to and including its line feed.
pub open spec fn first_line_text(text: Seq<char>) -> Seq<char> {
    text.take(first_line_len(text) as int)
}

/// Tells whether `name` is the kind of file name that generated scripts have.
pub fn is_script_file_name(name: &str) -> (found: bool)
    ensures
        found == is_script_name_text(name@),
{
    starts_with_text(name, "env_")
}

/// Tells whether the line `line` holds the marker of generated scripts.
pub fn has_autoremove_marker(line: &str) -> (found: bool)
    ensures
        found == has_marker_text(line@),
{
    contains_text(line, AUTOREMOVE_MARKER)
}

/// The first line of a text reaches at least as far as the text is free of
/// line feeds.
proof fn lemma_first_line_len(text: Seq<char>, n: int)
    requires
        0 <= n <= text.len(),
        forall|k: int| 0 <= k < n ==> text[k] != '\n',
    ensures
        n <= first_line_len(text) <= text.len(),
    decreases text.len(),
{
    if text.len() > 0 {
        let rest = text.drop_first();
        if n > 0 {
            assert forall|k: int| 0 <= k < n - 1 implies rest[k] != '\n' by {
                assert(rest[k] == text[k + 1]);
            }
            lemma_first_line_len(rest, n - 1);
        } else {
            lemma_first_line_len(rest, 0);
        }
    }
}

/// The file name of every generated script is recognised as one.
pub proof fn generated_name_is_script_name(e: EnvType, script_name: Seq<char>)
    ensures
        is_script_name_text(script_file_name_text(e, script_name)),
{
}

/// The first line of every generated script holds the marker, so that the
/// script is recognised when the scripts are generated again.
pub proof fn generated_script_has_marker(entries: Seq<EntryModel>, e: EnvType)
    requires
        script_text(entries, e) is Some,
    ensures
        has_marker_text(first_line_text(script_text(entries, e).unwrap())),
{
    let text = script_text(entries, e).unwrap();
    let prefix = comment_prefix_text(e);
    let marker = AUTOREMOVE_MARKER@;
    let n = prefix.len() + marker.len();
    reveal_strlit("@rem ");
    reveal_strlit("# ");
    reveal_strlit("this-file-is-marked-for-removal-on-generation");
    assert(marker_line_text(e) == prefix + marker + line_end_text(e));
    assert forall|k: int| 0 <= k < n implies text[k] != '\n' by {
        if k < prefix.len() {
            assert(text[k] == prefix[k]);
        } else {
            assert(text[k] == marker[k - prefix.len()]);
        }
    }
    lemma_first_line_len(text, n as int);
    let line = first_line_text(text);
    assert(line.subrange(prefix.len() as int, n as int) =~= marker);
    assert(occurs_at(line, marker, prefix.len() as int));
}

} // verus!
