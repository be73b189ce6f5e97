//! Adapting a path of the host to the shell that will read it.
//!
//! Batch files and PowerShell take a path as it is. A POSIX shell gets it
//! through `cygpath`, inside a command substitution.

use vstd::prelude::*;
use vstd::string::StringExecFns;
use crate::dialect::EnvType;

verus! {

/// `s` with a backslash put before every `$`.
pub open spec fn escaped_text(s: Seq<char>) -> Seq<char>
    decreases s.len(),
{
    if s.len() == 0 {
        s
    } else if s.last() == '$' {
        escaped_text(s.drop_last()) + "\\$"@
    } else {
        escaped_text(s.drop_last()).push(s.last())
    }
}

/// The path `path` as a script of shell `e` has to spell it.
pub open spec fn fixed_path_text(path: Seq<char>, e: EnvType) -> Seq<char> {
    if e == EnvType::BASH {
        "`cygpath -p  \""@ + escaped_text(path) + "\"`"@
    } else {
        path
    }
}

/// Puts a backslash before every `$` of `s`, so that a POSIX shell does not
/// expand what follows it.
pub fn escape_bash_vars(s: &str) -> (escaped: String)
    ensures
        escaped@ == escaped_text(s@),
{
    let mut escaped = String::new();
    let chars = s.chars();
    assert(s@.take(0) =~= Seq::<char>::empty());
    for c in it: chars
        invariant
            it.seq() == s@,
            escaped@ == escaped_text(s@.take(it.index())),
    {
        assert(s@.take(it.index() + 1).drop_last() =~= s@.take(it.index()));
        if c == '$' {
            escaped.append("\\$");
        } else {
            escaped.push(c);
        }
    }
    assert(s@.take(s@.len() as int) =~= s@);
    escaped
}

/// Spells the path `path` for the shell `t`.
pub fn generate_fix_path(path: &str, t: EnvType) -> (fixed: String)
    ensures
        fixed@ == fixed_path_text(path@, t),
{
    match t {
        EnvType::CMD | EnvType::POWERSHELL => String::from_str(path),
        EnvType::BASH => {
            let mut fixed = String::from_str("`cygpath -p  \"");
            let escaped = escape_bash_vars(path);
            fixed.append(escaped.as_str());
            fixed.append("\"`");
            fixed
        },
    }
}

} // verus!
