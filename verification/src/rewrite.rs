//! Rewriting of `%NAME%` placeholders into the variable references of a shell.
//!
//! A value is cut at every `%` into segments. The segments at even positions
//! are literal text, those at odd positions are variable names; an empty name
//! stands for a single literal `%`.

use vstd::prelude::*;
use vstd::string::StringExecFns;
use crate::dialect::{generate_get_env, reference_text, EnvType};
use crate::error::ProfileError;

verus! {

/// The number of characters of `s` that precede its first `%`; the length of
/// `s` where it holds none.
pub open spec fn segment_len(s: Seq<char>) -> nat
    decreases s.len(),
{
    if s.len() == 0 || s[0] == '%' {
        0
    } else {
        1 + segment_len(s.drop_first())
    }
}

/// The segments into which the `%` delimiters cut `s`, in order. There is one
/// more segment than there are delimiters.
pub open spec fn segments(s: Seq<char>) -> Seq<Seq<char>>
    decreases s.len(),
{
    let n = segment_len(s) as int;
    if n >= s.len() {
        seq![s]
    } else {
        seq![s.take(n)] + segments(s.skip(n + 1))
    }
}

/// What the segment at `position` contributes to the rewritten value.
pub open spec fn segment_text(word: Seq<char>, position: int, e: EnvType) -> Seq<char> {
    if position % 2 == 0 {
        word
    } else if word.len() == 0 {
        "%"@
    } else {
        reference_text(word, e)
    }
}

/// The contributions of all the segments `words`, one after the other.
pub open spec fn joined(words: Seq<Seq<char>>, e: EnvType) -> Seq<char>
    decreases words.len(),
{
    if words.len() == 0 {
        Seq::empty()
    } else {
        joined(words.drop_last(), e) + segment_text(words.last(), words.len() - 1, e)
    }
}

/// Whether the delimiters of `s` pair up: either their number is even, or `s`
/// ends with the one that is left over.
pub open spec fn balanced(s: Seq<char>) -> bool {
    let words = segments(s);
    words.len() % 2 == 1 || words.last().len() == 0
}

/// The number of `%` delimiters in `s`.
pub open spec fn delimiter_count(s: Seq<char>) -> nat
    decreases s.len(),
{
    if s.len() == 0 {
        0
    } else if s[0] == '%' {
        1 + delimiter_count(s.drop_first())
    } else {
        delimiter_count(s.drop_first())
    }
}

/// The value `s` as a script of shell `e` has to spell it, or `None` where the
/// delimiters of `s` do not pair up. Batch files use the placeholder syntax
/// themselves, so for them every value stands as it is.
pub open spec fn rewritten(s: Seq<char>, e: EnvType) -> Option<Seq<char>> {
    if e == EnvType::CMD {
        Some(s)
    } else if balanced(s) {
        Some(joined(segments(s), e))
    } else {
        None
    }
}

/// `segment_len` stops at the first delimiter and nowhere before it.
proof fn lemma_segment_len(s: Seq<char>)
    ensures
        segment_len(s) <= s.len(),
        forall|k: int| 0 <= k < segment_len(s) ==> s[k] != '%',
        segment_len(s) < s.len() ==> s[segment_len(s) as int] == '%',
    decreases s.len(),
{
    if s.len() == 0 || s[0] == '%' {
    } else {
        let rest = s.drop_first();
        lemma_segment_len(rest);
        assert forall|k: int| 0 <= k < segment_len(s) implies s[k] != '%' by {
            if k > 0 {
                assert(s[k] == rest[k - 1]);
            }
        }
        if segment_len(s) < s.len() {
            assert(s[segment_len(s) as int] == rest[segment_len(rest) as int]);
        }
    }
}

/// A prefix that is free of delimiters and is followed by one, or by the end
/// of `s`, is the first segment.
proof fn lemma_segment_len_is(s: Seq<char>, n: int)
    requires
        0 <= n <= s.len(),
        forall|k: int| 0 <= k < n ==> s[k] != '%',
        n < s.len() ==> s[n] == '%',
    ensures
        segment_len(s) == n,
    decreases s.len(),
{
    if n > 0 {
        let rest = s.drop_first();
        assert forall|k: int| 0 <= k < n - 1 implies rest[k] != '%' by {
            assert(rest[k] == s[k + 1]);
        }
        lemma_segment_len_is(rest, n - 1);
    }
}

/// Appending one segment appends its contribution.
proof fn lemma_joined_push(words: Seq<Seq<char>>, word: Seq<char>, e: EnvType)
    ensures
        joined(words.push(word), e) == joined(words, e) + segment_text(word, words.len() as int, e),
{
    assert(words.push(word).drop_last() =~= words);
}

/// Counting the delimiters of `s` may start behind its first segment.
proof fn lemma_count_after_segment(s: Seq<char>)
    ensures
        segment_len(s) >= s.len() ==> delimiter_count(s) == 0,
        segment_len(s) < s.len() ==> delimiter_count(s) == 1 + delimiter_count(
            s.skip(segment_len(s) as int + 1),
        ),
    decreases s.len(),
{
    if s.len() == 0 {
    } else if s[0] == '%' {
        assert(s.skip(1) =~= s.drop_first());
    } else {
        let rest = s.drop_first();
        lemma_count_after_segment(rest);
        if segment_len(s) < s.len() {
            assert(s.skip(segment_len(s) as int + 1) =~= rest.skip(segment_len(rest) as int + 1));
        }
    }
}

/// A value has one more segment than it has delimiters.
pub proof fn segments_outnumber_delimiters(s: Seq<char>)
    ensures
        segments(s).len() == delimiter_count(s) + 1,
    decreases s.len(),
{
    lemma_segment_len(s);
    lemma_count_after_segment(s);
    if segment_len(s) < s.len() {
        segments_outnumber_delimiters(s.skip(segment_len(s) as int + 1));
    }
}

/// The last segment of a value is empty exactly where the value is empty or
/// ends with a delimiter.
pub proof fn last_segment_is_empty_after_delimiter(s: Seq<char>)
    ensures
        segments(s).last().len() == 0 <==> s.len() == 0 || s.last() == '%',
    decreases s.len(),
{
    lemma_segment_len(s);
    let n = segment_len(s) as int;
    if n < s.len() {
        let rest = s.skip(n + 1);
        last_segment_is_empty_after_delimiter(rest);
        segments_outnumber_delimiters(rest);
        assert(segments(s).last() == segments(rest).last());
        if rest.len() > 0 {
            assert(rest.last() == s.last());
        }
    }
}

/// Rewriting fails exactly where the shell is not `CMD`, the number of
/// delimiters is odd, and the value does not end with a delimiter.
pub proof fn rewrite_fails_on_unpaired_delimiter(s: Seq<char>, e: EnvType)
    ensures
        rewritten(s, e) is None <==> e != EnvType::CMD && delimiter_count(s) % 2 == 1 && s.last()
            != '%',
{
    segments_outnumber_delimiters(s);
    last_segment_is_empty_after_delimiter(s);
}

/// A value that holds no `%` is rewritten to itself, whatever the shell.
pub proof fn rewrite_keeps_text_without_percent(s: Seq<char>, e: EnvType)
    requires
        !s.contains('%'),
    ensures
        rewritten(s, e) == Some(s),
{
    assert forall|k: int| 0 <= k < s.len() implies s[k] != '%' by {
        assert(s.contains(s[k]));
    }
    lemma_segment_len_is(s, s.len() as int);
    lemma_joined_push(Seq::empty(), s, e);
    assert(Seq::<Seq<char>>::empty().push(s) =~= seq![s]);
    assert(joined(Seq::empty(), e) + s =~= s);
}

/// Rewrites the placeholders of `value` for the shell `e`.
///
/// Fails with `MalformedPlaceholder` exactly where the delimiters of `value`
/// do not pair up; for batch files no value fails.
pub fn transform_vars(value: &str, e: EnvType) -> (result: Result<String, ProfileError>)
    ensures
        match result {
            Ok(text) => rewritten(value@, e) == Some(text@),
            Err(error) => error == ProfileError::MalformedPlaceholder && rewritten(value@, e) is None,
        },
{
    if let EnvType::CMD = e {
        return Ok(String::from_str(value));
    }
    let ghost s = value@;
    let mut out = String::new();
    let mut name = String::new();
    let mut in_name = false;
    let ghost mut done: Seq<Seq<char>> = Seq::empty();
    let ghost mut start: int = 0;
    let chars = value.chars();
    assert(s.skip(0) =~= s);
    assert(s.subrange(0, 0) =~= Seq::<char>::empty());
    for c in it: chars
        invariant
            it.seq() == s,
            s == value@,
            e != EnvType::CMD,
            0 <= start <= it.index() <= s.len(),
            segments(s) == done + segments(s.skip(start)),
            in_name == (done.len() % 2 == 1),
            forall|k: int| start <= k < it.index() ==> s[k] != '%',
            in_name ==> out@ == joined(done, e) && name@ == s.subrange(start, it.index()),
            !in_name ==> out@ == joined(done, e) + s.subrange(start, it.index()) && name@.len() == 0,
    {
        let ghost i = it.index();
        let ghost word = s.subrange(start, i);
        assert(c == s[i]);
        if c == '%' {
            proof {
                let tail = s.skip(start);
                assert forall|k: int| 0 <= k < i - start implies tail[k] != '%' by {
                    assert(tail[k] == s[start + k]);
                }
                lemma_segment_len_is(tail, i - start);
                assert(tail.take(i - start) =~= word);
                assert(tail.skip(i - start + 1) =~= s.skip(i + 1));
                assert(done + (seq![word] + segments(s.skip(i + 1))) =~= done.push(word)
                    + segments(s.skip(i + 1)));
                lemma_joined_push(done, word, e);
            }
            if in_name {
                if name.as_str().is_empty() {
                    out.append("%");
                } else {
                    let reference = generate_get_env(name.as_str(), e);
                    out.append(reference.as_str());
                }
                name = String::new();
            }
            in_name = !in_name;
            proof {
                done = done.push(word);
                start = i + 1;
                assert(s.subrange(start, i + 1) =~= Seq::<char>::empty());
            }
        } else {
            if in_name {
                name.push(c);
            } else {
                out.push(c);
            }
            proof {
                assert(s.subrange(start, i + 1) =~= word.push(c));
                assert(joined(done, e) + word.push(c) =~= (joined(done, e) + word).push(c));
            }
        }
    }
    let ghost last = s.skip(start);
    proof {
        assert(last =~= s.subrange(start, s.len() as int));
        assert forall|k: int| 0 <= k < last.len() implies last[k] != '%' by {
            assert(last[k] == s[start + k]);
        }
        lemma_segment_len_is(last, last.len() as int);
        assert(done + seq![last] =~= done.push(last));
        lemma_joined_push(done, last, e);
    }
    if in_name {
        if name.as_str().is_empty() {
            out.append("%");
            Ok(out)
        } else {
            Err(ProfileError::MalformedPlaceholder)
        }
    } else {
        Ok(out)
    }
}

} // verus!
