//! The fallback filter over the transcription tool's captured output.
//!
//! When the tool writes no sidecar text file, its standard output is the
//! only source of text. That stream mixes recognized speech with a banner,
//! progress notes and timing reports, all in a fixed shape: the filter keeps
//! exactly the lines that, once trimmed, are non-empty, are not the silence
//! placeholder, carry none of the known diagnostic prefixes, and none of the
//! known diagnostic substrings. Surviving lines are joined with newlines.

use vstd::prelude::*;

use crate::text::contains_seq;
use crate::text::contains_str;
use crate::text::starts_with;
use crate::text::starts_with_str;
use crate::text::str_eq;
use crate::text::trim_of;
use crate::text::trim_str;

verus! {

/// The lines of `s`, split at every newline character. Unlike the usual
/// line iterator this keeps a final empty piece after a trailing newline
/// (and yields one empty piece for an empty input); such pieces trim to
/// empty lines, which the filter drops, so the filtered text is unaffected.
pub open spec fn split_lines_rec(s: Seq<char>, cur: Seq<char>) -> Seq<Seq<char>>
    decreases s.len(),
{
    if s.len() == 0 {
        seq![cur]
    } else if s[0] == '\n' {
        seq![cur] + split_lines_rec(s.drop_first(), Seq::<char>::empty())
    } else {
        split_lines_rec(s.drop_first(), cur.push(s[0]))
    }
}

/// The lines of `s`.
pub open spec fn split_lines(s: Seq<char>) -> Seq<Seq<char>> {
    split_lines_rec(s, Seq::<char>::empty())
}

/// The diagnostic prefixes: a trimmed line starting with one of these is
/// tool chatter, not recognized speech.
pub open spec fn diagnostic_prefixes() -> Seq<Seq<char>> {
    seq!["whisper_"@, "system_info"@, "main:"@]
}

/// The diagnostic substrings: a trimmed line containing one of these is a
/// progress or timing report.
pub open spec fn diagnostic_substrings() -> Seq<Seq<char>> {
    seq![
        "processing"@,
        "load time"@,
        "mel time"@,
        "sample time"@,
        "encode time"@,
        "decode time"@,
        "batchd time"@,
        "prompt time"@,
        "total time"@,
        "fallbacks"@,
    ]
}

/// Whether a trimmed line is dropped by the filter.
pub open spec fn line_dropped(t: Seq<char>) -> bool {
    ||| t.len() == 0
    ||| t == "[BLANK_AUDIO]"@
    ||| exists|i: int|
        0 <= i < diagnostic_prefixes().len() && starts_with(t, diagnostic_prefixes()[i])
    ||| exists|i: int|
        0 <= i < diagnostic_substrings().len() && contains_seq(t, diagnostic_substrings()[i])
}

/// The trimmed forms of the lines that survive the filter, in order.
pub open spec fn kept_lines(lines: Seq<Seq<char>>) -> Seq<Seq<char>>
    decreases lines.len(),
{
    if lines.len() == 0 {
        Seq::<Seq<char>>::empty()
    } else {
        let t = trim_of(lines[0]);
        if line_dropped(t) {
            kept_lines(lines.drop_first())
        } else {
            seq![t] + kept_lines(lines.drop_first())
        }
    }
}

/// The pieces joined with single newline characters.
pub open spec fn join_lines(ls: Seq<Seq<char>>) -> Seq<char>
    decreases ls.len(),
{
    if ls.len() == 0 {
        Seq::<char>::empty()
    } else if ls.len() == 1 {
        ls[0]
    } else {
        ls[0] + seq!['\n'] + join_lines(ls.drop_first())
    }
}

/// What the filter yields for a captured output stream.
pub open spec fn filtered_stdout(s: Seq<char>) -> Seq<char> {
    join_lines(kept_lines(split_lines(s)))
}

/// Splitting off the first line: if the first newline of `s` stands at `k`
/// (or `s` has none and `k` is its length), the split is the piece before
/// `k` followed by the split of what stands after it.
proof fn lemma_split_rec_line(s: Seq<char>, cur: Seq<char>, k: int)
    requires
        0 <= k <= s.len(),
        forall|j: int| 0 <= j < k ==> s[j] != '\n',
        k < s.len() ==> s[k] == '\n',
    ensures
        k == s.len() ==> split_lines_rec(s, cur) == seq![cur + s],
        k < s.len() ==> split_lines_rec(s, cur) == seq![cur + s.subrange(0, k)]
            + split_lines_rec(s.subrange(k + 1, s.len() as int), Seq::<char>::empty()),
    decreases k,
{
    if k == 0 {
        if s.len() == 0 {
            assert(cur + s =~= cur);
            assert(seq![cur + s] =~= seq![cur]);
        } else {
            assert(s[0] == '\n');
            assert(cur + s.subrange(0, 0) =~= cur);
            assert(s.drop_first() =~= s.subrange(1, s.len() as int));
            assert(seq![cur + s.subrange(0, 0)] =~= seq![cur]);
        }
    } else {
        assert(s.len() > 0 && s[0] != '\n');
        let s1 = s.drop_first();
        let cur1 = cur.push(s[0]);
        assert(forall|j: int| 0 <= j < k - 1 ==> s1[j] == s[j + 1] && s1[j] != '\n');
        assert(k - 1 < s1.len() ==> s1[k - 1] == s[k]);
        lemma_split_rec_line(s1, cur1, k - 1);
        if k == s.len() {
            assert(cur1 + s1 =~= cur + s);
            assert(seq![cur1 + s1] =~= seq![cur + s]);
        } else {
            assert(cur1 + s1.subrange(0, k - 1) =~= cur + s.subrange(0, k));
            assert(s1.subrange(k, s1.len() as int) =~= s.subrange(k + 1, s.len() as int));
            assert(seq![cur1 + s1.subrange(0, k - 1)] =~= seq![cur + s.subrange(0, k)]);
        }
    }
}

/// The filter of a concatenation is the concatenation of the filters.
proof fn lemma_kept_concat(a: Seq<Seq<char>>, b: Seq<Seq<char>>)
    ensures
        kept_lines(a + b) == kept_lines(a) + kept_lines(b),
    decreases a.len(),
{
    if a.len() == 0 {
        assert(a + b =~= b);
        assert(kept_lines(a) + kept_lines(b) =~= kept_lines(b));
    } else {
        assert((a + b).len() > 0);
        assert((a + b)[0] == a[0]);
        assert((a + b).drop_first() =~= a.drop_first() + b);
        lemma_kept_concat(a.drop_first(), b);
        let t = trim_of(a[0]);
        if line_dropped(t) {
        } else {
            assert(seq![t] + (kept_lines(a.drop_first()) + kept_lines(b)) =~= (seq![t]
                + kept_lines(a.drop_first())) + kept_lines(b));
        }
    }
}

/// Appending one piece to a join: a first piece stands alone, a later one
/// is preceded by a newline.
proof fn lemma_join_push(ls: Seq<Seq<char>>, t: Seq<char>)
    ensures
        ls.len() == 0 ==> join_lines(ls.push(t)) == t,
        ls.len() > 0 ==> join_lines(ls.push(t)) == join_lines(ls) + seq!['\n'] + t,
    decreases ls.len(),
{
    if ls.len() == 0 {
        assert(ls.push(t).len() == 1);
        assert(ls.push(t)[0] == t);
    } else if ls.len() == 1 {
        let p = ls.push(t);
        assert(p.len() == 2);
        assert(p[0] == ls[0]);
        assert(p.drop_first() =~= seq![t]);
        assert(join_lines(p.drop_first()) == t);
    } else {
        let p = ls.push(t);
        assert(p[0] == ls[0]);
        assert(p.drop_first() =~= ls.drop_first().push(t));
        lemma_join_push(ls.drop_first(), t);
        assert(ls[0] + seq!['\n'] + (join_lines(ls.drop_first()) + seq!['\n'] + t) =~= (ls[0]
            + seq!['\n'] + join_lines(ls.drop_first())) + seq!['\n'] + t);
    }
}

/// Whether a trimmed line is dropped by the filter.
pub fn line_is_dropped(t: &str) -> (r: bool)
    ensures
        r == line_dropped(t@),
{
    if t.unicode_len() == 0 {
        return true;
    }
    if str_eq(t, "[BLANK_AUDIO]") {
        return true;
    }
    if starts_with_str(t, "whisper_") || starts_with_str(t, "system_info") || starts_with_str(
        t,
        "main:",
    ) {
        proof {
            assert(exists|i: int|
                0 <= i < diagnostic_prefixes().len() && starts_with(
                    t@,
                    diagnostic_prefixes()[i],
                )) by {
                if starts_with(t@, "whisper_"@) {
                    assert(starts_with(t@, diagnostic_prefixes()[0]));
                } else if starts_with(t@, "system_info"@) {
                    assert(starts_with(t@, diagnostic_prefixes()[1]));
                } else {
                    assert(starts_with(t@, diagnostic_prefixes()[2]));
                }
            }
        }
        return true;
    }
    if contains_str(t, "processing") || contains_str(t, "load time") || contains_str(
        t,
        "mel time",
    ) || contains_str(t, "sample time") || contains_str(t, "encode time") || contains_str(
        t,
        "decode time",
    ) || contains_str(t, "batchd time") || contains_str(t, "prompt time") || contains_str(
        t,
        "total time",
    ) || contains_str(t, "fallbacks") {
        proof {
            assert(exists|i: int|
                0 <= i < diagnostic_substrings().len() && contains_seq(
                    t@,
                    diagnostic_substrings()[i],
                )) by {
                if contains_seq(t@, "processing"@) {
                    assert(contains_seq(t@, diagnostic_substrings()[0]));
                } else if contains_seq(t@, "load time"@) {
                    assert(contains_seq(t@, diagnostic_substrings()[1]));
                } else if contains_seq(t@, "mel time"@) {
                    assert(contains_seq(t@, diagnostic_substrings()[2]));
                } else if contains_seq(t@, "sample time"@) {
                    assert(contains_seq(t@, diagnostic_substrings()[3]));
                } else if contains_seq(t@, "encode time"@) {
                    assert(contains_seq(t@, diagnostic_substrings()[4]));
                } else if contains_seq(t@, "decode time"@) {
                    assert(contains_seq(t@, diagnostic_substrings()[5]));
                } else if contains_seq(t@, "batchd time"@) {
                    assert(contains_seq(t@, diagnostic_substrings()[6]));
                } else if contains_seq(t@, "prompt time"@) {
                    assert(contains_seq(t@, diagnostic_substrings()[7]));
                } else if contains_seq(t@, "total time"@) {
                    assert(contains_seq(t@, diagnostic_substrings()[8]));
                } else {
                    assert(contains_seq(t@, diagnostic_substrings()[9]));
                }
            }
        }
        return true;
    }
    proof {
        assert(forall|i: int|
            0 <= i < diagnostic_prefixes().len() ==> !starts_with(t@, diagnostic_prefixes()[i]))
            by {
            assert(diagnostic_prefixes()[0] == "whisper_"@);
            assert(diagnostic_prefixes()[1] == "system_info"@);
            assert(diagnostic_prefixes()[2] == "main:"@);
        }
        assert(forall|i: int|
            0 <= i < diagnostic_substrings().len() ==> !contains_seq(
                t@,
                diagnostic_substrings()[i],
            )) by {
            assert(diagnostic_substrings()[0] == "processing"@);
            assert(diagnostic_substrings()[1] == "load time"@);
            assert(diagnostic_substrings()[2] == "mel time"@);
            assert(diagnostic_substrings()[3] == "sample time"@);
            assert(diagnostic_substrings()[4] == "encode time"@);
            assert(diagnostic_substrings()[5] == "decode time"@);
            assert(diagnostic_substrings()[6] == "batchd time"@);
            assert(diagnostic_substrings()[7] == "prompt time"@);
            assert(diagnostic_substrings()[8] == "total time"@);
            assert(diagnostic_substrings()[9] == "fallbacks"@);
        }
    }
    false
}

/// Filters the captured output stream down to the recognized text: trims
/// every line, drops the diagnostic ones, and joins the survivors with
/// newlines.
pub fn filter_stdout(stdout: &str) -> (r: String)
    ensures
        r@ == filtered_stdout(stdout@),
{
    let n = stdout.unicode_len();
    let mut out = String::new();
    let mut start: usize = 0;
    let ghost mut done: Seq<Seq<char>> = Seq::<Seq<char>>::empty();
    proof {
        assert(stdout@.subrange(0, n as int) =~= stdout@);
        assert(done + split_lines_rec(stdout@.subrange(0, n as int), Seq::<char>::empty())
            =~= split_lines_rec(stdout@, Seq::<char>::empty()));
    }
    loop
        invariant_except_break
            0 <= start <= n,
            n == stdout@.len(),
            split_lines(stdout@) == done + split_lines_rec(
                stdout@.subrange(start as int, n as int),
                Seq::<char>::empty(),
            ),
            out@ == join_lines(kept_lines(done)),
            kept_lines(done).len() == 0 <==> out@.len() == 0,
        ensures
            split_lines(stdout@) == done,
            out@ == join_lines(kept_lines(done)),
        decreases n - start,
    {
        let mut k: usize = start;
        while k < n && stdout.get_char(k) != '\n'
            invariant
                start <= k <= n,
                n == stdout@.len(),
                forall|j: int| start <= j < k ==> stdout@[j] != '\n',
            decreases n - k,
        {
            k = k + 1;
        }
        let line = stdout.substring_char(start, k);
        let t = trim_str(line);
        let dropped = line_is_dropped(t.as_str());
        let ghost rest = stdout@.subrange(start as int, n as int);
        let ghost done0 = done;
        proof {
            assert(forall|j: int| 0 <= j < k - start ==> rest[j] == stdout@[start + j]);
            lemma_split_rec_line(rest, Seq::<char>::empty(), k - start);
            assert(Seq::<char>::empty() + rest.subrange(0, k - start) =~= line@);
            lemma_kept_concat(done0, seq![line@]);
            assert(seq![line@].drop_first() =~= Seq::<Seq<char>>::empty());
            assert(kept_lines(Seq::<Seq<char>>::empty()) =~= Seq::<Seq<char>>::empty());
            assert(kept_lines(seq![line@].drop_first()) =~= Seq::<Seq<char>>::empty());
            assert(seq![line@].len() == 1 && seq![line@][0] == line@);
            assert(trim_of(seq![line@][0]) == t@);
            if !dropped {
                assert(kept_lines(seq![line@]) =~= seq![t@]);
                assert(kept_lines(done0) + seq![t@] =~= kept_lines(done0).push(t@));
                lemma_join_push(kept_lines(done0), t@);
            } else {
                assert(kept_lines(seq![line@]) =~= Seq::<Seq<char>>::empty());
                assert(kept_lines(done0) + kept_lines(seq![line@]) =~= kept_lines(done0));
            }
            done = done0.push(line@);
            assert(done =~= done0 + seq![line@]);
            assert(kept_lines(done) == kept_lines(done0) + kept_lines(seq![line@]));
        }
        if !dropped {
            proof {
                reveal_strlit("\n");
                assert("\n"@ =~= seq!['\n']);
                assert(t@.len() > 0);
            }
            if out.as_str().unicode_len() > 0 {
                out.append("\n");
            }
            out.append(t.as_str());
        }
        if k == n {
            proof {
                assert(rest.len() == k - start);
                assert(Seq::<char>::empty() + rest =~= line@);
                assert(split_lines_rec(rest, Seq::<char>::empty()) == seq![line@]);
                assert(split_lines(stdout@) == done0 + seq![line@]);
                assert(done0 + seq![line@] =~= done);
            }
            break;
        }
        proof {
            assert(rest[k - start] == '\n');
            let tail = stdout@.subrange((k + 1) as int, n as int);
            assert(rest.subrange(k - start + 1, rest.len() as int) =~= tail);
            assert(split_lines_rec(rest, Seq::<char>::empty()) == seq![line@]
                + split_lines_rec(tail, Seq::<char>::empty()));
            assert((done0 + seq![line@]) + split_lines_rec(tail, Seq::<char>::empty())
                =~= done0 + (seq![line@] + split_lines_rec(tail, Seq::<char>::empty())));
            assert(split_lines(stdout@) == done + split_lines_rec(tail, Seq::<char>::empty()));
        }
        start = k + 1;
    }
    out
}

} // verus!
