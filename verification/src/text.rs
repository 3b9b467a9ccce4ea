//! Text manipulation for the console: building strings from character
//! vectors, whitespace tokenization of a command line, and splitting captured
//! output into lines.
//!
//! Command lines are kept as character vectors so that editing and
//! tokenization are plain verified loops; `chars_to_string` turns them back
//! into `String` values for callers.

use vstd::prelude::*;
use vstd::string::StrSliceExecFns;

verus! {

/// Whitespace for command tokenization: the ASCII blank characters.
pub open spec fn is_space(c: char) -> bool {
    c == ' ' || c == '\t' || c == '\n' || c == '\r'
}

/// Executable test for `is_space`.
pub fn is_space_char(c: char) -> (r: bool)
    ensures
        r == is_space(c),
{
    c == ' ' || c == '\t' || c == '\n' || c == '\r'
}

/// The index just past the token that starts at `i`: the first position at
/// or after `i` that holds whitespace, or the end of the sequence.
pub open spec fn token_end(s: Seq<char>, i: int) -> int
    decreases s.len() - i,
        when 0 <= i <= s.len()
{
    if i == s.len() || is_space(s[i]) {
        i
    } else {
        token_end(s, i + 1)
    }
}

/// `token_end(s, i)` is a position between `i` and the end; everything
/// before it (from `i`) is non-whitespace, and it stops at the end or at a
/// whitespace character.
pub proof fn lemma_token_end(s: Seq<char>, i: int)
    requires
        0 <= i <= s.len(),
    ensures
        i <= token_end(s, i) <= s.len(),
        forall|j: int| i <= j < token_end(s, i) ==> !is_space(s[j]),
        token_end(s, i) == s.len() || is_space(s[token_end(s, i)]),
        i < s.len() && !is_space(s[i]) ==> i < token_end(s, i),
    decreases s.len() - i,
{
    if i == s.len() || is_space(s[i]) {
    } else {
        lemma_token_end(s, i + 1);
    }
}

/// The whitespace-separated tokens of `s` from position `i` on.
pub open spec fn tokens_from(s: Seq<char>, i: int) -> Seq<Seq<char>>
    decreases s.len() - i,
        when 0 <= i <= s.len()
{
    if i == s.len() {
        Seq::empty()
    } else if is_space(s[i]) {
        tokens_from(s, i + 1)
    } else {
        proof {
            lemma_token_end(s, i);
        }
        seq![s.subrange(i, token_end(s, i))] + tokens_from(s, token_end(s, i))
    }
}

/// The whitespace-separated tokens of a command line, in order, each a
/// maximal run of non-whitespace characters.
pub open spec fn tokens_of(s: Seq<char>) -> Seq<Seq<char>> {
    tokens_from(s, 0)
}

/// A command line has a token from position `i` on exactly when it holds a
/// non-whitespace character at or after `i`.
pub proof fn lemma_tokens_from_nonempty(s: Seq<char>, i: int)
    requires
        0 <= i <= s.len(),
    ensures
        tokens_from(s, i).len() > 0 <==> exists|j: int| i <= j < s.len() && !is_space(s[j]),
    decreases s.len() - i,
{
    if i == s.len() {
    } else if is_space(s[i]) {
        lemma_tokens_from_nonempty(s, i + 1);
    } else {
        assert(!is_space(s[i]));
    }
}

/// The index of the first newline at or after `i`, or the end of the
/// sequence.
pub open spec fn line_end(s: Seq<char>, i: int) -> int
    decreases s.len() - i,
        when 0 <= i <= s.len()
{
    if i == s.len() || s[i] == '\n' {
        i
    } else {
        line_end(s, i + 1)
    }
}

/// `line_end(s, i)` lies between `i` and the end, holds no newline before it
/// (from `i`), and stops at the end or at a newline.
pub proof fn lemma_line_end(s: Seq<char>, i: int)
    requires
        0 <= i <= s.len(),
    ensures
        i <= line_end(s, i) <= s.len(),
        forall|j: int| i <= j < line_end(s, i) ==> s[j] != '\n',
        line_end(s, i) == s.len() || s[line_end(s, i)] == '\n',
    decreases s.len() - i,
{
    if i == s.len() || s[i] == '\n' {
    } else {
        lemma_line_end(s, i + 1);
    }
}

/// The newline-separated segments of `s` from position `i` on: always at
/// least one segment, and one more for every newline (a trailing newline
/// yields a final empty segment).
pub open spec fn split_from(s: Seq<char>, i: int) -> Seq<Seq<char>>
    decreases s.len() - i,
        when 0 <= i <= s.len()
{
    if line_end(s, i) == s.len() {
        seq![s.subrange(i, line_end(s, i))]
    } else {
        proof {
            lemma_line_end(s, i);
        }
        seq![s.subrange(i, line_end(s, i))] + split_from(s, line_end(s, i) + 1)
    }
}

/// The lines of a captured output text, split on `'\n'`. Empty text yields
/// one empty line; text ending in a newline yields a final empty line.
pub open spec fn split_lines(s: Seq<char>) -> Seq<Seq<char>> {
    split_from(s, 0)
}

/// Relies on `String::push`: appends exactly one character to the string.
#[verifier::external_body]
fn push_char(s: &mut String, c: char)
    ensures
        final(s)@ == old(s)@.push(c),
{
    s.push(c);
}

/// Builds the string holding exactly the characters of `v`, in order.
pub fn chars_to_string(v: &Vec<char>) -> (r: String)
    ensures
        r@ == v@,
{
    let mut s = String::new();
    let mut i: usize = 0;
    while i < v.len()
        invariant
            i <= v.len(),
            s@ == v@.subrange(0, i as int),
        decreases v.len() - i,
    {
        push_char(&mut s, v[i]);
        proof {
            assert(v@.subrange(0, i as int).push(v@[i as int]) =~= v@.subrange(0, i + 1 as int));
        }
        i += 1;
    }
    proof {
        assert(v@.subrange(0, v@.len() as int) =~= v@);
    }
    s
}

/// The characters of `s`, in order, as a vector.
pub fn str_to_chars(s: &str) -> (r: Vec<char>)
    ensures
        r@ == s@,
{
    let n = s.unicode_len();
    let mut v: Vec<char> = Vec::new();
    let mut i: usize = 0;
    while i < n
        invariant
            i <= n,
            n == s@.len(),
            v@ == s@.subrange(0, i as int),
        decreases n - i,
    {
        v.push(s.get_char(i));
        proof {
            assert(s@.subrange(0, i as int).push(s@[i as int]) =~= s@.subrange(0, i + 1 as int));
        }
        i += 1;
    }
    proof {
        assert(s@.subrange(0, s@.len() as int) =~= s@);
    }
    v
}

/// Whether the characters of `v` spell exactly the string `s`.
pub fn chars_eq_str(v: &Vec<char>, s: &str) -> (r: bool)
    ensures
        r == (v@ == s@),
{
    let n = s.unicode_len();
    if v.len() != n {
        proof {
            assert(v@.len() != s@.len());
        }
        return false;
    }
    let mut i: usize = 0;
    while i < n
        invariant
            i <= n,
            n == s@.len(),
            v@.len() == n,
            forall|j: int| 0 <= j < i ==> v@[j] == s@[j],
        decreases n - i,
    {
        if v[i] != s.get_char(i) {
            return false;
        }
        i += 1;
    }
    proof {
        assert(v@ =~= s@);
    }
    true
}

/// The whitespace-separated tokens of `line`, in order.
pub fn tokenize(line: &Vec<char>) -> (r: Vec<String>)
    ensures
        r.deep_view() == tokens_of(line@),
{
    let ghost s = line@;
    let mut toks: Vec<String> = Vec::new();
    let mut i: usize = 0;
    while i < line.len()
        invariant
            i <= line.len(),
            s == line@,
            toks.deep_view() + tokens_from(s, i as int) == tokens_from(s, 0),
        decreases line.len() - i,
    {
        if is_space_char(line[i]) {
            i += 1;
        } else {
            proof {
                lemma_token_end(s, i as int);
            }
            let ghost start = i as int;
            let ghost e = token_end(s, start);
            let mut word: Vec<char> = Vec::new();
            while i < line.len() && !is_space_char(line[i])
                invariant
                    s == line@,
                    0 <= start <= i as int <= e <= s.len(),
                    e == token_end(s, start),
                    e == s.len() || is_space(s[e]),
                    forall|j: int| start <= j < e ==> !is_space(s[j]),
                    word@ == s.subrange(start, i as int),
                decreases line.len() - i,
            {
                word.push(line[i]);
                proof {
                    assert(s.subrange(start, i as int).push(s[i as int]) =~= s.subrange(
                        start,
                        i + 1 as int,
                    ));
                }
                i += 1;
            }
            proof {
                assert(i as int == e);
                assert(tokens_from(s, start) =~= seq![s.subrange(start, e)] + tokens_from(s, e));
            }
            let token = chars_to_string(&word);
            toks.push(token);
            proof {
                assert(toks.deep_view() =~= toks.deep_view().subrange(
                    0,
                    toks.deep_view().len() - 1,
                ).push(s.subrange(start, e)));
                assert(toks.deep_view() + tokens_from(s, i as int) =~= tokens_from(s, 0));
            }
        }
    }
    proof {
        assert(toks.deep_view() + tokens_from(s, s.len() as int) =~= toks.deep_view());
    }
    toks
}

/// The newline-separated lines of `v`, in order, as strings.
pub fn split_text(v: &Vec<char>) -> (r: Vec<String>)
    ensures
        r.deep_view() == split_lines(v@),
{
    let ghost s = v@;
    let mut lines: Vec<String> = Vec::new();
    let mut i: usize = 0;
    loop
        invariant_except_break
            i <= v.len(),
            s == v@,
            lines.deep_view() + split_from(s, i as int) == split_from(s, 0),
        ensures
            lines.deep_view() == split_from(s, 0),
        decreases v.len() - i,
    {
        proof {
            lemma_line_end(s, i as int);
        }
        let ghost start = i as int;
        let ghost e = line_end(s, start);
        let mut seg: Vec<char> = Vec::new();
        while i < v.len() && v[i] != '\n'
            invariant
                s == v@,
                0 <= start <= i as int <= e <= s.len(),
                e == line_end(s, start),
                e == s.len() || s[e] == '\n',
                forall|j: int| start <= j < e ==> s[j] != '\n',
                seg@ == s.subrange(start, i as int),
            decreases v.len() - i,
        {
            seg.push(v[i]);
            proof {
                assert(s.subrange(start, i as int).push(s[i as int]) =~= s.subrange(
                    start,
                    i + 1 as int,
                ));
            }
            i += 1;
        }
        proof {
            assert(i as int == e);
        }
        let segment = chars_to_string(&seg);
        lines.push(segment);
        proof {
            assert(lines.deep_view() =~= lines.deep_view().subrange(
                0,
                lines.deep_view().len() - 1,
            ).push(s.subrange(start, e)));
        }
        if i == v.len() {
            proof {
                assert(split_from(s, start) =~= seq![s.subrange(start, e)]);
                assert(lines.deep_view() =~= split_from(s, 0));
            }
            break ;
        }
        proof {
            assert(split_from(s, start) =~= seq![s.subrange(start, e)] + split_from(s, e + 1));
            assert(lines.deep_view() + split_from(s, e + 1) =~= split_from(s, 0));
        }
        i += 1;
    }
    lines
}

} // verus!
