//! Query-text utilities: splitting text on whitespace and joining the pieces
//! with a separator. A submitted query is normalized this way — internal
//! whitespace runs collapse into single `+` separators — and the identifiers
//! of a detail lookup are joined with `,`.

use vstd::prelude::*;

verus! {

/// Relies on `String::push`: appends one scalar value at the end of the string.
pub assume_specification[ String::push ](s: &mut String, ch: char)
    ensures
        final(s)@ == old(s)@.push(ch),
;

/// Relies on `String::push_str`: appends a whole string slice at the end.
pub assume_specification[ String::push_str ](s: &mut String, other: &str)
    ensures
        final(s)@ == old(s)@ + other@,
;

/// Whether `c` has the Unicode `White_Space` property — the separator set
/// that splitting a query or an argument list goes by.
pub open spec fn is_space_char(c: char) -> bool {
    let u = c as u32;
    (9 <= u && u <= 13) || u == 32 || u == 0x85 || u == 0xA0 || u == 0x1680 || (0x2000 <= u && u
        <= 0x200A) || u == 0x2028 || u == 0x2029 || u == 0x202F || u == 0x205F || u == 0x3000
}

/// Runtime test for [`is_space_char`].
pub fn is_space(c: char) -> (r: bool)
    ensures
        r == is_space_char(c),
{
    let u = c as u32;
    (9 <= u && u <= 13) || u == 32 || u == 0x85 || u == 0xA0 || u == 0x1680 || (0x2000 <= u && u
        <= 0x200A) || u == 0x2028 || u == 0x2029 || u == 0x202F || u == 0x205F || u == 0x3000
}

/// State of a left-to-right scan for words: the words already completed and
/// the partial word the scan currently sits in.
pub struct ScanState {
    pub words: Seq<Seq<char>>,
    pub cur: Seq<char>,
}

/// Scan `s` from the left, collecting maximal runs of non-whitespace.
pub open spec fn scan_words(s: Seq<char>) -> ScanState
    decreases s.len(),
{
    if s.len() == 0 {
        ScanState { words: Seq::empty(), cur: Seq::empty() }
    } else {
        let st = scan_words(s.drop_last());
        let c = s.last();
        if is_space_char(c) {
            if st.cur.len() == 0 {
                st
            } else {
                ScanState { words: st.words.push(st.cur), cur: Seq::empty() }
            }
        } else {
            ScanState { words: st.words, cur: st.cur.push(c) }
        }
    }
}

/// The whitespace-separated words of `s`, in order, each one nonempty.
pub open spec fn words_of(s: Seq<char>) -> Seq<Seq<char>> {
    let st = scan_words(s);
    if st.cur.len() == 0 {
        st.words
    } else {
        st.words.push(st.cur)
    }
}

/// The pieces of `ws` concatenated with a single `sep` between neighbours.
pub open spec fn join_sep(ws: Seq<Seq<char>>, sep: char) -> Seq<char>
    decreases ws.len(),
{
    if ws.len() == 0 {
        Seq::empty()
    } else if ws.len() == 1 {
        ws[0]
    } else {
        join_sep(ws.drop_last(), sep) + seq![sep] + ws.last()
    }
}

/// A query as the collaborator's encoding wants it: the words of the raw
/// text joined on `+`, so that internal whitespace runs collapse into single
/// separators and outer whitespace disappears.
pub open spec fn norm_of(s: Seq<char>) -> Seq<char> {
    join_sep(words_of(s), '+')
}

/// The views of a sequence of strings: each string as its character sequence.
pub open spec fn views_of(ss: Seq<String>) -> Seq<Seq<char>> {
    Seq::new(ss.len(), |i: int| ss[i]@)
}

/// Split `chars` into its whitespace-separated words.
pub fn tokenize(chars: &Vec<char>) -> (r: Vec<String>)
    ensures
        views_of(r@) == words_of(chars@),
{
    let mut out: Vec<String> = Vec::new();
    let mut cur = String::new();
    let n = chars.len();
    for i in 0..n
        invariant
            n == chars.len(),
            views_of(out@) == scan_words(chars@.take(i as int)).words,
            cur@ == scan_words(chars@.take(i as int)).cur,
    {
        let c = chars[i];
        proof {
            assert(chars@.take(i + 1).drop_last() =~= chars@.take(i as int));
            assert(chars@.take(i + 1).last() == chars@[i as int]);
        }
        if is_space(c) {
            if !cur.as_str().is_empty() {
                let ghost oldv = out@;
                let ghost cs = cur;
                out.push(cur);
                cur = String::new();
                proof {
                    assert(views_of(out@) =~= views_of(oldv).push(cs@));
                }
            }
        } else {
            cur.push(c);
        }
    }
    proof {
        assert(chars@.take(n as int) =~= chars@);
    }
    if !cur.as_str().is_empty() {
        let ghost oldv = out@;
        let ghost cs = cur;
        out.push(cur);
        proof {
            assert(views_of(out@) =~= views_of(oldv).push(cs@));
        }
    }
    out
}

/// Concatenate `words` with a single `sep` between neighbours.
pub fn join_with(words: &Vec<String>, sep: char) -> (r: String)
    ensures
        r@ == join_sep(views_of(words@), sep),
{
    let ghost ws = views_of(words@);
    let mut out = String::new();
    let n = words.len();
    for i in 0..n
        invariant
            n == words.len(),
            ws == views_of(words@),
            out@ == join_sep(ws.take(i as int), sep),
    {
        if i > 0 {
            out.push(sep);
        }
        out.push_str(words[i].as_str());
        proof {
            assert(ws.take(i + 1).drop_last() =~= ws.take(i as int));
            assert(ws.take(i + 1).last() == ws[i as int]);
            if i == 0 {
                assert(out@ =~= ws.take(1)[0]);
            } else {
                assert(out@ =~= join_sep(ws.take(i as int), sep) + seq![sep] + ws[i as int]);
            }
        }
    }
    proof {
        assert(ws.take(n as int) =~= ws);
    }
    out
}

/// Normalize a raw query for submission: its words joined on `+`. Text that
/// is empty or all whitespace normalizes to the empty query, which is handed
/// on unchanged — the collaborator decides what to make of it.
pub fn normalize_query(chars: &Vec<char>) -> (r: String)
    ensures
        r@ == norm_of(chars@),
{
    let words = tokenize(chars);
    join_with(&words, '+')
}

} // verus!
