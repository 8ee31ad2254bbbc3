//! Line- and list-oriented text handling shared by the manifest readers.

use vstd::prelude::*;
use vstd::std_specs::iter::IteratorSpec;

verus! {

/// The pieces of `s` between occurrences of `sep`, in order, empty pieces
/// included: `"a;;b"` split on `;` is `["a", "", "b"]`, and the empty text
/// is one empty piece.
pub open spec fn pieces(s: Seq<char>, sep: char) -> Seq<Seq<char>>
    decreases s.len(),
{
    if s.len() == 0 {
        seq![Seq::<char>::empty()]
    } else {
        let before = pieces(s.drop_last(), sep);
        if s.last() == sep {
            before.push(Seq::<char>::empty())
        } else {
            before.update(before.len() - 1, before.last().push(s.last()))
        }
    }
}

/// The non-empty texts of `ps`, in order.
pub open spec fn keep_non_empty(ps: Seq<Seq<char>>) -> Seq<Seq<char>>
    decreases ps.len(),
{
    if ps.len() == 0 {
        ps
    } else {
        let kept = keep_non_empty(ps.drop_last());
        if ps.last().len() > 0 {
            kept.push(ps.last())
        } else {
            kept
        }
    }
}

/// The non-empty pieces of `s` between occurrences of `sep`, in order.
pub open spec fn non_empty_pieces(s: Seq<char>, sep: char) -> Seq<Seq<char>> {
    keep_non_empty(pieces(s, sep))
}

/// The texts held by a sequence of strings.
pub open spec fn texts(v: Seq<String>) -> Seq<Seq<char>> {
    v.map_values(|x: String| x@)
}

proof fn lemma_pieces_not_empty(s: Seq<char>, sep: char)
    ensures
        pieces(s, sep).len() >= 1,
    decreases s.len(),
{
    if s.len() > 0 {
        lemma_pieces_not_empty(s.drop_last(), sep);
    }
}

/// The text of `lines`, each followed by `sep`.
pub open spec fn terminated(lines: Seq<Seq<char>>, sep: char) -> Seq<char>
    decreases lines.len(),
{
    if lines.len() == 0 {
        Seq::<char>::empty()
    } else {
        terminated(lines.drop_last(), sep) + lines.last() + seq![sep]
    }
}

/// Whether every one of `lines` is non-empty and free of `sep`.
pub open spec fn plain_lines(lines: Seq<Seq<char>>, sep: char) -> bool {
    forall|i: int| 0 <= i < lines.len() ==> #[trigger] lines[i].len() > 0 && !lines[i].contains(sep)
}

/// Appending text free of `sep` extends the last piece.
pub proof fn lemma_pieces_extend(s: Seq<char>, w: Seq<char>, sep: char)
    requires
        !w.contains(sep),
    ensures
        pieces(s + w, sep) == pieces(s, sep).update(
            pieces(s, sep).len() - 1,
            pieces(s, sep).last() + w,
        ),
        pieces(s + w, sep).len() == pieces(s, sep).len(),
    decreases w.len(),
{
    lemma_pieces_not_empty(s, sep);
    if w.len() == 0 {
        assert(s + w == s);
        assert(pieces(s, sep).last() + w == pieces(s, sep).last());
        assert(pieces(s, sep).update(pieces(s, sep).len() - 1, pieces(s, sep).last())
            == pieces(s, sep));
    } else {
        let w0 = w.drop_last();
        assert(!w0.contains(sep)) by {
            assert forall|i: int| 0 <= i < w0.len() implies w0[i] != sep by {
                assert(w0[i] == w[i]);
            }
        }
        lemma_pieces_extend(s, w0, sep);
        assert((s + w).drop_last() == s + w0);
        assert((s + w).last() == w.last());
        assert(w.last() != sep) by {
            assert(w[w.len() - 1] == w.last());
        }
        assert(pieces(s, sep).last() + w0 + seq![w.last()] == pieces(s, sep).last() + w);
        assert((pieces(s, sep).last() + w0).push(w.last()) == pieces(s, sep).last() + w);
    }
}

/// Lines that are non-empty and free of `sep`, each followed by `sep`, split
/// back into those lines and one empty piece.
pub proof fn lemma_pieces_terminated(lines: Seq<Seq<char>>, sep: char)
    requires
        plain_lines(lines, sep),
    ensures
        pieces(terminated(lines, sep), sep) == lines.push(Seq::<char>::empty()),
    decreases lines.len(),
{
    if lines.len() == 0 {
        assert(pieces(Seq::<char>::empty(), sep) == seq![Seq::<char>::empty()]);
        assert(lines.push(Seq::<char>::empty()) == seq![Seq::<char>::empty()]);
    } else {
        let init = lines.drop_last();
        assert(plain_lines(init, sep)) by {
            assert forall|i: int| 0 <= i < init.len() implies #[trigger] init[i].len() > 0
                && !init[i].contains(sep) by {
                assert(init[i] == lines[i]);
            }
        }
        lemma_pieces_terminated(init, sep);
        let last = lines[lines.len() - 1];
        assert(last == lines.last());
        let front = terminated(init, sep);
        lemma_pieces_extend(front, last, sep);
        assert(Seq::<char>::empty() + last == last);
        assert(init.push(Seq::<char>::empty()).update(init.len() as int, last) == lines);
        let whole = front + last + seq![sep];
        assert(whole.drop_last() == front + last);
        assert(whole.last() == sep);
    }
}

/// Lines that are all non-empty are kept as they are.
pub proof fn lemma_keep_non_empty_all(lines: Seq<Seq<char>>)
    requires
        forall|i: int| 0 <= i < lines.len() ==> #[trigger] lines[i].len() > 0,
    ensures
        keep_non_empty(lines) == lines,
    decreases lines.len(),
{
    if lines.len() > 0 {
        let init = lines.drop_last();
        assert forall|i: int| 0 <= i < init.len() implies #[trigger] init[i].len() > 0 by {
            assert(init[i] == lines[i]);
        }
        lemma_keep_non_empty_all(init);
        assert(lines.last() == lines[lines.len() - 1]);
        assert(init.push(lines.last()) == lines);
    }
}

/// Splits `s` on `sep` and keeps the non-empty pieces, in order.
pub fn split_non_empty(s: &str, sep: char) -> (r: Vec<String>)
    ensures
        texts(r@) == non_empty_pieces(s@, sep),
{
    let n = s.unicode_len();
    let mut out: Vec<String> = Vec::new();
    let mut start: usize = 0;
    let mut i: usize = 0;
    let chars = s.chars();
    assert(chars.remaining() == s@);
    for c in it: chars
        invariant
            it.seq() == s@,
            i == it.index(),
            n == s@.len(),
            start <= i <= n,
            pieces(s@.subrange(0, i as int), sep).last() == s@.subrange(start as int, i as int),
            texts(out@) == keep_non_empty(pieces(s@.subrange(0, i as int), sep).drop_last()),
    {
        let ghost pre = s@.subrange(0, i as int);
        let ghost post = s@.subrange(0, i + 1);
        let ghost before = pieces(pre, sep);
        let ghost old_out = out@;
        proof {
            assert(post.drop_last() == pre);
            assert(post.last() == c);
            lemma_pieces_not_empty(pre, sep);
        }
        if c == sep {
            if start < i {
                let piece = String::from_str(s.substring_char(start, i));
                out.push(piece);
                proof {
                    assert(texts(out@) == texts(old_out).push(before.last()));
                }
            }
            start = i + 1;
            proof {
                assert(pieces(post, sep).drop_last() == before);
                assert(s@.subrange(start as int, i + 1) == Seq::<char>::empty());
            }
        } else {
            proof {
                assert(pieces(post, sep).drop_last() == before.drop_last());
                assert(s@.subrange(start as int, i + 1) == s@.subrange(start as int, i as int).push(c));
            }
        }
        i = i + 1;
    }
    let ghost before = pieces(s@, sep);
    let ghost old_out = out@;
    proof {
        assert(s@.subrange(0, n as int) == s@);
        lemma_pieces_not_empty(s@, sep);
    }
    if start < n {
        let piece = String::from_str(s.substring_char(start, n));
        out.push(piece);
        proof {
            assert(texts(out@) == texts(old_out).push(before.last()));
        }
    }
    out
}

/// Whether every character of `d` is an ASCII decimal digit.
pub open spec fn all_digits(d: Seq<char>) -> bool {
    forall|i: int| 0 <= i < d.len() ==> '0' <= #[trigger] d[i] <= '9'
}

/// The number written by the decimal digits `d`, most significant first.
pub open spec fn digits_value(d: Seq<char>) -> int
    decreases d.len(),
{
    if d.len() == 0 {
        0
    } else {
        digits_value(d.drop_last()) * 10 + (d.last() as int - '0' as int)
    }
}

/// The integer that `s` writes in decimal: an optional `+` or `-` followed by
/// at least one ASCII digit, and nothing else.
pub open spec fn decimal_value(s: Seq<char>) -> Option<int> {
    if s.len() > 0 && (s[0] == '+' || s[0] == '-') {
        let d = s.drop_first();
        if d.len() > 0 && all_digits(d) {
            Some(if s[0] == '-' { -digits_value(d) } else { digits_value(d) })
        } else {
            None
        }
    } else if s.len() > 0 && all_digits(s) {
        Some(digits_value(s))
    } else {
        None
    }
}

/// The `i32` that `s` writes in decimal, if it writes one in range.
pub open spec fn decimal_i32(s: Seq<char>) -> Option<i32> {
    match decimal_value(s) {
        Some(v) => if i32::MIN <= v <= i32::MAX {
            Some(v as i32)
        } else {
            None
        },
        None => None,
    }
}

/// Relies on `<i32 as FromStr>::from_str`, which accepts an optional sign
/// followed by ASCII decimal digits whose value fits in `i32`, and refuses
/// anything else (empty text, a lone sign, other characters, overflow).
#[verifier::external_body]
pub(crate) fn parse_i32(s: &str) -> (r: Option<i32>)
    ensures
        r == decimal_i32(s@),
{
    s.parse::<i32>().ok()
}

} // verus!
