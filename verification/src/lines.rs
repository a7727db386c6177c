//! Line-oriented text scanning.
//!
//! The draft template is a sequence of lines; a field lives on the first
//! line that starts with its prefix (`"<Label>: "`).  This module defines
//! what it means to read such a field's value ([`parsed_field`]), to
//! replace it ([`filled_field`]), and proves how the two interact.

use vstd::prelude::*;
use vstd::string::StrSliceExecFns;

verus! {

/// `p` is a prefix of `s`.
pub open spec fn starts_with(s: Seq<char>, p: Seq<char>) -> bool {
    p.len() <= s.len() && s.subrange(0, p.len() as int) == p
}

/// `s` contains no line break.
pub open spec fn no_newline(s: Seq<char>) -> bool {
    forall|i: int| 0 <= i < s.len() ==> s[i] != '\n'
}

/// Number of characters before the first `'\n'` of `s` (all of `s` if none).
pub open spec fn first_line_len(s: Seq<char>) -> nat
    decreases s.len(),
{
    if s.len() == 0 {
        0
    } else if s[0] == '\n' {
        0
    } else {
        1 + first_line_len(s.drop_first())
    }
}

/// Everything after the first `'\n'` of `s` (empty if there is none).
pub open spec fn after_first_line(s: Seq<char>) -> Seq<char> {
    if first_line_len(s) < s.len() {
        s.subrange(first_line_len(s) + 1int, s.len() as int)
    } else {
        Seq::empty()
    }
}

/// The value of the field introduced by `p`: on the first line that starts
/// with `p`, the characters between `p` and the end of that line; empty if
/// no line starts with `p`.
pub open spec fn parsed_field(s: Seq<char>, p: Seq<char>) -> Seq<char>
    decreases s.len(),
{
    if starts_with(s, p) {
        let tail = s.subrange(p.len() as int, s.len() as int);
        tail.subrange(0, first_line_len(tail) as int)
    } else if first_line_len(s) < s.len() {
        parsed_field(after_first_line(s), p)
    } else {
        Seq::empty()
    }
}

/// Some line of `s` starts with `p`.
pub open spec fn has_field(s: Seq<char>, p: Seq<char>) -> bool
    decreases s.len(),
{
    starts_with(s, p) || (first_line_len(s) < s.len() && has_field(after_first_line(s), p))
}

/// `s` with the value of the field introduced by `p` replaced by `v`: on
/// the first line that starts with `p`, everything after `p` up to the end
/// of that line becomes `v`; every other line is unchanged.  `s` itself if
/// no line starts with `p`.
pub open spec fn filled_field(s: Seq<char>, p: Seq<char>, v: Seq<char>) -> Seq<char>
    decreases s.len(),
{
    if starts_with(s, p) {
        p + v + s.subrange(first_line_len(s) as int, s.len() as int)
    } else if first_line_len(s) < s.len() {
        s.subrange(0, first_line_len(s) + 1int) + filled_field(after_first_line(s), p, v)
    } else {
        s
    }
}

/// The characteristic properties of `first_line_len`.
pub proof fn lemma_first_line_len(s: Seq<char>)
    ensures
        first_line_len(s) <= s.len(),
        forall|i: int| 0 <= i < first_line_len(s) ==> s[i] != '\n',
        first_line_len(s) < s.len() ==> s[first_line_len(s) as int] == '\n',
    decreases s.len(),
{
    if s.len() == 0 || s[0] == '\n' {
    } else {
        lemma_first_line_len(s.drop_first());
        assert forall|i: int| 0 <= i < first_line_len(s) implies s[i] != '\n' by {
            if i > 0 {
                assert(s.drop_first()[i - 1] != '\n');
            }
        }
    }
}

/// `first_line_len` is the unique cut: no `'\n'` before `k`, and `'\n'`
/// (or the end) at `k`.
pub proof fn lemma_first_line_len_is(s: Seq<char>, k: int)
    requires
        0 <= k <= s.len(),
        forall|i: int| 0 <= i < k ==> s[i] != '\n',
        k < s.len() ==> s[k] == '\n',
    ensures
        first_line_len(s) == k,
    decreases s.len(),
{
    if s.len() == 0 {
    } else if s[0] == '\n' {
        assert(k == 0);
    } else {
        assert(k >= 1);
        let t = s.drop_first();
        assert forall|i: int| 0 <= i < k - 1 implies t[i] != '\n' by {
            assert(s[i + 1] != '\n');
        }
        lemma_first_line_len_is(t, k - 1);
    }
}

/// If `a` and `b` are both prefixes of `s` and `a` is the shorter, then
/// `a` is a prefix of `b`.
pub proof fn lemma_prefix_of_prefix(s: Seq<char>, a: Seq<char>, b: Seq<char>)
    requires
        starts_with(s, a),
        starts_with(s, b),
        a.len() <= b.len(),
    ensures
        starts_with(b, a),
{
    assert forall|i: int| 0 <= i < a.len() implies b[i] == a[i] by {
        assert(s.subrange(0, a.len() as int)[i] == s[i]);
        assert(s.subrange(0, b.len() as int)[i] == s[i]);
    }
    assert(b.subrange(0, a.len() as int) =~= a);
}

/// Filling the field of `p` leaves a text whose field of `p` reads exactly
/// the new value, provided the field is present and neither the prefix nor
/// the value spans lines.
pub proof fn lemma_parse_filled_same(s: Seq<char>, p: Seq<char>, v: Seq<char>)
    requires
        has_field(s, p),
        no_newline(p),
        no_newline(v),
    ensures
        parsed_field(filled_field(s, p, v), p) == v,
    decreases s.len(),
{
    lemma_first_line_len(s);
    let fll = first_line_len(s) as int;
    if starts_with(s, p) {
        let rest = s.subrange(fll, s.len() as int);
        let f = filled_field(s, p, v);
        assert(f == p + v + rest);
        // the filled text still starts with p
        assert forall|i: int| 0 <= i < p.len() implies f[i] == p[i] by {}
        assert(f.subrange(0, p.len() as int) =~= p);
        assert(starts_with(f, p));
        // the value now runs from p to the first line break
        let tail = f.subrange(p.len() as int, f.len() as int);
        assert(tail =~= v + rest);
        if fll < s.len() {
            assert(rest[0] == s[fll]);
            lemma_first_line_len_is(v + rest, v.len() as int);
        } else {
            assert(rest.len() == 0);
            lemma_first_line_len_is(v + rest, v.len() as int);
        }
        assert(first_line_len(tail) == v.len());
        assert(tail.subrange(0, v.len() as int) =~= v);
    } else {
        // has_field(s, p) means there is a later line, so a line break exists
        assert(fll < s.len());
        let head = s.subrange(0, fll + 1);
        let rest = after_first_line(s);
        let f = filled_field(s, p, v);
        assert(f == head + filled_field(rest, p, v));
        // the first line of the filled text is the unchanged first line of s
        assert forall|i: int| 0 <= i <= fll implies f[i] == s[i] by {
            assert(head[i] == s[i]);
        }
        // p does not start the filled text either
        if starts_with(f, p) {
            if p.len() <= fll {
                assert forall|i: int| 0 <= i < p.len() implies s[i] == p[i] by {
                    assert(f.subrange(0, p.len() as int)[i] == f[i]);
                }
                assert(s.subrange(0, p.len() as int) =~= p);
                assert(starts_with(s, p));
            } else {
                assert(f.subrange(0, p.len() as int)[fll] == f[fll]);
                assert(p[fll] == s[fll]);
                assert(s[fll] == '\n');
            }
            assert(false);
        }
        lemma_first_line_len_is(f, fll);
        assert(after_first_line(f) =~= filled_field(rest, p, v));
        lemma_parse_filled_same(rest, p, v);
    }
}

/// Filling the field of `p` does not change what the field of a different
/// prefix `q` reads, provided neither prefix extends the other and nothing
/// involved spans lines.
pub proof fn lemma_parse_filled_other(s: Seq<char>, p: Seq<char>, q: Seq<char>, v: Seq<char>)
    requires
        no_newline(p),
        no_newline(q),
        no_newline(v),
        !starts_with(p, q),
        !starts_with(q, p),
    ensures
        parsed_field(filled_field(s, p, v), q) == parsed_field(s, q),
    decreases s.len(),
{
    lemma_first_line_len(s);
    let fll = first_line_len(s) as int;
    if starts_with(s, p) {
        let rest = s.subrange(fll, s.len() as int);
        let f = filled_field(s, p, v);
        assert(f == p + v + rest);
        // q starts neither s nor the filled text, else one prefix extends the other
        if starts_with(s, q) {
            if q.len() <= p.len() {
                lemma_prefix_of_prefix(s, q, p);
            } else {
                lemma_prefix_of_prefix(s, p, q);
            }
            assert(false);
        }
        if starts_with(f, q) {
            assert forall|i: int| 0 <= i < p.len() implies f[i] == p[i] by {}
            assert(f.subrange(0, p.len() as int) =~= p);
            if q.len() <= p.len() {
                lemma_prefix_of_prefix(f, q, p);
            } else {
                lemma_prefix_of_prefix(f, p, q);
            }
            assert(false);
        }
        if fll < s.len() {
            assert(rest[0] == s[fll]);
            lemma_first_line_len_is(f, p.len() + v.len() as int);
            assert(after_first_line(f) =~= s.subrange(fll + 1, s.len() as int));
            assert(after_first_line(s) =~= s.subrange(fll + 1, s.len() as int));
            assert(parsed_field(f, q) == parsed_field(after_first_line(s), q));
        } else {
            assert(rest.len() == 0);
            lemma_first_line_len_is(f, p.len() + v.len() as int);
            assert(first_line_len(f) == f.len());
            assert(parsed_field(f, q) == Seq::<char>::empty());
            assert(parsed_field(s, q) == Seq::<char>::empty());
        }
    } else if fll < s.len() {
        let head = s.subrange(0, fll + 1);
        let rest = after_first_line(s);
        let f = filled_field(s, p, v);
        assert(f == head + filled_field(rest, p, v));
        assert forall|i: int| 0 <= i <= fll implies f[i] == s[i] by {
            assert(head[i] == s[i]);
        }
        lemma_first_line_len_is(f, fll);
        assert(after_first_line(f) =~= filled_field(rest, p, v));
        // q starts the filled text exactly when it starts s
        if starts_with(s, q) && !starts_with(f, q) || !starts_with(s, q) && starts_with(f, q) {
            if starts_with(s, q) {
                if q.len() > fll {
                    assert(q[fll] == s[fll]) by {
                        assert(s.subrange(0, q.len() as int)[fll] == s[fll]);
                    }
                    assert(false);
                }
                assert forall|i: int| 0 <= i < q.len() implies f[i] == q[i] by {
                    assert(s.subrange(0, q.len() as int)[i] == s[i]);
                }
                assert(f.subrange(0, q.len() as int) =~= q);
            } else {
                if q.len() > fll {
                    assert(q[fll] == f[fll]) by {
                        assert(f.subrange(0, q.len() as int)[fll] == f[fll]);
                    }
                    assert(false);
                }
                assert forall|i: int| 0 <= i < q.len() implies s[i] == q[i] by {
                    assert(f.subrange(0, q.len() as int)[i] == f[i]);
                }
                assert(s.subrange(0, q.len() as int) =~= q);
            }
            assert(false);
        }
        if starts_with(s, q) {
            // the value sits inside the unchanged first line
            assert(q.len() <= fll) by {
                if q.len() > fll {
                    assert(s.subrange(0, q.len() as int)[fll] == s[fll]);
                    assert(false);
                }
            }
            let tail_s = s.subrange(q.len() as int, s.len() as int);
            let tail_f = f.subrange(q.len() as int, f.len() as int);
            assert forall|i: int| 0 <= i < fll - q.len() implies tail_s[i] != '\n' && tail_f[i]
                == tail_s[i] by {
                assert(tail_s[i] == s[q.len() + i]);
                assert(tail_f[i] == f[q.len() + i]);
            }
            assert(tail_s[fll - q.len()] == s[fll]);
            assert(tail_f[fll - q.len()] == f[fll]);
            lemma_first_line_len_is(tail_s, fll - q.len());
            lemma_first_line_len_is(tail_f, fll - q.len());
            assert(tail_f.subrange(0, fll - q.len()) =~= tail_s.subrange(0, fll - q.len()));
        } else {
            lemma_parse_filled_other(rest, p, q, v);
        }
    } else {
        assert(filled_field(s, p, v) == s);
    }
}

/// Filling the field of `p` neither creates nor removes the field of a
/// different prefix `q`.
pub proof fn lemma_has_field_filled(s: Seq<char>, p: Seq<char>, q: Seq<char>, v: Seq<char>)
    requires
        no_newline(p),
        no_newline(q),
        no_newline(v),
        !starts_with(p, q),
        !starts_with(q, p),
    ensures
        has_field(filled_field(s, p, v), q) == has_field(s, q),
    decreases s.len(),
{
    lemma_first_line_len(s);
    let fll = first_line_len(s) as int;
    if starts_with(s, p) {
        let rest = s.subrange(fll, s.len() as int);
        let f = filled_field(s, p, v);
        assert(f == p + v + rest);
        if starts_with(s, q) {
            if q.len() <= p.len() {
                lemma_prefix_of_prefix(s, q, p);
            } else {
                lemma_prefix_of_prefix(s, p, q);
            }
            assert(false);
        }
        if starts_with(f, q) {
            assert forall|i: int| 0 <= i < p.len() implies f[i] == p[i] by {}
            assert(f.subrange(0, p.len() as int) =~= p);
            if q.len() <= p.len() {
                lemma_prefix_of_prefix(f, q, p);
            } else {
                lemma_prefix_of_prefix(f, p, q);
            }
            assert(false);
        }
        if fll < s.len() {
            assert(rest[0] == s[fll]);
            lemma_first_line_len_is(f, p.len() + v.len() as int);
            assert(after_first_line(f) =~= s.subrange(fll + 1, s.len() as int));
            assert(after_first_line(s) =~= s.subrange(fll + 1, s.len() as int));
        } else {
            assert(rest.len() == 0);
            lemma_first_line_len_is(f, p.len() + v.len() as int);
            assert(first_line_len(f) == f.len());
        }
    } else if fll < s.len() {
        let head = s.subrange(0, fll + 1);
        let rest = after_first_line(s);
        let f = filled_field(s, p, v);
        assert(f == head + filled_field(rest, p, v));
        assert forall|i: int| 0 <= i <= fll implies f[i] == s[i] by {
            assert(head[i] == s[i]);
        }
        lemma_first_line_len_is(f, fll);
        assert(after_first_line(f) =~= filled_field(rest, p, v));
        if starts_with(s, q) && !starts_with(f, q) || !starts_with(s, q) && starts_with(f, q) {
            if starts_with(s, q) {
                if q.len() > fll {
                    assert(s.subrange(0, q.len() as int)[fll] == s[fll]);
                    assert(false);
                }
                assert forall|i: int| 0 <= i < q.len() implies f[i] == q[i] by {
                    assert(s.subrange(0, q.len() as int)[i] == s[i]);
                }
                assert(f.subrange(0, q.len() as int) =~= q);
            } else {
                if q.len() > fll {
                    assert(f.subrange(0, q.len() as int)[fll] == f[fll]);
                    assert(false);
                }
                assert forall|i: int| 0 <= i < q.len() implies s[i] == q[i] by {
                    assert(f.subrange(0, q.len() as int)[i] == f[i]);
                }
                assert(s.subrange(0, q.len() as int) =~= q);
            }
            assert(false);
        }
        if !starts_with(s, q) {
            lemma_has_field_filled(rest, p, q, v);
        }
    } else {
        assert(filled_field(s, p, v) == s);
    }
}

/// `p` is a prefix of `s`, decided character by character.
pub fn str_starts_with(s: &str, p: &str) -> (r: bool)
    ensures
        r == starts_with(s@, p@),
{
    let n = s.unicode_len();
    let m = p.unicode_len();
    if m > n {
        return false;
    }
    let mut i: usize = 0;
    while i < m
        invariant
            i <= m,
            m <= n,
            m == p@.len(),
            n == s@.len(),
            forall|j: int| 0 <= j < i ==> s@[j] == p@[j],
        decreases m - i,
    {
        if s.get_char(i) != p.get_char(i) {
            proof {
                assert(s@.subrange(0, m as int)[i as int] == s@[i as int]);
            }
            return false;
        }
        i += 1;
    }
    proof {
        assert(s@.subrange(0, m as int) =~= p@);
    }
    true
}

/// The length of the first line of `s`, decided character by character.
pub fn find_line_end(s: &str) -> (r: usize)
    ensures
        r as nat == first_line_len(s@),
{
    let n = s.unicode_len();
    let mut i: usize = 0;
    while i < n
        invariant
            i <= n,
            n == s@.len(),
            forall|j: int| 0 <= j < i ==> s@[j] != '\n',
        decreases n - i,
    {
        if s.get_char(i) == '\n' {
            proof {
                lemma_first_line_len_is(s@, i as int);
            }
            return i;
        }
        i += 1;
    }
    proof {
        lemma_first_line_len_is(s@, n as int);
    }
    n
}

/// The two strings hold the same characters, decided character by
/// character.
pub fn str_eq(a: &str, b: &str) -> (r: bool)
    ensures
        r == (a@ == b@),
{
    let la = a.unicode_len();
    let lb = b.unicode_len();
    if la != lb {
        return false;
    }
    let r = str_starts_with(a, b);
    proof {
        if r {
            assert(a@.subrange(0, lb as int) =~= a@);
        }
        if a@ == b@ {
            assert(a@.subrange(0, lb as int) =~= b@);
        }
    }
    r
}

/// A nonempty `p` whose first character differs from that of `s` does not
/// start `s`.
pub proof fn lemma_not_prefix_first_char(s: Seq<char>, p: Seq<char>)
    requires
        p.len() > 0,
        s.len() == 0 || s[0] != p[0],
    ensures
        !starts_with(s, p),
{
    if starts_with(s, p) {
        assert(s.subrange(0, p.len() as int)[0] == s[0]);
    }
}

/// Reading a field that does not sit on the first line skips that line.
pub proof fn lemma_skip_line(s: Seq<char>, k: int, p: Seq<char>)
    requires
        0 <= k < s.len(),
        s[k] == '\n',
        forall|i: int| 0 <= i < k ==> s[i] != '\n',
        !starts_with(s, p),
    ensures
        parsed_field(s, p) == parsed_field(s.subrange(k + 1, s.len() as int), p),
        has_field(s, p) == has_field(s.subrange(k + 1, s.len() as int), p),
{
    lemma_first_line_len_is(s, k);
}

/// Reading a field that sits on the first line yields the rest of that
/// line: the characters from the end of `p` up to position `k`, the first
/// line break (or the end of the text).
pub proof fn lemma_read_line(s: Seq<char>, p: Seq<char>, k: int)
    requires
        starts_with(s, p),
        p.len() <= k <= s.len(),
        forall|i: int| p.len() <= i < k ==> s[i] != '\n',
        no_newline(p),
        k < s.len() ==> s[k] == '\n',
    ensures
        has_field(s, p),
        parsed_field(s, p) == s.subrange(p.len() as int, k),
{
    let tail = s.subrange(p.len() as int, s.len() as int);
    assert forall|i: int| 0 <= i < k - p.len() implies tail[i] != '\n' by {
        assert(tail[i] == s[p.len() + i]);
    }
    lemma_first_line_len_is(tail, k - p.len());
    assert(tail.subrange(0, k - p.len()) =~= s.subrange(p.len() as int, k));
}

/// Reads the field introduced by `p` out of `s`: the rest of the first
/// line that starts with `p`, or the empty string if no line does.
pub fn read_field(s: &str, p: &str) -> (r: String)
    ensures
        r@ == parsed_field(s@, p@),
    decreases s@.len(),
{
    let n = s.unicode_len();
    if str_starts_with(s, p) {
        let plen = p.unicode_len();
        let tail = s.substring_char(plen, n);
        let k = find_line_end(tail);
        proof {
            lemma_first_line_len(tail@);
        }
        let val = tail.substring_char(0, k);
        val.to_owned()
    } else {
        let fl = find_line_end(s);
        proof {
            lemma_first_line_len(s@);
        }
        if fl == n {
            String::new()
        } else {
            let rest = s.substring_char(fl + 1, n);
            read_field(rest, p)
        }
    }
}

/// Replaces the value of the field introduced by `p` in `s` with `v`,
/// leaving every other line unchanged; `s` itself if no line starts
/// with `p`.
pub fn write_field(s: &str, p: &str, v: &str) -> (r: String)
    ensures
        r@ == filled_field(s@, p@, v@),
    decreases s@.len(),
{
    let n = s.unicode_len();
    let fl = find_line_end(s);
    proof {
        lemma_first_line_len(s@);
    }
    if str_starts_with(s, p) {
        let mut r = p.to_owned();
        r.append(v);
        r.append(s.substring_char(fl, n));
        r
    } else if fl == n {
        s.to_owned()
    } else {
        let head = s.substring_char(0, fl + 1);
        let rest = write_field(s.substring_char(fl + 1, n), p, v);
        let mut r = head.to_owned();
        r.append(rest.as_str());
        r
    }
}

} // verus!
