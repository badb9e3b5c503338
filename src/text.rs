//! Text helpers for reading settings: whitespace, trimming, splitting into
//! pieces, decimal numbers and case-insensitive comparison.
use vstd::prelude::*;

verus! {

/// Unicode white space, as `char::is_whitespace` reads it.
pub open spec fn is_white(c: char) -> bool {
    ('\t' <= c && c <= '\r') || c == ' ' || c == '\u{85}' || c == '\u{A0}' || c == '\u{1680}'
        || ('\u{2000}' <= c && c <= '\u{200A}') || c == '\u{2028}' || c == '\u{2029}' || c
        == '\u{202F}' || c == '\u{205F}' || c == '\u{3000}'
}

/// Every character is white space (so the trimmed text is empty).
pub open spec fn is_blank(s: Seq<char>) -> bool {
    forall|i: int| 0 <= i < s.len() ==> is_white(#[trigger] s[i])
}

/// Text that is not blank.
pub open spec fn nonblank() -> spec_fn(Seq<char>) -> bool {
    |s: Seq<char>| !is_blank(s)
}

/// The separators of a list: commas, and spaces too unless `comma_only`.
pub open spec fn separators(comma_only: bool) -> spec_fn(char) -> bool {
    |c: char| c == ',' || (!comma_only && c == ' ')
}

/// The texts of a list of strings.
pub open spec fn texts(s: Seq<String>) -> Seq<Seq<char>> {
    s.map_values(|t: String| t@)
}

/// Each text trimmed.
pub open spec fn trim_each(s: Seq<Seq<char>>) -> Seq<Seq<char>> {
    s.map_values(|t: Seq<char>| trim(t))
}

/// `s` without its leading white space.
pub open spec fn trim_start(s: Seq<char>) -> Seq<char>
    decreases s.len(),
{
    if s.len() > 0 && is_white(s[0]) {
        trim_start(s.drop_first())
    } else {
        s
    }
}

/// `s` without its trailing white space.
pub open spec fn trim_end(s: Seq<char>) -> Seq<char>
    decreases s.len(),
{
    if s.len() > 0 && is_white(s.last()) {
        trim_end(s.drop_last())
    } else {
        s
    }
}

/// `s` without leading and trailing white space.
pub open spec fn trim(s: Seq<char>) -> Seq<char> {
    trim_end(trim_start(s))
}

/// The pieces between the separators of `s`, empty ones included; text with
/// no separator is one piece.
pub open spec fn pieces(s: Seq<char>, sep: spec_fn(char) -> bool) -> Seq<Seq<char>>
    decreases s.len(),
{
    if s.len() == 0 {
        seq![Seq::<char>::empty()]
    } else {
        let p = pieces(s.drop_last(), sep);
        if sep(s.last()) {
            p.push(Seq::<char>::empty())
        } else {
            p.update(p.len() - 1, p.last().push(s.last()))
        }
    }
}

/// The value of a string of decimal digits.
pub open spec fn digits_value(s: Seq<char>) -> int
    decreases s.len(),
{
    if s.len() == 0 {
        0
    } else {
        digits_value(s.drop_last()) * 10 + (s.last() as int - '0' as int)
    }
}

/// Every character is a decimal digit.
pub open spec fn all_digits(s: Seq<char>) -> bool {
    forall|i: int| 0 <= i < s.len() ==> '0' <= #[trigger] s[i] && s[i] <= '9'
}

/// The magnitude and sign that `s` writes: an optional sign (`-` only where
/// `signed`), then one or more decimal digits.
pub open spec fn signed_digits(s: Seq<char>, signed: bool) -> Option<int> {
    let negative = signed && s.len() > 0 && s[0] == '-';
    let body = if s.len() > 0 && (s[0] == '+' || negative) {
        s.drop_first()
    } else {
        s
    };
    if body.len() > 0 && all_digits(body) {
        Some(if negative { -digits_value(body) } else { digits_value(body) })
    } else {
        None
    }
}

/// The number `s` writes, if it fits `[lo, hi]`.
pub open spec fn parsed_in(s: Seq<char>, signed: bool, lo: int, hi: int) -> Option<int> {
    match signed_digits(s, signed) {
        Some(v) => if lo <= v <= hi {
            Some(v)
        } else {
            None
        },
        None => None,
    }
}

/// `s` equals the lower-case ASCII text `t` when ASCII letters are compared
/// without regard to case.
pub open spec fn eq_ignore_case(s: Seq<char>, t: Seq<char>) -> bool {
    &&& s.len() == t.len()
    &&& forall|i: int|
        0 <= i < s.len() ==> (#[trigger] s[i] == t[i] || ('a' <= t[i] && t[i] <= 'z' && s[i] as u32
            + 32 == t[i] as u32))
}

/// Whether `c` is Unicode white space.
pub fn is_white_exec(c: char) -> (r: bool)
    ensures
        r == is_white(c),
{
    ('\t' <= c && c <= '\r') || c == ' ' || c == '\u{85}' || c == '\u{A0}' || c == '\u{1680}' || (
    '\u{2000}' <= c && c <= '\u{200A}') || c == '\u{2028}' || c == '\u{2029}' || c == '\u{202F}'
        || c == '\u{205F}' || c == '\u{3000}'
}

proof fn lemma_trim_start_skip(s: Seq<char>, a: int)
    requires
        0 <= a <= s.len(),
        forall|j: int| 0 <= j < a ==> is_white(#[trigger] s[j]),
    ensures
        trim_start(s) == trim_start(s.subrange(a, s.len() as int)),
    decreases a,
{
    if a > 0 {
        assert(s.drop_first() =~= s.subrange(1, s.len() as int));
        lemma_trim_start_skip(s.drop_first(), a - 1);
        assert(s.drop_first().subrange(a - 1, s.drop_first().len() as int) =~= s.subrange(
            a,
            s.len() as int,
        ));
    } else {
        assert(s.subrange(0, s.len() as int) =~= s);
    }
}

proof fn lemma_trim_end_skip(s: Seq<char>, b: int)
    requires
        0 <= b <= s.len(),
        forall|j: int| b <= j < s.len() ==> is_white(#[trigger] s[j]),
    ensures
        trim_end(s) == trim_end(s.subrange(0, b)),
    decreases s.len() - b,
{
    if b < s.len() {
        lemma_trim_end_skip(s.drop_last(), b);
        assert(s.drop_last().subrange(0, b) =~= s.subrange(0, b));
    } else {
        assert(s.subrange(0, b) =~= s);
    }
}

/// `s` without leading and trailing white space.
pub fn trim_text(s: &str) -> (r: &str)
    ensures
        r@ == trim(s@),
{
    let len = s.unicode_len();
    let mut a: usize = 0;
    while a < len && is_white_exec(s.get_char(a))
        invariant
            0 <= a <= len,
            len == s@.len(),
            forall|j: int| 0 <= j < a ==> is_white(#[trigger] s@[j]),
        decreases len - a,
    {
        a += 1;
    }
    proof {
        lemma_trim_start_skip(s@, a as int);
    }
    let ghost rest = s@.subrange(a as int, len as int);
    let mut b: usize = len;
    while b > a && is_white_exec(s.get_char(b - 1))
        invariant
            a <= b <= len,
            len == s@.len(),
            rest == s@.subrange(a as int, len as int),
            forall|j: int| b <= j < len ==> is_white(#[trigger] s@[j]),
        decreases b,
    {
        b -= 1;
    }
    proof {
        assert(a == len || !is_white(rest[0]));
        assert(trim_start(rest) == rest);
        assert forall|j: int| (b - a) <= j < rest.len() implies is_white(#[trigger] rest[j]) by {
            assert(rest[j] == s@[a + j]);
        }
        lemma_trim_end_skip(rest, b - a);
        let kept = rest.subrange(0, b - a);
        assert(kept =~= s@.subrange(a as int, b as int));
        assert(b == a || !is_white(kept.last()));
    }
    s.substring_char(a, b)
}

/// Whether `s` is white space only.
pub fn blank(s: &str) -> (r: bool)
    ensures
        r == is_blank(s@),
{
    let len = s.unicode_len();
    let mut i: usize = 0;
    while i < len
        invariant
            0 <= i <= len,
            len == s@.len(),
            forall|j: int| 0 <= j < i ==> is_white(#[trigger] s@[j]),
        decreases len - i,
    {
        if !is_white_exec(s.get_char(i)) {
            return false;
        }
        i += 1;
    }
    true
}

/// What a list of finished pieces leaves: the ones that are not blank, each
/// trimmed when `trimmed`.
pub open spec fn kept_pieces(done: Seq<Seq<char>>, trimmed: bool) -> Seq<Seq<char>> {
    if trimmed {
        trim_each(done.filter(nonblank()))
    } else {
        done.filter(nonblank())
    }
}

fn keep_piece(out: &mut Vec<String>, piece: &str, trimmed: bool, done: Ghost<Seq<Seq<char>>>)
    requires
        texts(old(out)@) == kept_pieces(done@, trimmed),
    ensures
        texts(final(out)@) == kept_pieces(done@.push(piece@), trimmed),
{
    let ghost before = texts(out@);
    let ghost next = done@.push(piece@);
    proof {
        assert(next.drop_last() =~= done@);
        reveal(Seq::filter);
        assert(next.filter(nonblank()) == if !is_blank(piece@) {
            done@.filter(nonblank()).push(piece@)
        } else {
            done@.filter(nonblank())
        });
    }
    if !blank(piece) {
        if trimmed {
            out.push(String::from_str(trim_text(piece)));
            assert(trim_each(done@.filter(nonblank()).push(piece@)) =~= trim_each(
                done@.filter(nonblank()),
            ).push(trim(piece@)));
        } else {
            out.push(String::from_str(piece));
        }
        assert(texts(out@) =~= before.push(texts(out@).last()));
    }
}

/// The pieces of `s` between separators that are not blank, each trimmed
/// when `trimmed`.
pub fn nonblank_pieces(s: &str, comma_only: bool, trimmed: bool) -> (r: Vec<String>)
    ensures
        texts(r@) == kept_pieces(pieces(s@, separators(comma_only)), trimmed),
{
    let ghost sep = separators(comma_only);
    let len = s.unicode_len();
    let mut out: Vec<String> = Vec::new();
    let mut start: usize = 0;
    let mut i: usize = 0;
    let ghost mut done: Seq<Seq<char>> = Seq::empty();
    proof {
        reveal(Seq::filter);
        assert(s@.subrange(0, 0) =~= Seq::<char>::empty());
        assert(done.push(s@.subrange(0, 0)) =~= seq![Seq::<char>::empty()]);
        assert(texts(out@) =~= kept_pieces(done, trimmed));
    }
    while i < len
        invariant
            0 <= start <= i <= len,
            len == s@.len(),
            sep == separators(comma_only),
            pieces(s@.subrange(0, i as int), sep) == done.push(s@.subrange(start as int, i as int)),
            texts(out@) == kept_pieces(done, trimmed),
        decreases len - i,
    {
        let c = s.get_char(i);
        let ghost sub = s@.subrange(0, i + 1);
        proof {
            assert(sub.drop_last() =~= s@.subrange(0, i as int));
            assert(sub.last() == c);
        }
        if c == ',' || (!comma_only && c == ' ') {
            let piece = s.substring_char(start, i);
            keep_piece(&mut out, piece, trimmed, Ghost(done));
            proof {
                done = done.push(piece@);
                assert(s@.subrange(i + 1, i + 1) =~= Seq::<char>::empty());
            }
            start = i + 1;
        } else {
            proof {
                assert(s@.subrange(start as int, i as int).push(c) =~= s@.subrange(
                    start as int,
                    i + 1,
                ));
                assert(done.push(s@.subrange(start as int, i as int)).update(
                    done.len() as int,
                    s@.subrange(start as int, i + 1),
                ) =~= done.push(s@.subrange(start as int, i + 1)));
            }
        }
        i += 1;
    }
    let piece = s.substring_char(start, len);
    keep_piece(&mut out, piece, trimmed, Ghost(done));
    proof {
        assert(s@.subrange(0, len as int) =~= s@);
    }
    out
}

/// The number that `s` writes, if it lies in `[lo, hi]`: an optional sign
/// (`-` only where `signed`) and one or more decimal digits.
pub fn parse_number(s: &str, signed: bool, lo: i64, hi: i64) -> (r: Option<i64>)
    requires
        lo <= hi,
    ensures
        r == match parsed_in(s@, signed, lo as int, hi as int) {
            Some(v) => Some(v as i64),
            None => None::<i64>,
        },
{
    let len = s.unicode_len();
    let negative = signed && len > 0 && s.get_char(0) == '-';
    let skip: usize = if len > 0 && (s.get_char(0) == '+' || negative) {
        1
    } else {
        0
    };
    let ghost body = if s@.len() > 0 && (s@[0] == '+' || negative) {
        s@.drop_first()
    } else {
        s@
    };
    assert(body =~= s@.subrange(skip as int, len as int));
    assert(signed_digits(s@, signed) == if body.len() > 0 && all_digits(body) {
        Some(if negative { -digits_value(body) } else { digits_value(body) })
    } else {
        None::<int>
    });
    if skip >= len {
        assert(body.len() == 0);
        return None;
    }
    // The magnitude, capped just above what any bound allows.
    let cap: i128 = 9_300_000_000_000_000_000;
    let mut value: i128 = 0;
    let mut i: usize = skip;
    while i < len
        invariant
            skip <= i <= len,
            len == s@.len(),
            cap == 9_300_000_000_000_000_000,
            negative == (signed && s@.len() > 0 && s@[0] == '-'),
            signed_digits(s@, signed) == if body.len() > 0 && all_digits(body) {
                Some(if negative { -digits_value(body) } else { digits_value(body) })
            } else {
                None::<int>
            },
            0 <= value,
            body == s@.subrange(skip as int, len as int),
            all_digits(s@.subrange(skip as int, i as int)),
            value <= cap,
            value < cap ==> value == digits_value(s@.subrange(skip as int, i as int)),
            value == cap ==> digits_value(s@.subrange(skip as int, i as int)) >= cap,
        decreases len - i,
    {
        let c = s.get_char(i);
        if c < '0' || c > '9' {
            assert(!all_digits(body)) by {
                assert(body[i - skip] == c);
            }
            return None;
        }
        let d: i128 = (c as u32 - '0' as u32) as i128;
        assert(0 <= d <= 9);
        let ghost prev = s@.subrange(skip as int, i as int);
        let ghost next = s@.subrange(skip as int, i + 1);
        assert(next.drop_last() =~= prev);
        assert(next.last() == c);
        assert(all_digits(next)) by {
            assert forall|j: int| 0 <= j < next.len() implies '0' <= #[trigger] next[j] && next[j]
                <= '9' by {
                if j < prev.len() {
                    assert(next[j] == prev[j]);
                }
            }
        }
        if value >= cap {
            assert(digits_value(next) >= cap) by (nonlinear_arith)
                requires
                    digits_value(next) == digits_value(prev) * 10 + d,
                    digits_value(prev) >= cap,
                    d >= 0,
                    cap > 0,
            ;
        } else {
            let grown = value * 10 + d;
            if grown >= cap {
                value = cap;
            } else {
                value = grown;
            }
        }
        i += 1;
    }
    assert(s@.subrange(skip as int, len as int) == body);
    let v: i128 = if negative { -value } else { value };
    if v < lo as i128 || v > hi as i128 {
        None
    } else {
        Some(v as i64)
    }
}

/// Whether `s` equals the lower-case ASCII text `t` with ASCII letters
/// compared without regard to case.
pub fn eq_ignore_ascii_case(s: &str, t: &str) -> (r: bool)
    ensures
        r == eq_ignore_case(s@, t@),
{
    let len = s.unicode_len();
    if len != t.unicode_len() {
        return false;
    }
    let mut i: usize = 0;
    while i < len
        invariant
            0 <= i <= len,
            len == s@.len(),
            len == t@.len(),
            forall|j: int|
                0 <= j < i ==> (#[trigger] s@[j] == t@[j] || ('a' <= t@[j] && t@[j] <= 'z' && s@[j]
                    as u32 + 32 == t@[j] as u32)),
        decreases len - i,
    {
        let a = s.get_char(i);
        let b = t.get_char(i);
        if !(a == b || ('a' <= b && b <= 'z' && (a as u32) + 32 == b as u32)) {
            return false;
        }
        i += 1;
    }
    true
}

} // verus!
