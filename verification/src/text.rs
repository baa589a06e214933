//! Text primitives shared by the parsers: character access, equality,
//! splitting on a separator, and decimal numbers.

use vstd::prelude::*;
use vstd::string::*;

verus! {

/// `String::push` appends one character to the end of the string.
pub assume_specification[ String::push ](s: &mut String, ch: char)
    ensures
        final(s)@ == old(s)@.push(ch),
;

/// The text that `bytes` encode, found by `core::str::from_utf8`: the decoded
/// characters where the bytes are valid UTF-8, nothing where they are not.
#[verifier::external_body]
pub(crate) fn utf8_text(bytes: &[u8]) -> (out: Option<&str>)
    ensures
        match out {
            Some(text) => vstd::utf8::valid_utf8(bytes@) && text@ == vstd::utf8::decode_utf8(bytes@),
            None => !vstd::utf8::valid_utf8(bytes@),
        },
{
    core::str::from_utf8(bytes).ok()
}

/// The characters of `s`, in order.
pub fn chars_of(s: &str) -> (out: Vec<char>)
    ensures
        out@ == s@,
{
    let mut out: Vec<char> = Vec::new();
    for c in it: s.chars()
        invariant
            out@ == it.seq().take(it.index() as int),
    {
        out.push(c);
    }
    out
}

/// Whether two strings hold the same characters.
pub fn text_eq(a: &str, b: &str) -> (same: bool)
    ensures
        same == (a@ == b@),
{
    let x = a.as_bytes();
    let y = b.as_bytes();
    proof {
        vstd::utf8::encode_utf8_decode_utf8(a@);
        vstd::utf8::encode_utf8_decode_utf8(b@);
    }
    if x.len() != y.len() {
        return false;
    }
    let mut i: usize = 0;
    while i < x.len()
        invariant
            i <= x.len(),
            x.len() == y.len(),
            x@ == a.spec_bytes(),
            y@ == b.spec_bytes(),
            forall|j: int| 0 <= j < i ==> x@[j] == y@[j],
        decreases x.len() - i,
    {
        if x[i] != y[i] {
            return false;
        }
        i += 1;
    }
    assert(x@ =~= y@);
    true
}

/// How many bytes `s` takes in UTF-8.
pub open spec fn byte_len(s: Seq<char>) -> nat {
    vstd::utf8::encode_utf8(s).len()
}

/// The pieces of `s` between occurrences of `sep`. There is always at least
/// one piece; `k` separators give `k + 1` pieces, some of which may be empty.
pub open spec fn split(s: Seq<char>, sep: char) -> Seq<Seq<char>>
    decreases s.len(),
{
    if s.len() == 0 {
        seq![Seq::empty()]
    } else {
        let before = split(s.drop_last(), sep);
        if s.last() == sep {
            before.push(Seq::empty())
        } else {
            before.drop_last().push(before.last().push(s.last()))
        }
    }
}

/// The pieces joined again, with `sep` between neighbours.
pub open spec fn join(pieces: Seq<Seq<char>>, sep: char) -> Seq<char>
    decreases pieces.len(),
{
    if pieces.len() == 0 {
        Seq::empty()
    } else if pieces.len() == 1 {
        pieces[0]
    } else {
        join(pieces.drop_last(), sep).push(sep) + pieces.last()
    }
}

/// The views of a vector of strings.
pub open spec fn views(v: Seq<String>) -> Seq<Seq<char>> {
    Seq::new(v.len(), |i: int| v[i]@)
}

/// Whether `sep` occurs nowhere in `s`.
pub open spec fn free_of(s: Seq<char>, sep: char) -> bool {
    forall|i: int| 0 <= i < s.len() ==> s[i] != sep
}

/// A split never comes back empty.
pub proof fn lemma_split_nonempty(s: Seq<char>, sep: char)
    ensures
        split(s, sep).len() >= 1,
    decreases s.len(),
{
    if s.len() > 0 {
        lemma_split_nonempty(s.drop_last(), sep);
    }
}

/// Joining the pieces of a split with the separator gives the text back, and no
/// piece holds the separator: together these fix what `split` is.
pub proof fn lemma_split_inverts_join(s: Seq<char>, sep: char)
    ensures
        join(split(s, sep), sep) == s,
        forall|k: int| 0 <= k < split(s, sep).len() ==> free_of(#[trigger] split(s, sep)[k], sep),
    decreases s.len(),
{
    if s.len() > 0 {
        let head = s.drop_last();
        let before = split(head, sep);
        lemma_split_nonempty(head, sep);
        lemma_split_inverts_join(head, sep);
        if s.last() == sep {
            assert(before.push(Seq::empty()).drop_last() =~= before);
        } else {
            let after = before.drop_last().push(before.last().push(s.last()));
            assert(after.drop_last() =~= before.drop_last());
            if before.len() > 1 {
                assert(join(after, sep) =~= join(before, sep).push(s.last()));
            }
            assert forall|k: int| 0 <= k < after.len() implies free_of(#[trigger] after[k], sep) by {}
        }
    }
}

/// A text without the separator is its own single piece.
pub proof fn lemma_split_single(s: Seq<char>, sep: char)
    requires
        free_of(s, sep),
    ensures
        split(s, sep) == seq![s],
    decreases s.len(),
{
    if s.len() == 0 {
        assert(s =~= Seq::empty());
    } else {
        lemma_split_single(s.drop_last(), sep);
        assert(s.drop_last().push(s.last()) =~= s);
    }
}

/// Splitting distributes over a separator: the pieces of `a`, then those of `b`.
pub proof fn lemma_split_around(a: Seq<char>, b: Seq<char>, sep: char)
    ensures
        split(a.push(sep) + b, sep) == split(a, sep) + split(b, sep),
    decreases b.len(),
{
    let whole = a.push(sep) + b;
    lemma_split_nonempty(a, sep);
    lemma_split_nonempty(b, sep);
    if b.len() == 0 {
        assert(whole.drop_last() =~= a);
    } else {
        let shorter = a.push(sep) + b.drop_last();
        assert(whole.drop_last() =~= shorter);
        lemma_split_around(a, b.drop_last(), sep);
        lemma_split_nonempty(b.drop_last(), sep);
        let left = split(a, sep);
        let mid = split(b.drop_last(), sep);
        if b.last() != sep {
            assert((left + mid.drop_last()).push(mid.last().push(b.last())) =~= left
                + mid.drop_last().push(mid.last().push(b.last())));
        }
    }
}

/// Splits `s` at every `sep`.
pub fn split_text(s: &str, sep: char) -> (pieces: Vec<String>)
    ensures
        views(pieces@) == split(s@, sep),
{
    let chars = chars_of(s);
    let mut pieces: Vec<String> = Vec::new();
    let mut current = String::new();
    let mut i: usize = 0;
    while i < chars.len()
        invariant
            i <= chars.len(),
            views(pieces@).push(current@) == split(chars@.take(i as int), sep),
        decreases chars.len() - i,
    {
        let c = chars[i];
        assert(chars@.take(i + 1).drop_last() =~= chars@.take(i as int));
        if c == sep {
            pieces.push(current);
            current = String::new();
        } else {
            current.push(c);
        }
        i += 1;
    }
    assert(chars@.take(i as int) =~= chars@);
    pieces.push(current);
    pieces
}

/// Whether `c` is one of the ten ASCII digits.
pub open spec fn is_digit(c: char) -> bool {
    '0' <= c <= '9'
}

/// The number a digit stands for.
pub open spec fn digit_value(c: char) -> nat {
    (c as int - '0' as int) as nat
}

/// The digit that stands for `d`, for `d` below ten.
pub open spec fn digit_char(d: nat) -> char {
    (d + '0' as nat) as char
}

/// The number that a run of digits writes in base ten, most significant first.
pub open spec fn digits_value(s: Seq<char>) -> nat
    decreases s.len(),
{
    if s.len() == 0 {
        0
    } else {
        digits_value(s.drop_last()) * 10 + digit_value(s.last())
    }
}

/// Whether every character of `s` is a digit.
pub open spec fn all_digits(s: Seq<char>) -> bool {
    forall|i: int| 0 <= i < s.len() ==> is_digit(#[trigger] s[i])
}

/// What is left of `s` once one leading `+` is taken off.
pub open spec fn literal_digits(s: Seq<char>) -> Seq<char> {
    if s.len() > 0 && s[0] == '+' {
        s.drop_first()
    } else {
        s
    }
}

/// The number that `s` writes as an unsigned decimal literal: an optional `+`,
/// then one or more ASCII digits and nothing else. `None` for any other text.
pub open spec fn unsigned_literal(s: Seq<char>) -> Option<nat> {
    let digits = literal_digits(s);
    if digits.len() > 0 && all_digits(digits) {
        Some(digits_value(digits))
    } else {
        None
    }
}

/// The literal's number where it is at most `max`, `None` where the text is
/// no literal or the number is larger.
pub open spec fn bounded_literal(s: Seq<char>, max: nat) -> Option<nat> {
    match unsigned_literal(s) {
        Some(v) => if v <= max {
            Some(v)
        } else {
            None
        },
        None => None,
    }
}

/// The decimal digits of `n`, without sign or leading zeros.
pub open spec fn decimal(n: nat) -> Seq<char>
    decreases n,
{
    if n < 10 {
        seq![digit_char(n)]
    } else {
        decimal(n / 10).push(digit_char(n % 10))
    }
}

/// A run of digits never writes a smaller number when it is extended.
pub proof fn lemma_digits_value_grows(s: Seq<char>, k: int)
    requires
        0 <= k <= s.len(),
    ensures
        digits_value(s.take(k)) <= digits_value(s),
    decreases s.len() - k,
{
    if k == s.len() {
        assert(s.take(k) =~= s);
    } else {
        lemma_digits_value_grows(s, k + 1);
        assert(s.take(k + 1).drop_last() =~= s.take(k));
    }
}

/// What `decimal` writes reads back as the same number.
pub proof fn lemma_decimal_reads_back(n: nat)
    ensures
        decimal(n).len() >= 1,
        all_digits(decimal(n)),
        digits_value(decimal(n)) == n,
        unsigned_literal(decimal(n)) == Some(n),
    decreases n,
{
    if n < 10 {
        assert(digits_value(decimal(n).drop_last()) == 0);
    } else {
        lemma_decimal_reads_back(n / 10);
        assert(decimal(n).drop_last() =~= decimal(n / 10));
    }
}

/// Reads `s` as an unsigned decimal literal no larger than `max`.
pub fn parse_bounded(s: &str, max: u64) -> (out: Option<u64>)
    ensures
        match out {
            Some(v) => bounded_literal(s@, max as nat) == Some(v as nat),
            None => bounded_literal(s@, max as nat) is None,
        },
{
    let chars = chars_of(s);
    let start: usize = if chars.len() > 0 && chars[0] == '+' {
        1
    } else {
        0
    };
    let ghost digits = chars@.skip(start as int);
    if start == chars.len() {
        return None;
    }
    let mut acc: u64 = 0;
    let mut i: usize = start;
    while i < chars.len()
        invariant
            start <= i <= chars.len(),
            digits == chars@.skip(start as int),
            digits == literal_digits(s@),
            all_digits(digits.take(i - start)),
            acc as nat == digits_value(digits.take(i - start)),
            acc <= max,
        decreases chars.len() - i,
    {
        let c = chars[i];
        let ghost seen = digits.take(i - start + 1);
        proof {
            assert(seen.drop_last() =~= digits.take(i - start));
            assert(seen.last() == c);
        }
        if c < '0' || c > '9' {
            return None;
        }
        let d: u64 = (c as u64) - ('0' as u64);
        if d > max || acc > (max - d) / 10 {
            proof {
                lemma_digits_value_grows(digits, i - start + 1);
            }
            return None;
        }
        acc = acc * 10 + d;
        i += 1;
    }
    assert(digits.take(i - start) =~= digits);
    Some(acc)
}

/// Writes `n` in decimal.
pub fn decimal_string(n: u64) -> (out: String)
    ensures
        out@ == decimal(n as nat),
    decreases n,
{
    let d: u64 = n % 10;
    let c: char = if d == 0 {
        '0'
    } else if d == 1 {
        '1'
    } else if d == 2 {
        '2'
    } else if d == 3 {
        '3'
    } else if d == 4 {
        '4'
    } else if d == 5 {
        '5'
    } else if d == 6 {
        '6'
    } else if d == 7 {
        '7'
    } else if d == 8 {
        '8'
    } else {
        '9'
    };
    let mut out = if n < 10 {
        String::new()
    } else {
        decimal_string(n / 10)
    };
    out.push(c);
    out
}

/// `piece` without one carriage return at its end, if it has one there.
pub open spec fn without_return(piece: Seq<char>) -> Seq<char> {
    if piece.len() > 0 && piece.last() == '\r' {
        piece.drop_last()
    } else {
        piece
    }
}

/// The lines of a text. Every line feed ends a line, and a carriage return
/// just before it belongs to the line ending. What follows the last line feed
/// is a line of its own unless it is empty, and keeps a carriage return at its
/// end.
pub open spec fn lines_of(s: Seq<char>) -> Seq<Seq<char>> {
    let pieces = split(s, '\n');
    let ended = Seq::new((pieces.len() - 1) as nat, |i: int| without_return(pieces[i]));
    if pieces.last().len() > 0 {
        ended.push(pieces.last())
    } else {
        ended
    }
}

/// The lines of `s`.
pub fn text_lines(s: &str) -> (lines: Vec<String>)
    ensures
        views(lines@) == lines_of(s@),
{
    let mut pieces = split_text(s, '\n');
    proof {
        lemma_split_nonempty(s@, '\n');
    }
    let ghost all = views(pieces@);
    let rest = pieces.pop().unwrap();
    let mut lines: Vec<String> = Vec::new();
    let mut i: usize = 0;
    while i < pieces.len()
        invariant
            i <= pieces.len(),
            pieces@.len() + 1 == all.len(),
            forall|k: int| 0 <= k < pieces@.len() ==> (#[trigger] pieces@[k])@ == all[k],
            views(lines@) == Seq::new(i as nat, |k: int| without_return(all[k])),
        decreases pieces.len() - i,
    {
        let piece = pieces[i].as_str();
        let ghost before = views(lines@);
        let n = piece.unicode_len();
        let line = if n > 0 && piece.get_char(n - 1) == '\r' {
            piece.substring_char(0, n - 1).to_owned()
        } else {
            piece.to_owned()
        };
        lines.push(line);
        assert(views(lines@) =~= before.push(without_return(all[i as int])));
        i += 1;
    }
    if !rest.as_str().is_empty() {
        lines.push(rest);
    }
    lines
}

} // verus!
