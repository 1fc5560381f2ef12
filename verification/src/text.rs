//! Scanning of byte text: separators, tokens, decimal indices and the shape of
//! decimal numbers. Every position is an offset into the whole text, so that a
//! token can be found again in it later.
//!
//! A text is a sequence of bytes, not of characters: it need not be UTF-8,
//! letters are the letters of ASCII, and only the blank bytes of ASCII part
//! tokens.

use vstd::prelude::*;

verus! {

/// A run of bytes of a text, from `start` up to `end` (not included).
#[derive(Clone, Copy, Debug, PartialEq, Eq)]
pub struct Span {
    pub start: usize,
    pub end: usize,
}

impl Span {
    /// The span lies inside a text of `len` bytes and is not empty.
    pub open spec fn within(self, len: int) -> bool {
        self.start < self.end && self.end <= len
    }
}

/// The byte of a plus sign.
pub const PLUS: u8 = 0x2b;

/// The byte of a minus sign.
pub const MINUS: u8 = 0x2d;

/// The byte of a decimal point.
pub const POINT: u8 = 0x2e;

/// The byte of the letter `e`, which begins an exponent.
pub const EXPONENT: u8 = 0x65;

/// Blank bytes: the space and the control bytes from tab to carriage return.
/// These are the white space of ASCII. White space beyond ASCII is not blank
/// here: its bytes are bytes of a token like any other.
pub open spec fn is_space(b: u8) -> bool {
    b == 0x20 || (0x09 <= b && b <= 0x0d)
}

/// The decimal digits.
pub open spec fn is_digit(b: u8) -> bool {
    0x30 <= b && b <= 0x39
}

/// The lower-case form of an ASCII letter; every other byte stays as it is.
pub open spec fn lower(b: u8) -> u8 {
    if 0x41 <= b && b <= 0x5a {
        (b + 0x20) as u8
    } else {
        b
    }
}

/// The first offset in `from..to` at which `text` holds `byte`, or `to` if
/// there is none.
pub open spec fn find_byte(text: Seq<u8>, from: int, to: int, byte: u8) -> int
    decreases to - from,
{
    if from >= to {
        to
    } else if text[from] == byte {
        from
    } else {
        find_byte(text, from + 1, to, byte)
    }
}

/// The first offset in `from..to` that holds a blank byte, or `to`.
pub open spec fn token_end(text: Seq<u8>, from: int, to: int) -> int
    decreases to - from,
{
    if from < to && !is_space(text[from]) {
        token_end(text, from + 1, to)
    } else {
        from
    }
}

/// The first offset in `from..to` that holds no digit, or `to`.
pub open spec fn digits_end(text: Seq<u8>, from: int, to: int) -> int
    decreases to - from,
{
    if from < to && is_digit(text[from]) {
        digits_end(text, from + 1, to)
    } else {
        from
    }
}

/// The tokens of `text` between `from` and `to`: its maximal runs of bytes
/// that are not blank, in the order in which they stand. Only the blank
/// bytes of ASCII part tokens.
pub open spec fn tokens(text: Seq<u8>, from: int, to: int) -> Seq<Span>
    decreases to - from,
{
    if from >= to {
        Seq::empty()
    } else if is_space(text[from]) {
        tokens(text, from + 1, to)
    } else {
        let end = token_end(text, from + 1, to);
        proof {
            lemma_token_end(text, from + 1, to);
        }
        seq![Span { start: from as usize, end: end as usize }] + tokens(text, end, to)
    }
}

/// The number that the digits of `text` in `from..to` spell in base ten.
pub open spec fn decimal(text: Seq<u8>, from: int, to: int) -> nat
    decreases to - from,
{
    if from >= to {
        0
    } else {
        (decimal(text, from, to - 1) * 10 + (text[to - 1] - 0x30)) as nat
    }
}

/// Every byte of `text` in `from..to` is a digit.
pub open spec fn all_digits(text: Seq<u8>, from: int, to: int) -> bool {
    forall|k: int| from <= k < to ==> is_digit(#[trigger] text[k])
}

/// The index that the bytes `from..to` of `text` spell: an optional plus
/// sign, then one digit or more, with a value that the machine word holds.
/// Anything else spells no index.
pub open spec fn index_of(text: Seq<u8>, from: int, to: int) -> Option<usize> {
    let first = if from < to && text[from] == PLUS {
        from + 1
    } else {
        from
    };
    if first < to && all_digits(text, first, to) && decimal(text, first, to) <= usize::MAX {
        Some(decimal(text, first, to) as usize)
    } else {
        None
    }
}

/// The bytes `from..to` of `text` equal `word` when letters are read without
/// regard to case. `word` is meant to be in lower case.
pub open spec fn is_word(text: Seq<u8>, from: int, to: int, word: Seq<u8>) -> bool {
    &&& to - from == word.len()
    &&& forall|k: int| 0 <= k < word.len() ==> lower(#[trigger] text[from + k]) == word[k]
}

/// The three bytes of `inf`.
pub open spec fn word_inf() -> Seq<u8> {
    seq![0x69u8, 0x6eu8, 0x66u8]
}

/// The eight bytes of `infinity`.
pub open spec fn word_infinity() -> Seq<u8> {
    seq![0x69u8, 0x6eu8, 0x66u8, 0x69u8, 0x6eu8, 0x69u8, 0x74u8, 0x79u8]
}

/// The three bytes of `nan`.
pub open spec fn word_nan() -> Seq<u8> {
    seq![0x6eu8, 0x61u8, 0x6eu8]
}

/// The bytes `from..to` are an exponent: the letter `e` in either case, an
/// optional sign, then one digit or more up to `to`.
pub open spec fn is_exponent(text: Seq<u8>, from: int, to: int) -> bool {
    let digits = if from + 1 < to && (text[from + 1] == PLUS || text[from + 1] == MINUS) {
        from + 2
    } else {
        from + 1
    };
    &&& from < to
    &&& lower(text[from]) == EXPONENT
    &&& digits < to
    &&& digits_end(text, digits, to) == to
}

/// The bytes `from..to` are digits with at most one point among them and at
/// least one digit, followed by nothing or by an exponent.
pub open spec fn is_decimal(text: Seq<u8>, from: int, to: int) -> bool {
    let whole = digits_end(text, from, to);
    let point = whole < to && text[whole] == POINT;
    let rest = if point {
        digits_end(text, whole + 1, to)
    } else {
        whole
    };
    let digits = if point {
        rest - from - 1
    } else {
        rest - from
    };
    &&& digits >= 1
    &&& (rest == to || is_exponent(text, rest, to))
}

/// The bytes `from..to` of `text` are written as a number: an optional sign,
/// then `inf`, `infinity` or `nan` in any case, or a decimal number with an
/// optional exponent. This is the grammar by which the standard library reads
/// a binary real number from text.
pub open spec fn is_number(text: Seq<u8>, from: int, to: int) -> bool {
    let body = if from < to && (text[from] == PLUS || text[from] == MINUS) {
        from + 1
    } else {
        from
    };
    ||| is_word(text, body, to, word_inf())
    ||| is_word(text, body, to, word_infinity())
    ||| is_word(text, body, to, word_nan())
    ||| is_decimal(text, body, to)
}

/// `decimal` grows with the number of digits read.
pub proof fn lemma_decimal_grows(text: Seq<u8>, from: int, mid: int, to: int)
    requires
        from <= mid <= to,
        all_digits(text, from, to),
    ensures
        decimal(text, from, mid) <= decimal(text, from, to),
    decreases to - mid,
{
    if mid < to {
        lemma_decimal_grows(text, from, mid, to - 1);
        assert(is_digit(text[to - 1]));
    }
}

/// `token_end` never goes back, nor beyond `to`. Inside the text it stops at
/// a blank byte or at `to`, and passes no blank byte on its way.
pub proof fn lemma_token_end(text: Seq<u8>, from: int, to: int)
    ensures
        from <= token_end(text, from, to),
        from <= to ==> token_end(text, from, to) <= to,
        0 <= from <= to <= text.len() ==> {
            &&& token_end(text, from, to) < to ==> is_space(text[token_end(text, from, to)])
            &&& forall|k: int|
                from <= k < token_end(text, from, to) ==> !is_space(#[trigger] text[k])
        },
    decreases to - from,
{
    if from < to && !is_space(text[from]) {
        lemma_token_end(text, from + 1, to);
    }
}

/// `find_byte` never goes back, nor beyond `to`. Inside the text it stops at
/// the byte or at `to`, and passes none on its way.
pub proof fn lemma_find_byte(text: Seq<u8>, from: int, to: int, byte: u8)
    ensures
        from <= to ==> from <= find_byte(text, from, to, byte) <= to,
        0 <= from <= to <= text.len() ==> {
            &&& find_byte(text, from, to, byte) < to ==> text[find_byte(text, from, to, byte)]
                == byte
            &&& forall|k: int|
                from <= k < find_byte(text, from, to, byte) ==> #[trigger] text[k] != byte
        },
    decreases to - from,
{
    if from < to && text[from] != byte {
        lemma_find_byte(text, from + 1, to, byte);
    }
}

/// `span` is a maximal run of bytes that are not blank between `from` and
/// `to`: it is not empty, none of its bytes is blank, and it cannot be
/// stretched at either end.
pub open spec fn is_run(text: Seq<u8>, from: int, to: int, span: Span) -> bool {
    &&& from <= span.start < span.end <= to
    &&& forall|k: int| span.start <= k < span.end ==> !is_space(#[trigger] text[k])
    &&& span.start == from || is_space(text[span.start - 1])
    &&& span.end == to || is_space(text[span.end as int])
}

/// The tokens are the maximal runs of bytes that are not blank.
///
/// Every token is such a run; the tokens stand in the order of the text, a
/// blank byte at least between one and the next; and every byte that is not
/// blank lies in a token.
pub proof fn lemma_tokens_are_runs(text: Seq<u8>, from: int, to: int)
    requires
        0 <= from <= to <= text.len() <= usize::MAX,
    ensures
        forall|i: int|
            0 <= i < tokens(text, from, to).len() ==> is_run(
                text,
                from,
                to,
                #[trigger] tokens(text, from, to)[i],
            ),
        forall|i: int, j: int|
            0 <= i < j < tokens(text, from, to).len() ==> (#[trigger] tokens(text, from, to)[i]).end
                < (#[trigger] tokens(text, from, to)[j]).start,
        forall|k: int|
            from <= k < to && !is_space(#[trigger] text[k]) ==> exists|i: int|
                0 <= i < tokens(text, from, to).len() && (#[trigger] tokens(
                    text,
                    from,
                    to,
                )[i]).start <= k < tokens(text, from, to)[i].end,
    decreases to - from,
{
    let all = tokens(text, from, to);
    if from >= to {
    } else if is_space(text[from]) {
        lemma_tokens_are_runs(text, from + 1, to);
        let rest = tokens(text, from + 1, to);
        assert(all == rest);
        assert forall|i: int| 0 <= i < all.len() implies is_run(text, from, to, #[trigger] all[i]) by {
            assert(is_run(text, from + 1, to, rest[i]));
        }
        assert forall|k: int| from <= k < to && !is_space(#[trigger] text[k]) implies exists|i: int|
            0 <= i < all.len() && (#[trigger] all[i]).start <= k < all[i].end by {
            let i = choose|i: int| 0 <= i < rest.len() && (#[trigger] rest[i]).start <= k < rest[i].end;
            assert(all[i].start <= k < all[i].end);
        }
    } else {
        let end = token_end(text, from + 1, to);
        lemma_token_end(text, from + 1, to);
        lemma_tokens_are_runs(text, end, to);
        let first = Span { start: from as usize, end: end as usize };
        let rest = tokens(text, end, to);
        assert(all == seq![first] + rest);
        assert(is_run(text, from, to, first));
        assert forall|i: int| 0 <= i < all.len() implies is_run(text, from, to, #[trigger] all[i]) by {
            if i > 0 {
                assert(all[i] == rest[i - 1]);
                assert(is_run(text, end, to, rest[i - 1]));
                if rest[i - 1].start == end {
                    assert(!is_space(text[end]));
                }
            }
        }
        assert forall|i: int, j: int| 0 <= i < j < all.len() implies (#[trigger] all[i]).end < (
        #[trigger] all[j]).start by {
            assert(all[j] == rest[j - 1]);
            assert(is_run(text, end, to, rest[j - 1]));
            if rest[j - 1].start == end {
                assert(!is_space(text[end]));
            }
            if i > 0 {
                assert(all[i] == rest[i - 1]);
            }
        }
        assert forall|k: int| from <= k < to && !is_space(#[trigger] text[k]) implies exists|i: int|
            0 <= i < all.len() && (#[trigger] all[i]).start <= k < all[i].end by {
            if k < end {
                assert(all[0].start <= k < all[0].end);
            } else {
                let i = choose|i: int|
                    0 <= i < rest.len() && (#[trigger] rest[i]).start <= k < rest[i].end;
                assert(all[i + 1] == rest[i]);
                assert(all[i + 1].start <= k < all[i + 1].end);
            }
        }
    }
}

/// Whether `b` is a blank byte.
pub fn space(b: u8) -> (r: bool)
    ensures
        r == is_space(b),
{
    b == 0x20 || (0x09 <= b && b <= 0x0d)
}

/// Whether `b` is a decimal digit.
pub fn digit(b: u8) -> (r: bool)
    ensures
        r == is_digit(b),
{
    0x30 <= b && b <= 0x39
}

/// The lower-case form of `b`.
pub fn to_lower(b: u8) -> (r: u8)
    ensures
        r == lower(b),
{
    if 0x41 <= b && b <= 0x5a {
        b + 0x20
    } else {
        b
    }
}

/// Finds `byte` in `text` between `from` and `to`.
pub fn find(text: &[u8], from: usize, to: usize, byte: u8) -> (r: usize)
    requires
        from <= to <= text@.len(),
    ensures
        r == find_byte(text@, from as int, to as int, byte),
        from <= r <= to,
{
    let mut i: usize = from;
    while i < to && text[i] != byte
        invariant
            from <= i <= to <= text@.len(),
            find_byte(text@, from as int, to as int, byte) == find_byte(
                text@,
                i as int,
                to as int,
                byte,
            ),
        decreases to - i,
    {
        i += 1;
    }
    i
}

/// Passes over the bytes of `text` from `from` on that are not blank.
pub fn after_token(text: &[u8], from: usize, to: usize) -> (r: usize)
    requires
        from <= to <= text@.len(),
    ensures
        r == token_end(text@, from as int, to as int),
        from <= r <= to,
{
    let mut i: usize = from;
    while i < to && !space(text[i])
        invariant
            from <= i <= to <= text@.len(),
            token_end(text@, from as int, to as int) == token_end(text@, i as int, to as int),
        decreases to - i,
    {
        i += 1;
    }
    i
}

/// Passes over the digits of `text` from `from` on.
pub fn after_digits(text: &[u8], from: usize, to: usize) -> (r: usize)
    requires
        from <= to <= text@.len(),
    ensures
        r == digits_end(text@, from as int, to as int),
        from <= r <= to,
{
    let mut i: usize = from;
    while i < to && digit(text[i])
        invariant
            from <= i <= to <= text@.len(),
            digits_end(text@, from as int, to as int) == digits_end(text@, i as int, to as int),
        decreases to - i,
    {
        i += 1;
    }
    i
}

/// Splits the bytes `from..to` of `text` into tokens.
pub fn split(text: &[u8], from: usize, to: usize) -> (r: Vec<Span>)
    requires
        from <= to <= text@.len(),
    ensures
        r@ == tokens(text@, from as int, to as int),
        forall|k: int| 0 <= k < r@.len() ==> from <= (#[trigger] r@[k]).start < r@[k].end <= to,
{
    let mut found: Vec<Span> = Vec::new();
    let mut i: usize = from;
    while i < to
        invariant
            from <= i <= to <= text@.len(),
            tokens(text@, from as int, to as int) == found@ + tokens(text@, i as int, to as int),
            forall|k: int|
                0 <= k < found@.len() ==> from <= (#[trigger] found@[k]).start < found@[k].end
                    <= to,
        decreases to - i,
    {
        if space(text[i]) {
            i += 1;
        } else {
            let end = after_token(text, i + 1, to);
            proof {
                let rest = tokens(text@, end as int, to as int);
                let one = seq![Span { start: i, end: end }];
                assert(tokens(text@, i as int, to as int) == one + rest);
                assert(found@ + (one + rest) == found@.push(Span { start: i, end: end }) + rest);
            }
            found.push(Span { start: i, end });
            i = end;
        }
    }
    found
}

/// Reads the bytes `from..to` of `text` as an index.
pub fn parse_index(text: &[u8], from: usize, to: usize) -> (r: Option<usize>)
    requires
        from <= to <= text@.len(),
    ensures
        r == index_of(text@, from as int, to as int),
{
    let first: usize = if from < to && text[from] == PLUS {
        from + 1
    } else {
        from
    };
    if first >= to {
        return None;
    }
    let mut value: usize = 0;
    let mut i: usize = first;
    while i < to
        invariant
            from <= first <= i <= to <= text@.len(),
            first < to,
            first as int == if from < to && text@[from as int] == PLUS {
                from + 1
            } else {
                from as int
            },
            all_digits(text@, first as int, i as int),
            value == decimal(text@, first as int, i as int),
        decreases to - i,
    {
        let b = text[i];
        if !digit(b) {
            assert(!is_digit(text@[i as int]));
            return None;
        }
        let d: usize = (b - 0x30) as usize;
        assert(decimal(text@, first as int, i + 1) == value * 10 + d);
        let grown = match value.checked_mul(10) {
            Some(tens) => tens.checked_add(d),
            None => None,
        };
        match grown {
            Some(next) => {
                value = next;
            },
            None => {
                proof {
                    if all_digits(text@, first as int, to as int) {
                        lemma_decimal_grows(text@, first as int, i + 1, to as int);
                    }
                }
                assert(value * 10 + d > usize::MAX);
                return None;
            },
        }
        i += 1;
    }
    Some(value)
}

/// Whether the bytes `from..to` of `text` equal `word` without regard to the
/// case of letters.
pub fn word(text: &[u8], from: usize, to: usize, letters: &[u8]) -> (r: bool)
    requires
        from <= to <= text@.len(),
    ensures
        r == is_word(text@, from as int, to as int, letters@),
{
    if to - from != letters.len() {
        return false;
    }
    let mut k: usize = 0;
    while k < letters.len()
        invariant
            from <= to <= text@.len(),
            to - from == letters@.len(),
            0 <= k <= letters@.len(),
            forall|j: int| 0 <= j < k ==> lower(#[trigger] text@[from + j]) == letters@[j],
        decreases letters@.len() - k,
    {
        if to_lower(text[from + k]) != letters[k] {
            return false;
        }
        k += 1;
    }
    true
}

/// Whether the bytes `from..to` of `text` are an exponent.
fn exponent(text: &[u8], from: usize, to: usize) -> (r: bool)
    requires
        from <= to <= text@.len(),
    ensures
        r == is_exponent(text@, from as int, to as int),
{
    if from >= to || to_lower(text[from]) != EXPONENT {
        return false;
    }
    let digits: usize = if from + 1 < to && (text[from + 1] == PLUS || text[from + 1] == MINUS) {
        from + 2
    } else {
        from + 1
    };
    if digits >= to {
        return false;
    }
    after_digits(text, digits, to) == to
}

/// Whether the bytes `from..to` of `text` are a decimal number.
fn decimal_number(text: &[u8], from: usize, to: usize) -> (r: bool)
    requires
        from <= to <= text@.len(),
    ensures
        r == is_decimal(text@, from as int, to as int),
{
    let whole = after_digits(text, from, to);
    let point = whole < to && text[whole] == POINT;
    let rest: usize = if point {
        after_digits(text, whole + 1, to)
    } else {
        whole
    };
    let digits: usize = if point {
        rest - from - 1
    } else {
        rest - from
    };
    digits >= 1 && (rest == to || exponent(text, rest, to))
}

/// Whether the bytes `from..to` of `text` are written as a number.
pub fn number(text: &[u8], from: usize, to: usize) -> (r: bool)
    requires
        from <= to <= text@.len(),
    ensures
        r == is_number(text@, from as int, to as int),
{
    let body: usize = if from < to && (text[from] == PLUS || text[from] == MINUS) {
        from + 1
    } else {
        from
    };
    let inf: [u8; 3] = [0x69, 0x6e, 0x66];
    let infinity: [u8; 8] = [0x69, 0x6e, 0x66, 0x69, 0x6e, 0x69, 0x74, 0x79];
    let nan: [u8; 3] = [0x6e, 0x61, 0x6e];
    assert(inf@ =~= word_inf());
    assert(infinity@ =~= word_infinity());
    assert(nan@ =~= word_nan());
    word(text, body, to, inf.as_slice()) || word(text, body, to, infinity.as_slice()) || word(
        text,
        body,
        to,
        nan.as_slice(),
    ) || decimal_number(text, body, to)
}

} // verus!
