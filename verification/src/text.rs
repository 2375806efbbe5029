//! Text helpers: building strings out of characters and numbers, and comparing
//! string slices.

use vstd::prelude::*;
use vstd::utf8::*;

verus! {

/// `String::push`: appends one character at the end.
pub assume_specification[ String::push ](s: &mut String, c: char)
    ensures
        final(s)@ == old(s)@.push(c),
;

/// The Unicode White_Space property.
pub open spec fn white_space(c: char) -> bool {
    ||| 0x09 <= c as int <= 0x0D
    ||| c as int == 0x20
    ||| c as int == 0x85
    ||| c as int == 0xA0
    ||| c as int == 0x1680
    ||| 0x2000 <= c as int <= 0x200A
    ||| 0x2028 <= c as int <= 0x2029
    ||| c as int == 0x202F
    ||| c as int == 0x205F
    ||| c as int == 0x3000
}

/// `char::is_whitespace`: whether the character has the White_Space property.
pub assume_specification[ char::is_whitespace ](c: char) -> (r: bool)
    ensures
        r == white_space(c),
;

/// The text that `String::from_utf8_lossy` reads out of arbitrary bytes.
pub uninterp spec fn utf8_lossy(bytes: Seq<u8>) -> Seq<char>;

/// `String::from_utf8_lossy`: the text that the bytes encode, with the replacement
/// character in place of what is not UTF-8. Well-formed input is decoded as it is;
/// how ill-formed sequences are grouped is left unsaid.
#[verifier::external_body]
pub(crate) fn from_utf8_lossy(bytes: &[u8]) -> (r: String)
    ensures
        r@ == utf8_lossy(bytes@),
        valid_utf8(bytes@) ==> r@ == decode_utf8(bytes@),
{
    String::from_utf8_lossy(bytes).into_owned()
}

/// `s` without the white space at its end.
pub open spec fn trim_end(s: Seq<char>) -> Seq<char>
    decreases s.len(),
{
    if s.len() > 0 && white_space(s.last()) {
        trim_end(s.drop_last())
    } else {
        s
    }
}

/// `s` without the white space at its start.
pub open spec fn trim_start(s: Seq<char>) -> Seq<char>
    decreases s.len(),
{
    if s.len() > 0 && white_space(s[0]) {
        trim_start(s.drop_first())
    } else {
        s
    }
}

/// `s` without the white space at either end.
pub open spec fn trim(s: Seq<char>) -> Seq<char> {
    trim_start(trim_end(s))
}

/// The character that stands for `v` as one digit of a base up to sixteen, in lower case.
pub open spec fn digit_char(v: int) -> char {
    if v < 10 {
        ('0' as int + v) as char
    } else {
        ('a' as int + v - 10) as char
    }
}

/// The decimal numeral of `n`: most significant digit first, no leading zeros.
pub open spec fn decimal(n: nat) -> Seq<char>
    decreases n,
{
    if n < 10 {
        seq![digit_char(n as int)]
    } else {
        decimal(n / 10).push(digit_char((n % 10) as int))
    }
}

/// `n` as exactly `width` hexadecimal digits: zero-filled on the left, and without
/// the digits that do not fit.
pub open spec fn hex(n: nat, width: nat) -> Seq<char>
    decreases width,
{
    if width == 0 {
        Seq::empty()
    } else {
        hex(n / 16, (width - 1) as nat).push(digit_char((n % 16) as int))
    }
}

/// `bytes` as two lower-case hexadecimal digits each.
pub open spec fn hex_of(bytes: Seq<u8>) -> Seq<char>
    decreases bytes.len(),
{
    if bytes.len() == 0 {
        Seq::empty()
    } else {
        hex_of(bytes.drop_last()) + hex(bytes.last() as nat, 2)
    }
}

/// Compares two string slices.
pub fn same_text(a: &str, b: &str) -> (r: bool)
    ensures
        r == (a@ == b@),
{
    a.to_owned() == b.to_owned()
}

/// Copies a string slice into a `String`.
pub fn owned(s: &str) -> (r: String)
    ensures
        r@ == s@,
{
    s.to_owned()
}

/// Collects the characters of `s`.
pub fn chars_of(s: &str) -> (r: Vec<char>)
    ensures
        r@ == s@,
{
    let mut out: Vec<char> = Vec::new();
    let n: usize = s.unicode_len();
    let mut i: usize = 0;
    while i < n
        invariant
            i <= n,
            n == s@.len(),
            out@ == s@.take(i as int),
        decreases n - i,
    {
        out.push(s.get_char(i));
        proof {
            assert(out@ =~= s@.take(i + 1));
        }
        i = i + 1;
    }
    proof {
        assert(s@.take(n as int) =~= s@);
    }
    out
}

/// The text made of `chars[from..to]`.
pub fn text_of(chars: &[char], from: usize, to: usize) -> (r: String)
    requires
        from <= to <= chars@.len(),
    ensures
        r@ == chars@.subrange(from as int, to as int),
{
    let mut out = String::new();
    let mut i: usize = from;
    proof {
        assert(out@ =~= chars@.subrange(from as int, from as int));
    }
    while i < to
        invariant
            from <= i <= to <= chars@.len(),
            out@ == chars@.subrange(from as int, i as int),
        decreases to - i,
    {
        out.push(chars[i]);
        proof {
            assert(out@ =~= chars@.subrange(from as int, i + 1));
        }
        i = i + 1;
    }
    out
}

/// Strips white space from both ends of `s`.
pub fn trimmed(s: &str) -> (r: String)
    ensures
        r@ == trim(s@),
{
    let chars = chars_of(s);
    let mut to: usize = chars.len();
    proof {
        assert(chars@.take(to as int) =~= s@);
    }
    while to > 0 && chars[to - 1].is_whitespace()
        invariant
            to <= chars@.len(),
            trim_end(chars@.take(to as int)) == trim_end(s@),
        ensures
            to <= chars@.len(),
            chars@.take(to as int) == trim_end(s@),
        decreases to,
    {
        proof {
            assert(chars@.take(to as int).drop_last() =~= chars@.take(to - 1));
        }
        to = to - 1;
    }
    let mut from: usize = 0;
    proof {
        assert(chars@.subrange(0, to as int) =~= chars@.take(to as int));
    }
    while from < to && chars[from].is_whitespace()
        invariant
            from <= to <= chars@.len(),
            trim_start(chars@.subrange(from as int, to as int)) == trim(s@),
        ensures
            from <= to <= chars@.len(),
            chars@.subrange(from as int, to as int) == trim(s@),
        decreases to - from,
    {
        proof {
            assert(chars@.subrange(from as int, to as int).drop_first() =~= chars@.subrange(
                from + 1,
                to as int,
            ));
        }
        from = from + 1;
    }
    text_of(&chars, from, to)
}

/// The digit for a value below sixteen.
fn digit(v: u8) -> (c: char)
    requires
        v < 16,
    ensures
        c == digit_char(v as int),
{
    if v < 10 {
        (48u8 + v) as char
    } else {
        (97u8 + (v - 10)) as char
    }
}

/// Appends the decimal numeral of `n` to `out`.
pub fn push_decimal(out: &mut String, n: u64)
    ensures
        final(out)@ == old(out)@ + decimal(n as nat),
    decreases n,
{
    if n >= 10 {
        push_decimal(out, n / 10);
    }
    let ghost before = out@;
    let d: u8 = (n % 10) as u8;
    out.push(digit(d));
    proof {
        assert(out@ =~= old(out)@ + decimal(n as nat));
    }
}

/// The decimal numeral of `n`.
pub fn decimal_string(n: u64) -> (r: String)
    ensures
        r@ == decimal(n as nat),
{
    let mut s = String::new();
    push_decimal(&mut s, n);
    proof {
        assert(Seq::<char>::empty() + decimal(n as nat) =~= decimal(n as nat));
    }
    s
}

/// Appends `n` as exactly `width` hexadecimal digits.
pub fn push_hex(out: &mut String, n: u64, width: u32)
    ensures
        final(out)@ == old(out)@ + hex(n as nat, width as nat),
    decreases width,
{
    if width > 0 {
        push_hex(out, n / 16, width - 1);
        let d: u8 = (n % 16) as u8;
        out.push(digit(d));
    }
    proof {
        assert(out@ =~= old(out)@ + hex(n as nat, width as nat));
    }
}

/// `n` as exactly `width` hexadecimal digits.
pub fn hex_string(n: u64, width: u32) -> (r: String)
    ensures
        r@ == hex(n as nat, width as nat),
{
    let mut s = String::new();
    push_hex(&mut s, n, width);
    proof {
        assert(Seq::<char>::empty() + hex(n as nat, width as nat) =~= hex(
            n as nat,
            width as nat,
        ));
    }
    s
}

/// The value of a decimal digit character.
pub open spec fn digit_value(c: char) -> Option<int> {
    if '0' <= c <= '9' {
        Some(c as int - '0' as int)
    } else {
        None
    }
}

/// The number that a text of digits stands for; `None` if it holds anything else.
pub open spec fn digits_value(s: Seq<char>) -> Option<int>
    decreases s.len(),
{
    if s.len() == 0 {
        Some(0)
    } else {
        match (digits_value(s.drop_last()), digit_value(s.last())) {
            (Some(v), Some(d)) => Some(10 * v + d),
            _ => None,
        }
    }
}

/// The byte that a text stands for: an optional plus sign and at least one digit, not
/// above 255.
pub open spec fn byte_value(s: Seq<char>) -> Option<u8> {
    let body = if s.len() > 0 && s[0] == '+' { s.drop_first() } else { s };
    match digits_value(body) {
        Some(v) => if body.len() > 0 && v <= 255 {
            Some(v as u8)
        } else {
            None
        },
        None => None,
    }
}

/// A prefix of a text of digits stands for no more than the text, and is one itself.
proof fn lemma_prefix_value(s: Seq<char>, n: int)
    requires
        0 <= n <= s.len(),
        digits_value(s) is Some,
    ensures
        digits_value(s.take(n)) is Some,
        0 <= digits_value(s.take(n))->Some_0 <= digits_value(s)->Some_0,
    decreases s.len(),
{
    if n == s.len() {
        assert(s.take(n) =~= s);
        if s.len() > 0 {
            lemma_prefix_value(s.drop_last(), s.len() - 1);
        }
    } else {
        lemma_prefix_value(s.drop_last(), n);
        assert(s.drop_last().take(n) =~= s.take(n));
    }
}

/// Reads a byte written in decimal.
pub fn parse_byte(s: &str) -> (r: Option<u8>)
    ensures
        r == byte_value(s@),
{
    let chars = chars_of(s);
    let from: usize = if chars.len() > 0 && chars[0] == '+' {
        1
    } else {
        0
    };
    let ghost body = if s@.len() > 0 && s@[0] == '+' {
        s@.drop_first()
    } else {
        s@
    };
    proof {
        assert(chars@.subrange(from as int, chars@.len() as int) =~= body);
    }
    if from == chars.len() {
        return None;
    }
    let mut acc: u32 = 0;
    let mut i: usize = from;
    proof {
        assert(body.take(0) =~= Seq::empty());
    }
    while i < chars.len()
        invariant
            from <= i <= chars@.len(),
            chars@ == s@,
            body == (if s@.len() > 0 && s@[0] == '+' { s@.drop_first() } else { s@ }),
            body == chars@.subrange(from as int, chars@.len() as int),
            digits_value(body.take(i - from)) == Some(acc as int),
            acc <= 255,
        decreases chars@.len() - i,
    {
        let c = chars[i];
        let ghost upto = body.take(i + 1 - from);
        proof {
            assert(upto.drop_last() =~= body.take(i - from));
            assert(upto.last() == c);
        }
        if c < '0' || c > '9' {
            proof {
                if digits_value(body) is Some {
                    lemma_prefix_value(body, i + 1 - from);
                }
            }
            return None;
        }
        acc = 10 * acc + (c as u32 - 48);
        i = i + 1;
        if acc > 255 {
            proof {
                if digits_value(body) is Some {
                    lemma_prefix_value(body, i - from);
                }
            }
            return None;
        }
    }
    proof {
        assert(body.take(i - from) =~= body);
    }
    Some(acc as u8)
}

/// The first position of `sep` at or after `from`, or the length.
pub open spec fn find_from(s: Seq<char>, sep: char, from: nat) -> nat
    decreases s.len() - from,
{
    if from >= s.len() {
        s.len()
    } else if s[from as int] == sep {
        from
    } else {
        find_from(s, sep, from + 1)
    }
}

/// The pieces between the separators from position `from` on; there is always at least
/// one.
pub open spec fn pieces_from(s: Seq<char>, sep: char, from: nat) -> Seq<Seq<char>>
    decreases s.len() - from,
    when from <= s.len() via pieces_decrease
{
    let end = find_from(s, sep, from);
    let piece = s.subrange(from as int, end as int);
    if end >= s.len() {
        seq![piece]
    } else {
        seq![piece] + pieces_from(s, sep, end + 1)
    }
}

#[via_fn]
proof fn pieces_decrease(s: Seq<char>, sep: char, from: nat) {
    lemma_find_from(s, sep, from);
}

/// A search ends at or after its start and within the text.
proof fn lemma_find_from(s: Seq<char>, sep: char, from: nat)
    requires
        from <= s.len(),
    ensures
        from <= find_from(s, sep, from) <= s.len(),
    decreases s.len() - from,
{
    if from < s.len() && s[from as int] != sep {
        lemma_find_from(s, sep, from + 1);
    }
}

/// The pieces of a text between the separators.
pub open spec fn pieces(s: Seq<char>, sep: char) -> Seq<Seq<char>> {
    pieces_from(s, sep, 0)
}

/// Texts as character sequences.
pub open spec fn texts(v: Seq<String>) -> Seq<Seq<char>> {
    Seq::new(v.len(), |i: int| v[i]@)
}

/// Splits a text at every separator.
pub fn split_text(s: &str, sep: char) -> (r: Vec<String>)
    ensures
        texts(r@) == pieces(s@, sep),
        r@.len() >= 1,
{
    let chars = chars_of(s);
    let n: usize = chars.len();
    let mut out: Vec<String> = Vec::new();
    let mut from: usize = 0;
    proof {
        assert(texts(out@) + pieces_from(s@, sep, 0) =~= pieces(s@, sep));
    }
    loop
        invariant
            chars@ == s@,
            n == chars@.len(),
            from <= n,
            texts(out@) + pieces_from(s@, sep, from as nat) == pieces(s@, sep),
        decreases n - from,
    {
        let mut end: usize = from;
        while end < n && chars[end] != sep
            invariant
                chars@ == s@,
                n == chars@.len(),
                from <= end <= n,
                find_from(s@, sep, end as nat) == find_from(s@, sep, from as nat),
            ensures
                from <= end <= n,
                end == find_from(s@, sep, from as nat),
            decreases n - end,
        {
            end = end + 1;
        }
        let ghost before = texts(out@);
        let piece = text_of(&chars, from, end);
        let ghost p = piece@;
        out.push(piece);
        proof {
            assert(texts(out@) =~= before.push(p));
        }
        if end >= n {
            proof {
                assert(before + seq![p] =~= before.push(p));
            }
            return out;
        }
        proof {
            let rest = pieces_from(s@, sep, (end + 1) as nat);
            assert(before + (seq![p] + rest) =~= before.push(p) + rest);
        }
        from = end + 1;
    }
}

/// The digit that stands for `v` in a base up to sixteen, in upper case.
pub open spec fn upper_digit(v: int) -> char {
    if v < 10 {
        ('0' as int + v) as char
    } else {
        ('A' as int + v - 10) as char
    }
}

/// `n` in upper-case hexadecimal with at least `width` digits.
pub open spec fn upper_hex(n: nat, width: nat) -> Seq<char>
    decreases n, width,
{
    if n < 16 && width <= 1 {
        seq![upper_digit(n as int)]
    } else {
        upper_hex(
            n / 16,
            if width > 0 {
                (width - 1) as nat
            } else {
                0
            },
        ).push(upper_digit((n % 16) as int))
    }
}

/// Appends `n` in upper-case hexadecimal with at least `width` digits.
pub fn push_upper_hex(out: &mut String, n: u64, width: u32)
    ensures
        final(out)@ == old(out)@ + upper_hex(n as nat, width as nat),
    decreases n, width,
{
    if n >= 16 || width > 1 {
        push_upper_hex(
            out,
            n / 16,
            if width > 0 {
                width - 1
            } else {
                0
            },
        );
    }
    let d: u8 = (n % 16) as u8;
    let c = if d < 10 {
        (48u8 + d) as char
    } else {
        (65u8 + (d - 10)) as char
    };
    out.push(c);
    proof {
        assert(out@ =~= old(out)@ + upper_hex(n as nat, width as nat));
    }
}

/// Whether `pat` stands in `s` at position `at`.
pub open spec fn text_at(s: Seq<char>, pat: Seq<char>, at: int) -> bool {
    &&& 0 <= at
    &&& at + pat.len() <= s.len()
    &&& s.subrange(at, at + pat.len()) == pat
}

/// Whether `pat` stands somewhere in `s`.
pub open spec fn contains_text(s: Seq<char>, pat: Seq<char>) -> bool {
    exists|at: int| #[trigger] text_at(s, pat, at)
}

/// Whether `pat` stands somewhere in `s`.
pub fn find_text(s: &str, pat: &str) -> (r: bool)
    ensures
        r == contains_text(s@, pat@),
{
    let hay: Vec<char> = chars_of(s);
    let needle: Vec<char> = chars_of(pat);
    let n: usize = hay.len();
    let m: usize = needle.len();
    if m > n {
        proof {
            assert forall|at: int| !#[trigger] text_at(s@, pat@, at) by {}
        }
        return false;
    }
    let mut at: usize = 0;
    while at <= n - m
        invariant
            hay@ == s@,
            needle@ == pat@,
            n == hay@.len(),
            m == needle@.len(),
            m <= n,
            at <= n - m + 1,
            forall|k: int| 0 <= k < at ==> !#[trigger] text_at(s@, pat@, k),
        decreases n - m + 1 - at,
    {
        let mut i: usize = 0;
        while i < m && hay[at + i] == needle[i]
            invariant
                hay@ == s@,
                needle@ == pat@,
                n == hay@.len(),
                m == needle@.len(),
                m <= n,
                at <= n - m,
                i <= m,
                forall|k: int| 0 <= k < i ==> s@[at + k] == #[trigger] pat@[k],
            decreases m - i,
        {
            i = i + 1;
        }
        if i == m {
            proof {
                assert(s@.subrange(at as int, at + m) =~= pat@);
                assert(text_at(s@, pat@, at as int));
            }
            return true;
        }
        proof {
            if text_at(s@, pat@, at as int) {
                assert(s@.subrange(at as int, at + m)[i as int] == s@[at + i]);
            }
        }
        if at == n - m {
            proof {
                assert forall|k: int| !#[trigger] text_at(s@, pat@, k) by {
                    if k == at {
                    } else if 0 <= k < at {
                    }
                }
            }
            return false;
        }
        at = at + 1;
    }
    false
}

/// A text without the characters `a` and `b` at its end.
pub open spec fn drop_end(s: Seq<char>, a: char, b: char) -> Seq<char>
    decreases s.len(),
{
    if s.len() > 0 && (s.last() == a || s.last() == b) {
        drop_end(s.drop_last(), a, b)
    } else {
        s
    }
}

/// Drops the characters `a` and `b` from the end of a text.
pub fn dropped_end(s: &str, a: char, b: char) -> (r: String)
    ensures
        r@ == drop_end(s@, a, b),
{
    let chars: Vec<char> = chars_of(s);
    let mut n: usize = chars.len();
    proof {
        assert(chars@.take(n as int) =~= s@);
    }
    while n > 0 && (chars[n - 1] == a || chars[n - 1] == b)
        invariant
            n <= chars@.len(),
            drop_end(chars@.take(n as int), a, b) == drop_end(s@, a, b),
        ensures
            n <= chars@.len(),
            chars@.take(n as int) == drop_end(s@, a, b),
        decreases n,
    {
        proof {
            assert(chars@.take(n as int).drop_last() =~= chars@.take(n - 1));
        }
        n = n - 1;
    }
    proof {
        assert(chars@.subrange(0, n as int) =~= chars@.take(n as int));
    }
    text_of(chars.as_slice(), 0, n)
}

/// A decimal numeral reads back as its number, and has no leading zero.
pub proof fn numerals_read_back(n: nat)
    ensures
        digits_value(decimal(n)) == Some(n as int),
        decimal(n).len() > 0,
        n > 0 ==> decimal(n)[0] != '0',
    decreases n,
{
    if n < 10 {
        assert(decimal(n).drop_last() =~= Seq::empty());
        assert(decimal(n).last() == digit_char(n as int));
        assert(digits_value(Seq::empty()) == Some(0int));
    } else {
        numerals_read_back(n / 10);
        assert(decimal(n).drop_last() =~= decimal(n / 10));
    }
}

/// A byte that is written in decimal is read as the same byte, with or without a plus sign;
/// a number above 255 and a text that is no number are not read.
pub proof fn bytes_are_read_as_written(s: &str, r: Option<u8>, n: nat)
    requires
        call_ensures(parse_byte, (s,), r),
    ensures
        s@ == decimal(n) && n <= 255 ==> r == Some(n as u8),
        s@ == seq!['+'] + decimal(n) && n <= 255 ==> r == Some(n as u8),
        s@ == decimal(n) && n > 255 ==> r is None,
        s@.len() == 0 ==> r is None,
        s@ == seq!['+'] ==> r is None,
        s@ == seq!['-'] + decimal(n) ==> r is None,
{
    numerals_read_back(n);
    lemma_first_digit(n);
    if s@ == seq!['+'] + decimal(n) {
        assert(s@.drop_first() =~= decimal(n));
    }
    if s@ == seq!['+'] {
        assert(s@.drop_first() =~= Seq::empty());
    }
    if s@ == seq!['-'] + decimal(n) {
        lemma_not_digits(s@);
    }
}

/// A byte in decimal has that byte as its value.
pub proof fn byte_numerals_have_their_value(n: u8)
    ensures
        byte_value(decimal(n as nat)) == Some(n),
{
    numerals_read_back(n as nat);
    lemma_first_digit(n as nat);
}

/// A decimal numeral starts with a digit.
proof fn lemma_first_digit(n: nat)
    ensures
        decimal(n).len() > 0,
        '0' <= decimal(n)[0] <= '9',
    decreases n,
{
    if n >= 10 {
        lemma_first_digit(n / 10);
    }
}

/// A text that starts with something else than a digit is no number.
proof fn lemma_not_digits(s: Seq<char>)
    requires
        s.len() > 0,
        digit_value(s[0]) is None,
    ensures
        digits_value(s) is None,
    decreases s.len(),
{
    if s.len() > 1 {
        lemma_not_digits(s.drop_last());
    }
}

/// The value of a hexadecimal digit, in either case.
pub open spec fn hex_digit_value(c: char) -> int {
    if '0' <= c <= '9' {
        c as int - '0' as int
    } else if 'a' <= c <= 'f' {
        c as int - 'a' as int + 10
    } else {
        c as int - 'A' as int + 10
    }
}

/// The number that hexadecimal digits stand for.
pub open spec fn hex_value(s: Seq<char>) -> int
    decreases s.len(),
{
    if s.len() == 0 {
        0
    } else {
        16 * hex_value(s.drop_last()) + hex_digit_value(s.last())
    }
}

/// Sixteen to the power of `n`.
pub open spec fn sixteens(n: nat) -> nat
    decreases n,
{
    if n == 0 {
        1
    } else {
        16 * sixteens((n - 1) as nat)
    }
}

/// A number in hexadecimal has exactly the digits that were asked for, and reads back as the
/// number where these suffice.
pub proof fn hex_reads_back(n: nat, width: nat)
    ensures
        hex(n, width).len() == width,
        n < sixteens(width) ==> hex_value(hex(n, width)) == n,
    decreases width,
{
    if width > 0 {
        hex_reads_back(n / 16, (width - 1) as nat);
        assert(hex(n, width).drop_last() =~= hex(n / 16, (width - 1) as nat));
        let d = (n % 16) as int;
        assert(hex_digit_value(digit_char(d)) == d);
    }
}

/// A number in upper-case hexadecimal reads back as the number and has at least the digits
/// that were asked for.
pub proof fn upper_hex_reads_back(n: nat, width: nat)
    ensures
        upper_hex(n, width).len() >= width,
        upper_hex(n, width).len() >= 1,
        hex_value(upper_hex(n, width)) == n,
    decreases n, width,
{
    let d = (n % 16) as int;
    assert(hex_digit_value(upper_digit(d)) == d);
    if n < 16 && width <= 1 {
        assert(upper_hex(n, width).drop_last() =~= Seq::empty());
        assert(hex_value(Seq::empty()) == 0);
    } else {
        let w = if width > 0 {
            (width - 1) as nat
        } else {
            0
        };
        upper_hex_reads_back(n / 16, w);
        assert(upper_hex(n, width).drop_last() =~= upper_hex(n / 16, w));
    }
}

/// Bytes in hexadecimal take two digits each, in their order.
pub proof fn bytes_take_two_digits(bytes: Seq<u8>, i: int)
    requires
        0 <= i < bytes.len(),
    ensures
        hex_of(bytes).len() == 2 * bytes.len(),
        hex_value(hex_of(bytes).subrange(2 * i, 2 * i + 2)) == bytes[i],
    decreases bytes.len(),
{
    let rest = bytes.drop_last();
    lemma_hex_len(rest);
    lemma_hex_len(bytes);
    let last = bytes.last() as nat;
    hex_reads_back(last, 2);
    reveal_with_fuel(sixteens, 3);
    if i == bytes.len() - 1 {
        assert(hex_of(bytes).subrange(2 * i, 2 * i + 2) =~= hex(last, 2));
    } else {
        bytes_take_two_digits(rest, i);
        assert(hex_of(bytes).subrange(2 * i, 2 * i + 2) =~= hex_of(rest).subrange(2 * i, 2 * i + 2));
    }
}

/// Two digits per byte.
proof fn lemma_hex_len(bytes: Seq<u8>)
    ensures
        hex_of(bytes).len() == 2 * bytes.len(),
    decreases bytes.len(),
{
    if bytes.len() > 0 {
        lemma_hex_len(bytes.drop_last());
        hex_reads_back(bytes.last() as nat, 2);
    }
}

/// Trimming takes white space away from both ends, all of it and nothing else: what is left
/// is a stretch of the text that neither starts nor ends with white space.
pub proof fn trimming_leaves_the_inside(s: Seq<char>)
    ensures
        trim(s).len() > 0 ==> !white_space(trim(s)[0]) && !white_space(trim(s).last()),
        exists|from: int, to: int|
            {
                &&& 0 <= from <= to <= s.len()
                &&& trim(s) == #[trigger] s.subrange(from, to)
                &&& forall|i: int| 0 <= i < from ==> white_space(s[i])
                &&& forall|i: int| to <= i < s.len() ==> white_space(s[i])
            },
{
    let to = lemma_trim_end(s);
    let e = trim_end(s);
    let from = lemma_trim_start(e);
    assert(trim(s) =~= s.subrange(from, to));
    assert forall|i: int| 0 <= i < from implies white_space(s[i]) by {
        assert(e[i] == s[i]);
    }
}

/// Where the text without the white space at its end ends.
proof fn lemma_trim_end(s: Seq<char>) -> (to: int)
    ensures
        0 <= to <= s.len(),
        trim_end(s) == s.take(to),
        to > 0 ==> !white_space(s[to - 1]),
        forall|i: int| to <= i < s.len() ==> white_space(s[i]),
    decreases s.len(),
{
    if s.len() > 0 && white_space(s.last()) {
        let to = lemma_trim_end(s.drop_last());
        assert(s.take(to) =~= s.drop_last().take(to));
        assert forall|i: int| to <= i < s.len() implies white_space(s[i]) by {
            if i < s.len() - 1 {
                assert(s.drop_last()[i] == s[i]);
            }
        }
        to
    } else {
        assert(s.take(s.len() as int) =~= s);
        s.len() as int
    }
}

/// Where the text without the white space at its start starts.
proof fn lemma_trim_start(s: Seq<char>) -> (from: int)
    ensures
        0 <= from <= s.len(),
        trim_start(s) == s.skip(from),
        from < s.len() ==> !white_space(s[from]),
        forall|i: int| 0 <= i < from ==> white_space(s[i]),
    decreases s.len(),
{
    if s.len() > 0 && white_space(s[0]) {
        let from = lemma_trim_start(s.drop_first());
        assert(s.skip(from + 1) =~= s.drop_first().skip(from));
        assert forall|i: int| 0 <= i < from + 1 implies white_space(s[i]) by {
            if i > 0 {
                assert(s.drop_first()[i - 1] == s[i]);
            }
        }
        if from + 1 < s.len() {
            assert(s.drop_first()[from] == s[from + 1]);
        }
        from + 1
    } else {
        assert(s.skip(0) =~= s);
        0
    }
}

/// Texts that are joined by a separator that none of them holds are split into the same
/// texts again.
pub proof fn split_texts_were_joined(a: Seq<char>, rest: Seq<char>, sep: char)
    requires
        forall|i: int| 0 <= i < a.len() ==> a[i] != sep,
    ensures
        pieces(a, sep) == seq![a],
        pieces(a.push(sep) + rest, sep) == seq![a] + pieces(rest, sep),
{
    lemma_find_none(a, sep, 0);
    assert(a.subrange(0, a.len() as int) =~= a);
    let s = a.push(sep) + rest;
    lemma_find_at(s, sep, 0, a.len());
    assert(s.subrange(0, a.len() as int) =~= a);
    assert(s.skip(a.len() as int + 1) =~= rest);
    lemma_pieces_shift(s, rest, sep, (a.len() + 1) as nat, 0);
}

/// Where no separator is, none is found.
proof fn lemma_find_none(s: Seq<char>, sep: char, from: nat)
    requires
        from <= s.len(),
        forall|i: int| from <= i < s.len() ==> s[i] != sep,
    ensures
        find_from(s, sep, from) == s.len(),
    decreases s.len() - from,
{
    if from < s.len() {
        lemma_find_none(s, sep, from + 1);
    }
}

/// The first separator is found.
proof fn lemma_find_at(s: Seq<char>, sep: char, from: nat, at: nat)
    requires
        from <= at < s.len(),
        s[at as int] == sep,
        forall|i: int| from <= i < at ==> s[i] != sep,
    ensures
        find_from(s, sep, from) == at,
    decreases at - from,
{
    if from < at {
        lemma_find_at(s, sep, from + 1, at);
    }
}

/// Pieces do not depend on what stands before them.
proof fn lemma_pieces_shift(s: Seq<char>, rest: Seq<char>, sep: char, by: nat, from: nat)
    requires
        s.len() == by + rest.len(),
        s.skip(by as int) == rest,
        from <= rest.len(),
    ensures
        pieces_from(s, sep, by + from) == pieces_from(rest, sep, from),
    decreases rest.len() - from,
{
    lemma_find_shift(s, rest, sep, by, from);
    let end = find_from(rest, sep, from);
    lemma_find_from(rest, sep, from);
    assert(s.subrange((by + from) as int, (by + end) as int) =~= rest.subrange(
        from as int,
        end as int,
    )) by {
        assert forall|i: int| from <= i < end implies s[by + i] == rest[i] by {
            assert(s.skip(by as int)[i] == rest[i]);
        }
    }
    if end < rest.len() {
        lemma_pieces_shift(s, rest, sep, by, end + 1);
    }
}

/// Separators are found where they are, whatever stands before.
proof fn lemma_find_shift(s: Seq<char>, rest: Seq<char>, sep: char, by: nat, from: nat)
    requires
        s.len() == by + rest.len(),
        s.skip(by as int) == rest,
        from <= rest.len(),
    ensures
        find_from(s, sep, by + from) == by + find_from(rest, sep, from),
    decreases rest.len() - from,
{
    if from < rest.len() {
        assert(s.skip(by as int)[from as int] == rest[from as int]);
        if rest[from as int] != sep {
            lemma_find_shift(s, rest, sep, by, from + 1);
        }
    }
}

/// A text loses exactly the given characters at its end.
pub proof fn dropped_ends_hold_nothing_else(s: Seq<char>, a: char, b: char)
    ensures
        drop_end(s, a, b).len() <= s.len(),
        drop_end(s, a, b) == s.take(drop_end(s, a, b).len() as int),
        forall|i: int| drop_end(s, a, b).len() <= i < s.len() ==> s[i] == a || s[i] == b,
        drop_end(s, a, b).len() > 0 ==> drop_end(s, a, b).last() != a && drop_end(s, a, b).last()
            != b,
    decreases s.len(),
{
    if s.len() > 0 && (s.last() == a || s.last() == b) {
        dropped_ends_hold_nothing_else(s.drop_last(), a, b);
        let k = drop_end(s, a, b).len() as int;
        assert(s.take(k) =~= s.drop_last().take(k));
        assert forall|i: int| k <= i < s.len() implies s[i] == a || s[i] == b by {
            if i < s.len() - 1 {
                assert(s.drop_last()[i] == s[i]);
            }
        }
    } else {
        assert(s.take(s.len() as int) =~= s);
    }
}

/// Numbers are written so that they read back: in decimal, and in hexadecimal with as many
/// digits as asked for. What stood in a text before stays in front.
pub proof fn written_numbers_read_back(
    n: u64,
    width: u32,
    d: String,
    h: String,
    a: &mut String,
    b: &mut String,
)
    requires
        call_ensures(decimal_string, (n,), d),
        call_ensures(hex_string, (n, width), h),
        call_ensures(push_decimal, (a, n), ()),
        call_ensures(push_hex, (b, n, width), ()),
    ensures
        digits_value(d@) == Some(n as int),
        h@.len() == width,
        final(a)@ == old(a)@ + d@,
        final(b)@ == old(b)@ + h@,
{
    numerals_read_back(n as nat);
    hex_reads_back(n as nat, width as nat);
}

/// Two texts are the same where they have the same characters; copies and collected
/// characters are those of the text, and a part is what stands between its ends.
pub proof fn texts_are_their_characters(
    s: &str,
    t: &str,
    same: bool,
    copy: String,
    chars: Vec<char>,
    all: &[char],
    from: usize,
    to: usize,
    part: String,
    i: int,
)
    requires
        call_ensures(same_text, (s, t), same),
        call_ensures(owned, (s,), copy),
        call_ensures(chars_of, (s,), chars),
        from <= to <= all@.len(),
        call_ensures(text_of, (all, from, to), part),
        0 <= i < to - from,
    ensures
        same <==> s@ == t@,
        copy@ == s@,
        chars@ == s@,
        part@.len() == to - from && part@[i] == all@[from + i],
{
}

} // verus!
