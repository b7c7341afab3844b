//! Text helpers: comparing strings by their characters, prefixes and
//! substrings, decimal and hexadecimal rendering of integers, and decimal
//! parsing of unsigned integers.
use vstd::prelude::*;
use vstd::string::*;

verus! {

// ---------------------------------------------------------------------------
// Comparison
// ---------------------------------------------------------------------------

/// Whether two string slices hold the same characters.
pub fn str_eq(a: &str, b: &str) -> (r: bool)
    ensures
        r == (a@ == b@),
{
    let n = a.unicode_len();
    if n != b.unicode_len() {
        return false;
    }
    let mut i: usize = 0;
    while i < n
        invariant
            n == a@.len(),
            n == b@.len(),
            0 <= i <= n,
            forall|j: int| 0 <= j < i ==> a@[j] == b@[j],
        decreases n - i,
    {
        if a.get_char(i) != b.get_char(i) {
            return false;
        }
        i = i + 1;
    }
    assert(a@ =~= b@);
    true
}

/// Whether `s` begins with `prefix`.
pub fn starts_with(s: &str, prefix: &str) -> (r: bool)
    ensures
        r == prefix@.is_prefix_of(s@),
{
    let n = prefix.unicode_len();
    let m = s.unicode_len();
    if n > m {
        return false;
    }
    let mut i: usize = 0;
    while i < n
        invariant
            n == prefix@.len(),
            m == s@.len(),
            n <= m,
            0 <= i <= n,
            forall|j: int| 0 <= j < i ==> prefix@[j] == s@[j],
        decreases n - i,
    {
        if s.get_char(i) != prefix.get_char(i) {
            return false;
        }
        i = i + 1;
    }
    assert(prefix@ =~= s@.subrange(0, n as int));
    true
}

/// `needle` occurs in `hay` starting at position `at`.
pub open spec fn occurs_at(hay: Seq<char>, needle: Seq<char>, at: int) -> bool {
    &&& 0 <= at
    &&& at + needle.len() <= hay.len()
    &&& hay.subrange(at, at + needle.len()) == needle
}

/// `needle` occurs somewhere in `hay` (the empty sequence occurs everywhere).
pub open spec fn contains_seq(hay: Seq<char>, needle: Seq<char>) -> bool {
    exists|at: int| occurs_at(hay, needle, at)
}

/// Whether `needle` occurs as a contiguous run of characters in `hay`.
pub fn contains_str(hay: &str, needle: &str) -> (r: bool)
    ensures
        r == contains_seq(hay@, needle@),
{
    let n = needle.unicode_len();
    let m = hay.unicode_len();
    if n == 0 {
        assert(hay@.subrange(0, 0) =~= needle@);
        assert(occurs_at(hay@, needle@, 0));
        return true;
    }
    if n > m {
        assert forall|at: int| !occurs_at(hay@, needle@, at) by {}
        return false;
    }
    let mut start: usize = 0;
    while start <= m - n
        invariant
            n == needle@.len(),
            m == hay@.len(),
            1 <= n <= m,
            0 <= start <= m - n + 1,
            forall|at: int| 0 <= at < start ==> !occurs_at(hay@, needle@, at),
        decreases m - start,
    {
        let mut i: usize = 0;
        let mut same = true;
        while i < n
            invariant
                n == needle@.len(),
                m == hay@.len(),
                start + n <= m,
                0 <= i <= n,
                same ==> forall|j: int| 0 <= j < i ==> hay@[start + j] == needle@[j],
                !same ==> !occurs_at(hay@, needle@, start as int),
            decreases n - i,
        {
            if same && hay.get_char(start + i) != needle.get_char(i) {
                assert(hay@.subrange(start as int, start + n)[i as int] != needle@[i as int]);
                same = false;
            }
            i = i + 1;
        }
        if same {
            assert(hay@.subrange(start as int, start + n) =~= needle@);
            assert(occurs_at(hay@, needle@, start as int));
            return true;
        }
        start = start + 1;
    }
    assert forall|at: int| !occurs_at(hay@, needle@, at) by {
        if at >= start {
            assert(at + n > m);
        }
    }
    false
}

/// `at` is the first position where `needle` occurs in `hay`.
pub open spec fn is_first_occurrence(hay: Seq<char>, needle: Seq<char>, at: int) -> bool {
    &&& occurs_at(hay, needle, at)
    &&& forall|j: int| 0 <= j < at ==> !occurs_at(hay, needle, j)
}

/// The first position where `needle` occurs in `hay`, if it does.
pub open spec fn first_occurrence(hay: Seq<char>, needle: Seq<char>) -> Option<int> {
    if exists|at: int| is_first_occurrence(hay, needle, at) {
        Some(choose|at: int| is_first_occurrence(hay, needle, at))
    } else {
        None
    }
}

/// The first character position where `needle` occurs in `hay`, as
/// `str::find` finds it (for a needle of ASCII characters the character and
/// byte positions of that occurrence name the same match).
pub fn find_str(hay: &str, needle: &str) -> (r: Option<usize>)
    ensures
        match r {
            Some(i) => first_occurrence(hay@, needle@) == Some(i as int),
            None => first_occurrence(hay@, needle@) is None,
        },
{
    let n = needle.unicode_len();
    let m = hay.unicode_len();
    if n == 0 {
        assert(hay@.subrange(0, 0) =~= needle@);
        assert(is_first_occurrence(hay@, needle@, 0));
        proof {
            let k = choose|at: int| is_first_occurrence(hay@, needle@, at);
            if k > 0 {
                assert(!occurs_at(hay@, needle@, 0));
            }
        }
        return Some(0);
    }
    if n > m {
        proof {
            if exists|at: int| is_first_occurrence(hay@, needle@, at) {
                let at = choose|at: int| is_first_occurrence(hay@, needle@, at);
                assert(occurs_at(hay@, needle@, at));
            }
        }
        return None;
    }
    let mut start: usize = 0;
    while start <= m - n
        invariant
            n == needle@.len(),
            m == hay@.len(),
            1 <= n <= m,
            0 <= start <= m - n + 1,
            forall|at: int| 0 <= at < start ==> !occurs_at(hay@, needle@, at),
        decreases m - start,
    {
        let mut i: usize = 0;
        let mut same = true;
        while i < n
            invariant
                n == needle@.len(),
                m == hay@.len(),
                start + n <= m,
                0 <= i <= n,
                same ==> forall|j: int| 0 <= j < i ==> hay@[start + j] == needle@[j],
                !same ==> !occurs_at(hay@, needle@, start as int),
            decreases n - i,
        {
            if same && hay.get_char(start + i) != needle.get_char(i) {
                assert(hay@.subrange(start as int, start + n)[i as int] != needle@[i as int]);
                same = false;
            }
            i = i + 1;
        }
        if same {
            assert(hay@.subrange(start as int, start + n) =~= needle@);
            assert(is_first_occurrence(hay@, needle@, start as int));
            proof {
                let k = choose|at: int| is_first_occurrence(hay@, needle@, at);
                if k != start {
                    assert(is_first_occurrence(hay@, needle@, k));
                    if k > start {
                        assert(!occurs_at(hay@, needle@, start as int));
                    }
                }
            }
            return Some(start);
        }
        start = start + 1;
    }
    proof {
        if exists|at: int| is_first_occurrence(hay@, needle@, at) {
            let at = choose|at: int| is_first_occurrence(hay@, needle@, at);
            assert(occurs_at(hay@, needle@, at));
            if at >= start {
                assert(at + n > m);
            }
        }
    }
    None
}

// ---------------------------------------------------------------------------
// Decimal and hexadecimal rendering
// ---------------------------------------------------------------------------

/// The character of a decimal digit.
pub open spec fn digit_char(d: nat) -> char {
    if d == 0 {
        '0'
    } else if d == 1 {
        '1'
    } else if d == 2 {
        '2'
    } else if d == 3 {
        '3'
    } else if d == 4 {
        '4'
    } else if d == 5 {
        '5'
    } else if d == 6 {
        '6'
    } else if d == 7 {
        '7'
    } else if d == 8 {
        '8'
    } else {
        '9'
    }
}

/// The character of a hexadecimal digit, lower case.
pub open spec fn hex_char(d: nat) -> char {
    if d < 10 {
        digit_char(d)
    } else if d == 10 {
        'a'
    } else if d == 11 {
        'b'
    } else if d == 12 {
        'c'
    } else if d == 13 {
        'd'
    } else if d == 14 {
        'e'
    } else {
        'f'
    }
}

/// The decimal representation of a natural number, without leading zeros.
pub open spec fn dec_str(n: nat) -> Seq<char>
    decreases n,
{
    if n < 10 {
        seq![digit_char(n)]
    } else {
        dec_str(n / 10).push(digit_char(n % 10))
    }
}

/// The decimal representation of an integer, with a leading `-` when negative.
pub open spec fn int_str(i: int) -> Seq<char> {
    if i < 0 {
        seq!['-'] + dec_str((-i) as nat)
    } else {
        dec_str(i as nat)
    }
}

/// `s` preceded by as many `'0'` as make it `width` characters long.
pub open spec fn zero_pad(s: Seq<char>, width: nat) -> Seq<char> {
    if s.len() >= width {
        s
    } else {
        Seq::new((width - s.len()) as nat, |_i: int| '0') + s
    }
}

/// An integer rendered at least `width` characters wide, padded with zeros
/// after the sign (the width counts the sign).
pub open spec fn int_str_zero_padded(i: int, width: nat) -> Seq<char> {
    if i < 0 {
        seq!['-'] + zero_pad(dec_str((-i) as nat), if width > 0 { (width - 1) as nat } else { 0 })
    } else {
        zero_pad(dec_str(i as nat), width)
    }
}

/// A 16-bit value as exactly four lower-case hexadecimal digits.
pub open spec fn hex4(v: u16) -> Seq<char> {
    seq![
        hex_char((v / 4096) as nat),
        hex_char(((v / 256) % 16) as nat),
        hex_char(((v / 16) % 16) as nat),
        hex_char((v % 16) as nat),
    ]
}

/// The one-character string of a decimal digit.
fn digit_str(d: u64) -> (r: &'static str)
    requires
        d < 10,
    ensures
        r@ == seq![digit_char(d as nat)],
{
    if d == 0 {
        proof { reveal_strlit("0"); }
        "0"
    } else if d == 1 {
        proof { reveal_strlit("1"); }
        "1"
    } else if d == 2 {
        proof { reveal_strlit("2"); }
        "2"
    } else if d == 3 {
        proof { reveal_strlit("3"); }
        "3"
    } else if d == 4 {
        proof { reveal_strlit("4"); }
        "4"
    } else if d == 5 {
        proof { reveal_strlit("5"); }
        "5"
    } else if d == 6 {
        proof { reveal_strlit("6"); }
        "6"
    } else if d == 7 {
        proof { reveal_strlit("7"); }
        "7"
    } else if d == 8 {
        proof { reveal_strlit("8"); }
        "8"
    } else {
        proof { reveal_strlit("9"); }
        "9"
    }
}

/// The one-character string of a hexadecimal digit.
fn hex_digit_str(d: u16) -> (r: &'static str)
    requires
        d < 16,
    ensures
        r@ == seq![hex_char(d as nat)],
{
    if d < 10 {
        digit_str(d as u64)
    } else if d == 10 {
        proof { reveal_strlit("a"); }
        "a"
    } else if d == 11 {
        proof { reveal_strlit("b"); }
        "b"
    } else if d == 12 {
        proof { reveal_strlit("c"); }
        "c"
    } else if d == 13 {
        proof { reveal_strlit("d"); }
        "d"
    } else if d == 14 {
        proof { reveal_strlit("e"); }
        "e"
    } else {
        proof { reveal_strlit("f"); }
        "f"
    }
}

/// Appends the decimal representation of `n` to `s`.
pub fn push_dec(s: &mut String, n: u64)
    ensures
        final(s)@ == old(s)@ + dec_str(n as nat),
    decreases n,
{
    if n < 10 {
        s.append(digit_str(n));
    } else {
        push_dec(s, n / 10);
        s.append(digit_str(n % 10));
        assert(dec_str(n as nat) == dec_str((n / 10) as nat).push(digit_char((n % 10) as nat)));
        assert(old(s)@ + dec_str(n as nat) =~= old(s)@ + dec_str((n / 10) as nat) + seq![
            digit_char((n % 10) as nat),
        ]);
    }
}

/// The decimal representation of an unsigned integer.
pub fn u64_to_string(n: u64) -> (r: String)
    ensures
        r@ == dec_str(n as nat),
{
    let mut s = String::new();
    push_dec(&mut s, n);
    assert(s@ =~= dec_str(n as nat));
    s
}

/// The magnitude of a signed integer.
fn magnitude(i: i64) -> (r: u64)
    ensures
        r as int == if i < 0 { -i } else { i as int },
{
    if i < 0 {
        if i == i64::MIN {
            9223372036854775808u64
        } else {
            (-i) as u64
        }
    } else {
        i as u64
    }
}

/// Appends the decimal representation of a signed integer to `s`.
pub fn push_int(s: &mut String, i: i64)
    ensures
        final(s)@ == old(s)@ + int_str(i as int),
{
    let m = magnitude(i);
    if i < 0 {
        proof { reveal_strlit("-"); }
        s.append("-");
        push_dec(s, m);
        assert(old(s)@ + int_str(i as int) =~= old(s)@ + seq!['-'] + dec_str(m as nat));
    } else {
        push_dec(s, m);
    }
}

/// The decimal representation of a signed integer.
pub fn i64_to_string(i: i64) -> (r: String)
    ensures
        r@ == int_str(i as int),
{
    let mut s = String::new();
    push_int(&mut s, i);
    assert(s@ =~= int_str(i as int));
    s
}

/// Appends `count` zero characters to `s`.
fn push_zeros(s: &mut String, count: u64)
    ensures
        final(s)@ == old(s)@ + Seq::new(count as nat, |_i: int| '0'),
    decreases count,
{
    if count > 0 {
        proof { reveal_strlit("0"); }
        s.append("0");
        push_zeros(s, count - 1);
        assert(old(s)@ + Seq::new(count as nat, |_i: int| '0') =~= old(s)@ + seq!['0']
            + Seq::new((count - 1) as nat, |_i: int| '0'));
    } else {
        assert(old(s)@ + Seq::new(count as nat, |_i: int| '0') =~= old(s)@);
    }
}

/// The number of decimal digits of `n`.
fn dec_len(n: u64) -> (r: u64)
    ensures
        r == dec_str(n as nat).len(),
        r <= 20,
    decreases n,
{
    proof {
        reveal_with_fuel(pow10, 21);
        assert(pow10(20) == 100000000000000000000);
        lemma_dec_len_pow(n as nat, 20);
    }
    if n < 10 {
        1
    } else {
        let r = dec_len(n / 10);
        r + 1
    }
}

/// A number below `10^k` has at most `k` decimal digits.
proof fn lemma_dec_len_pow(n: nat, k: nat)
    requires
        n < pow10(k),
        k >= 1,
    ensures
        dec_str(n).len() <= k,
    decreases k,
{
    if n >= 10 {
        if k == 1 {
            assert(pow10(1) == 10 * pow10(0));
            assert(false);
        }
        assert(pow10(k) == 10 * pow10((k - 1) as nat));
        lemma_dec_len_pow(n / 10, (k - 1) as nat);
    }
}

/// Ten to the power `k`.
pub open spec fn pow10(k: nat) -> nat
    decreases k,
{
    if k == 0 {
        1
    } else {
        10 * pow10((k - 1) as nat)
    }
}

/// Appends a signed integer rendered at least `width` characters wide,
/// zero padded after its sign.
pub fn push_int_zero_padded(s: &mut String, i: i64, width: u64)
    ensures
        final(s)@ == old(s)@ + int_str_zero_padded(i as int, width as nat),
{
    let m = magnitude(i);
    let len = dec_len(m);
    if i < 0 {
        proof { reveal_strlit("-"); }
        s.append("-");
        let w = if width > 0 { width - 1 } else { 0 };
        if len < w {
            push_zeros(s, w - len);
        }
        push_dec(s, m);
        assert(final(s)@ =~= old(s)@ + int_str_zero_padded(i as int, width as nat));
    } else {
        if len < width {
            push_zeros(s, width - len);
        }
        push_dec(s, m);
        assert(final(s)@ =~= old(s)@ + int_str_zero_padded(i as int, width as nat));
    }
}

/// Appends a 16-bit value as four lower-case hexadecimal digits.
pub fn push_hex4(s: &mut String, v: u16)
    ensures
        final(s)@ == old(s)@ + hex4(v),
{
    s.append(hex_digit_str(v / 4096));
    s.append(hex_digit_str((v / 256) % 16));
    s.append(hex_digit_str((v / 16) % 16));
    s.append(hex_digit_str(v % 16));
    assert(final(s)@ =~= old(s)@ + hex4(v));
}

/// The character of a hexadecimal digit, upper case.
pub open spec fn hex_char_upper(d: nat) -> char {
    if d < 10 {
        digit_char(d)
    } else if d == 10 {
        'A'
    } else if d == 11 {
        'B'
    } else if d == 12 {
        'C'
    } else if d == 13 {
        'D'
    } else if d == 14 {
        'E'
    } else {
        'F'
    }
}

/// Four upper-case hexadecimal digits of a 16-bit value.
pub open spec fn hex4_upper(v: u16) -> Seq<char> {
    seq![
        hex_char_upper((v / 4096) as nat),
        hex_char_upper(((v / 256) % 16) as nat),
        hex_char_upper(((v / 16) % 16) as nat),
        hex_char_upper((v % 16) as nat),
    ]
}

fn hex_digit_str_upper(d: u16) -> (r: &'static str)
    requires
        d < 16,
    ensures
        r@ == seq![hex_char_upper(d as nat)],
{
    if d < 10 {
        digit_str(d as u64)
    } else if d == 10 {
        proof { reveal_strlit("A"); }
        "A"
    } else if d == 11 {
        proof { reveal_strlit("B"); }
        "B"
    } else if d == 12 {
        proof { reveal_strlit("C"); }
        "C"
    } else if d == 13 {
        proof { reveal_strlit("D"); }
        "D"
    } else if d == 14 {
        proof { reveal_strlit("E"); }
        "E"
    } else {
        proof { reveal_strlit("F"); }
        "F"
    }
}

/// Appends a 16-bit value as four upper-case hexadecimal digits.
pub fn push_hex4_upper(s: &mut String, v: u16)
    ensures
        final(s)@ == old(s)@ + hex4_upper(v),
{
    s.append(hex_digit_str_upper(v / 4096));
    s.append(hex_digit_str_upper((v / 256) % 16));
    s.append(hex_digit_str_upper((v / 16) % 16));
    s.append(hex_digit_str_upper(v % 16));
    assert(final(s)@ =~= old(s)@ + hex4_upper(v));
}

// ---------------------------------------------------------------------------
// Decimal parsing
// ---------------------------------------------------------------------------

/// Whether a character is an ASCII decimal digit.
pub open spec fn is_digit(c: char) -> bool {
    '0' <= c && c <= '9'
}

/// The value of an ASCII decimal digit.
pub open spec fn digit_value(c: char) -> nat {
    (c as int - '0' as int) as nat
}

/// The value of a sequence of decimal digits, most significant first.
pub open spec fn digits_value(s: Seq<char>) -> nat
    decreases s.len(),
{
    if s.len() == 0 {
        0
    } else {
        digits_value(s.drop_last()) * 10 + digit_value(s.last())
    }
}

/// The digits that follow an optional leading `+`.
pub open spec fn unsigned_body(s: Seq<char>) -> Seq<char> {
    if s.len() > 0 && s[0] == '+' {
        s.drop_first()
    } else {
        s
    }
}

/// What std's `str::parse` gives for an unsigned integer type whose largest
/// value is `max`: an optional `+`, then one or more ASCII digits whose value
/// is at most `max`; anything else is an error.
pub open spec fn parse_unsigned(s: Seq<char>, max: nat) -> Option<nat> {
    let body = unsigned_body(s);
    if body.len() > 0 && (forall|i: int| 0 <= i < body.len() ==> is_digit(#[trigger] body[i]))
        && digits_value(body) <= max {
        Some(digits_value(body))
    } else {
        None
    }
}

proof fn lemma_digits_value_take(s: Seq<char>, i: int)
    requires
        0 <= i < s.len(),
    ensures
        digits_value(s.take(i + 1)) == digits_value(s.take(i)) * 10 + digit_value(s[i]),
{
    assert(s.take(i + 1).drop_last() =~= s.take(i));
}

proof fn lemma_digits_value_monotone(s: Seq<char>, i: int)
    requires
        0 <= i <= s.len(),
    ensures
        digits_value(s) >= digits_value(s.take(i)),
    decreases s.len() - i,
{
    if i < s.len() {
        lemma_digits_value_take(s, i);
        lemma_digits_value_monotone(s, i + 1);
    } else {
        assert(s.take(i) =~= s);
    }
}

/// The decimal text of a number is one or more digits whose value is the
/// number.
pub proof fn lemma_dec_str_digits(n: nat)
    ensures
        dec_str(n).len() > 0,
        forall|i: int| 0 <= i < dec_str(n).len() ==> is_digit(#[trigger] dec_str(n)[i]),
        digits_value(dec_str(n)) == n,
    decreases n,
{
    if n >= 10 {
        lemma_dec_str_digits(n / 10);
        let s = dec_str(n / 10);
        let t = dec_str(n);
        assert(t == s.push(digit_char(n % 10)));
        assert(t.drop_last() =~= s);
        assert forall|i: int| 0 <= i < t.len() implies is_digit(#[trigger] t[i]) by {
            if i < s.len() {
                assert(t[i] == s[i]);
            }
        }
        lemma_digit_char_value((n % 10) as nat);
        assert(t.last() == digit_char(n % 10));
        assert(digits_value(t) == digits_value(s) * 10 + digit_value(digit_char(n % 10)));
        assert(digits_value(s) == n / 10);
        assert((n / 10) * 10 + n % 10 == n) by (nonlinear_arith);
    } else {
        let t = dec_str(n);
        assert(t =~= seq![digit_char(n)]);
        assert(t.drop_last() =~= Seq::<char>::empty());
        lemma_digit_char_value(n);
        assert(digits_value(t) == digits_value(t.drop_last()) * 10 + digit_value(t.last()));
        assert(t.last() == digit_char(n));
    }
}

/// A digit's character reads back as the digit.
proof fn lemma_digit_char_value(d: nat)
    requires
        d < 10,
    ensures
        is_digit(digit_char(d)),
        digit_value(digit_char(d)) == d,
{
}

/// The decimal text of a number no larger than `max` reads back as the
/// number.
pub proof fn lemma_parse_dec_str(n: nat, max: nat)
    requires
        n <= max,
    ensures
        parse_unsigned(dec_str(n), max) == Some(n),
{
    lemma_dec_str_digits(n);
    assert(is_digit(dec_str(n)[0]));
    assert(unsigned_body(dec_str(n)) == dec_str(n));
}

/// Parses an unsigned decimal number no larger than `max`, as std's
/// `str::parse` does for an unsigned type with that largest value.
pub fn parse_unsigned_str(s: &str, max: u32) -> (r: Option<u32>)
    ensures
        match parse_unsigned(s@, max as nat) {
            Some(v) => r == Some(v as u32),
            None => r is None,
        },
{
    let n = s.unicode_len();
    let mut i: usize = 0;
    if n > 0 && s.get_char(0) == '+' {
        i = 1;
    }
    let ghost body = unsigned_body(s@);
    let ghost skip: int = i as int;
    assert(body =~= s@.subrange(skip, n as int));
    if i >= n {
        return None;
    }
    let mut acc: u64 = 0;
    while i < n
        invariant
            n == s@.len(),
            0 <= skip <= i <= n,
            body == s@.subrange(skip, n as int),
            body == unsigned_body(s@),
            forall|j: int| 0 <= j < i - skip ==> is_digit(#[trigger] body[j]),
            acc == digits_value(body.take(i - skip)),
            acc <= max,
        decreases n - i,
    {
        let c = s.get_char(i);
        if c < '0' || c > '9' {
            assert(!is_digit(body[i - skip]));
            assert(!(forall|j: int| 0 <= j < body.len() ==> is_digit(#[trigger] body[j])));
            assert(body == unsigned_body(s@));
            assert(parse_unsigned(s@, max as nat) is None);
            return None;
        }
        proof {
            lemma_digits_value_take(body, i - skip);
        }
        let d = (c as u32 - '0' as u32) as u64;
        assert(d == digit_value(body[i - skip]));
        acc = acc * 10 + d;
        if acc > max as u64 {
            proof {
                assert(acc == digits_value(body.take(i - skip + 1)));
                lemma_digits_value_monotone(body, i - skip + 1);
                assert(digits_value(body) > max);
                assert(parse_unsigned(s@, max as nat) is None);
            }
            return None;
        }
        i = i + 1;
    }
    assert(body.take(i - skip) =~= body);
    Some(acc as u32)
}

} // verus!
