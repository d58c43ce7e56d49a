//! Text helpers: character vectors, decimal and hexadecimal numbers, trimming and splitting.
use vstd::prelude::*;

verus! {

/// `String::push` appends the given character to the end of the string.
pub assume_specification[ String::push ](s: &mut String, c: char)
    ensures
        final(s)@ == old(s)@.push(c),
;

/// The characters of `s`, in order.
pub fn chars_of(s: &str) -> (chars: Vec<char>)
    ensures
        chars@ == s@,
{
    let mut chars: Vec<char> = Vec::new();
    for c in iter: s.chars()
        invariant
            iter.seq() == s@,
            chars@ == s@.take(iter.index() as int),
    {
        chars.push(c);
    }
    chars
}

/// The characters of `chars` from `from` up to, but without, `to`, as a string.
pub fn text_from(chars: &Vec<char>, from: usize, to: usize) -> (text: String)
    requires
        from <= to <= chars@.len(),
    ensures
        text@ == chars@.subrange(from as int, to as int),
{
    let mut text = String::new();
    let mut i: usize = from;
    while i < to
        invariant
            from <= i <= to <= chars@.len(),
            text@ == chars@.subrange(from as int, i as int),
        decreases to - i,
    {
        text.push(chars[i]);
        i = i + 1;
    }
    text
}

/// Whether two strings hold the same characters.
pub fn same_text(a: &str, b: &str) -> (same: bool)
    ensures
        same == (a@ == b@),
{
    a.to_owned() == b.to_owned()
}

/// The character of a hexadecimal digit, with upper-case letters.
pub open spec fn upper_digit(d: nat) -> char {
    if d < 10 {
        (48 + d) as u8 as char
    } else {
        (55 + d) as u8 as char
    }
}

/// The decimal notation of `n`, without leading zeros.
pub open spec fn decimal_text(n: nat) -> Seq<char>
    decreases n,
{
    if n < 10 {
        seq![upper_digit(n)]
    } else {
        decimal_text(n / 10).push(upper_digit(n % 10))
    }
}

fn digit_char(d: u8) -> (c: char)
    requires
        d < 16,
    ensures
        c == upper_digit(d as nat),
{
    if d < 10 {
        (48 + d) as u8 as char
    } else {
        (55 + d) as u8 as char
    }
}

/// `n` in decimal notation.
pub fn decimal(n: u64) -> (text: String)
    ensures
        text@ == decimal_text(n as nat),
    decreases n,
{
    if n < 10 {
        let mut text = String::new();
        text.push(digit_char(n as u8));
        text
    } else {
        let mut text = decimal(n / 10);
        text.push(digit_char((n % 10) as u8));
        text
    }
}

/// `n` in decimal notation with a leading minus sign where it is negative.
pub open spec fn signed_text(n: int) -> Seq<char> {
    if n < 0 {
        seq!['-'] + decimal_text((-n) as nat)
    } else {
        decimal_text(n as nat)
    }
}

/// `n` in decimal notation, with a minus sign where it is negative.
pub fn signed_decimal(n: i32) -> (text: String)
    ensures
        text@ == signed_text(n as int),
{
    let wide: i64 = n as i64;
    if wide < 0 {
        let mut text = String::new();
        text.push('-');
        let digits = decimal((-wide) as u64);
        text.append(digits.as_str());
        text
    } else {
        decimal(wide as u64)
    }
}

/// At least two decimal digits: `n` with a leading zero where it is below ten.
pub open spec fn two_digit_text(n: nat) -> Seq<char> {
    if n < 10 {
        seq!['0'] + decimal_text(n)
    } else {
        decimal_text(n)
    }
}

/// `n` in decimal notation, padded to two digits.
pub fn two_digits(n: u64) -> (text: String)
    ensures
        text@ == two_digit_text(n as nat),
{
    if n < 10 {
        let mut text = String::new();
        text.push('0');
        let digits = decimal(n);
        text.append(digits.as_str());
        text
    } else {
        decimal(n)
    }
}

/// The two upper-case hexadecimal digits of a byte.
pub open spec fn hex_byte_text(b: u8) -> Seq<char> {
    seq![upper_digit((b / 16) as nat), upper_digit((b % 16) as nat)]
}

/// A byte as two upper-case hexadecimal digits.
pub fn hex_byte(b: u8) -> (text: String)
    ensures
        text@ == hex_byte_text(b),
{
    let mut text = String::new();
    text.push(digit_char(b / 16));
    text.push(digit_char(b % 16));
    text
}

/// The character of a hexadecimal digit, with lower-case letters.
pub open spec fn lower_digit(d: nat) -> char {
    if d < 10 {
        (48 + d) as u8 as char
    } else {
        (87 + d) as u8 as char
    }
}

/// The two lower-case hexadecimal digits of a byte.
pub open spec fn lower_hex_byte_text(b: u8) -> Seq<char> {
    seq![lower_digit((b / 16) as nat), lower_digit((b % 16) as nat)]
}

fn lower_digit_char(d: u8) -> (c: char)
    requires
        d < 16,
    ensures
        c == lower_digit(d as nat),
{
    if d < 10 {
        (48 + d) as u8 as char
    } else {
        (87 + d) as u8 as char
    }
}

/// A byte as two lower-case hexadecimal digits.
pub fn lower_hex_byte(b: u8) -> (text: String)
    ensures
        text@ == lower_hex_byte_text(b),
{
    let mut text = String::new();
    text.push(lower_digit_char(b / 16));
    text.push(lower_digit_char(b % 16));
    text
}

/// Whether `c` is one of the digits `0` to `9`.
pub open spec fn is_digit(c: char) -> bool {
    '0' <= c <= '9'
}

/// The number that a sequence of decimal digits denotes.
pub open spec fn digits_value(digits: Seq<char>) -> nat
    decreases digits.len(),
{
    if digits.len() == 0 {
        0
    } else {
        digits_value(digits.drop_last()) * 10 + (digits.last() as nat - '0' as nat) as nat
    }
}

/// The digits of a number text: what follows its optional sign.
pub open spec fn number_digits(text: Seq<char>) -> Seq<char> {
    if text.len() > 0 && (text[0] == '+' || text[0] == '-') {
        text.drop_first()
    } else {
        text
    }
}

/// The integer that `text` denotes: an optional sign, and one or more decimal digits.
pub open spec fn integer_value(text: Seq<char>) -> int {
    if text.len() > 0 && text[0] == '-' {
        -(digits_value(number_digits(text)) as int)
    } else {
        digits_value(number_digits(text)) as int
    }
}

/// Whether `text` is an optional sign followed by one or more decimal digits.
pub open spec fn is_integer_text(text: Seq<char>) -> bool {
    &&& number_digits(text).len() > 0
    &&& forall|i: int| 0 <= i < number_digits(text).len() ==> is_digit(#[trigger] number_digits(text)[i])
}

/// The `i32` that `text` denotes, if it is an integer text in that range.
pub open spec fn i32_from_text(text: Seq<char>) -> Option<i32> {
    if is_integer_text(text) && i32::MIN <= integer_value(text) <= i32::MAX {
        Some(integer_value(text) as i32)
    } else {
        None
    }
}

proof fn lemma_digits_value_grows(digits: Seq<char>, k: int)
    requires
        0 <= k <= digits.len(),
        forall|i: int| 0 <= i < digits.len() ==> is_digit(#[trigger] digits[i]),
    ensures
        digits_value(digits.take(k)) <= digits_value(digits),
    decreases digits.len(),
{
    if k == digits.len() {
        assert(digits.take(k) == digits);
    } else {
        lemma_digits_value_grows(digits.drop_last(), k);
        assert(digits.drop_last().take(k) == digits.take(k));
    }
}

/// Parses an optional sign and decimal digits into an `i32`.
pub fn parse_i32(s: &str) -> (value: Option<i32>)
    ensures
        value == i32_from_text(s@),
{
    let chars = chars_of(s);
    let n: usize = chars.len();
    let negative = n > 0 && chars[0] == '-';
    let start: usize = if n > 0 && (chars[0] == '+' || chars[0] == '-') {
        1
    } else {
        0
    };
    if start == n {
        return None;
    }
    let ghost digits = number_digits(s@);
    assert(digits == s@.subrange(start as int, n as int));
    let mut i: usize = start;
    let mut total: i64 = 0;
    while i < n
        invariant
            start <= i <= n,
            start < n,
            n == chars@.len(),
            chars@ == s@,
            digits == s@.subrange(start as int, n as int),
            digits == number_digits(s@),
            negative == (s@.len() > 0 && s@[0] == '-'),
            forall|j: int| 0 <= j < i - start ==> is_digit(#[trigger] digits[j]),
            total == digits_value(digits.take(i - start)),
            0 <= total <= 2147483648,
        decreases n - i,
    {
        let c = chars[i];
        assert(c == digits[i - start]);
        if !('0' <= c && c <= '9') {
            return None;
        }
        total = total * 10 + (c as i64 - '0' as i64);
        assert(digits.take(i - start + 1).drop_last() == digits.take(i - start));
        if total > 2147483648 {
            proof {
                let k = i - start + 1;
                assert(digits_value(digits.take(k)) > 2147483648);
                if is_integer_text(s@) {
                    lemma_digits_value_grows(digits, k);
                }
            }
            return None;
        }
        i = i + 1;
    }
    assert(digits.take(n - start) == digits);
    assert(is_integer_text(s@));
    if negative {
        Some((-total) as i32)
    } else if total <= 2147483647 {
        Some(total as i32)
    } else {
        None
    }
}

/// The Unicode `White_Space` property.
pub open spec fn is_white_space(c: char) -> bool {
    let u = c as u32;
    ||| 0x09 <= u <= 0x0D
    ||| u == 0x20
    ||| u == 0x85
    ||| u == 0xA0
    ||| u == 0x1680
    ||| 0x2000 <= u <= 0x200A
    ||| u == 0x2028
    ||| u == 0x2029
    ||| u == 0x202F
    ||| u == 0x205F
    ||| u == 0x3000
}

/// Whether `c` has the Unicode `White_Space` property.
pub fn white_space(c: char) -> (yes: bool)
    ensures
        yes == is_white_space(c),
{
    let u: u32 = c as u32;
    (0x09 <= u && u <= 0x0D) || u == 0x20 || u == 0x85 || u == 0xA0 || u == 0x1680 || (0x2000 <= u
        && u <= 0x200A) || u == 0x2028 || u == 0x2029 || u == 0x202F || u == 0x205F || u == 0x3000
}

/// `s` without its leading white space.
pub open spec fn trim_start(s: Seq<char>) -> Seq<char>
    decreases s.len(),
{
    if s.len() > 0 && is_white_space(s[0]) {
        trim_start(s.drop_first())
    } else {
        s
    }
}

/// `s` without its trailing white space.
pub open spec fn trim_end(s: Seq<char>) -> Seq<char>
    decreases s.len(),
{
    if s.len() > 0 && is_white_space(s.last()) {
        trim_end(s.drop_last())
    } else {
        s
    }
}

/// `s` without leading and trailing white space.
pub open spec fn trimmed(s: Seq<char>) -> Seq<char> {
    trim_end(trim_start(s))
}

/// The bounds of the part of `chars[from..to]` that is left once white space is trimmed off.
pub fn trim_bounds(chars: &Vec<char>, from: usize, to: usize) -> (bounds: (usize, usize))
    requires
        from <= to <= chars@.len(),
    ensures
        from <= bounds.0 <= bounds.1 <= to,
        chars@.subrange(bounds.0 as int, bounds.1 as int) == trimmed(
            chars@.subrange(from as int, to as int),
        ),
{
    let ghost whole = chars@.subrange(from as int, to as int);
    let mut a: usize = from;
    while a < to && white_space(chars[a])
        invariant
            from <= a <= to <= chars@.len(),
            whole == chars@.subrange(from as int, to as int),
            trim_start(chars@.subrange(a as int, to as int)) == trim_start(whole),
        decreases to - a,
    {
        assert(chars@.subrange(a as int, to as int).drop_first() == chars@.subrange(
            a + 1,
            to as int,
        ));
        a = a + 1;
    }
    let mut b: usize = to;
    while a < b && white_space(chars[b - 1])
        invariant
            from <= a <= b <= to <= chars@.len(),
            trim_end(chars@.subrange(a as int, b as int)) == trimmed(whole),
        decreases b - a,
    {
        assert(chars@.subrange(a as int, b as int).drop_last() == chars@.subrange(
            a as int,
            b - 1,
        ));
        b = b - 1;
    }
    (a, b)
}

/// `s` without leading and trailing white space.
pub fn trim_text(s: &str) -> (text: String)
    ensures
        text@ == trimmed(s@),
{
    let chars = chars_of(s);
    let (a, b) = trim_bounds(&chars, 0, chars.len());
    assert(chars@.subrange(0, chars@.len() as int) == s@);
    text_from(&chars, a, b)
}

/// `s` after `prefix`, where it starts with it.
pub open spec fn after_prefix(s: Seq<char>, prefix: Seq<char>) -> Option<Seq<char>> {
    if prefix.is_prefix_of(s) {
        Some(s.skip(prefix.len() as int))
    } else {
        None
    }
}

/// What follows `prefix` in `s`, or `None` where `s` does not start with it.
pub fn strip_prefix(s: &str, prefix: &str) -> (rest: Option<String>)
    ensures
        match rest {
            Some(text) => after_prefix(s@, prefix@) == Some(text@),
            None => after_prefix(s@, prefix@) is None,
        },
{
    let chars = chars_of(s);
    let head = chars_of(prefix);
    if head.len() > chars.len() {
        return None;
    }
    let mut i: usize = 0;
    while i < head.len()
        invariant
            i <= head@.len() <= chars@.len(),
            chars@ == s@,
            head@ == prefix@,
            forall|j: int| 0 <= j < i ==> head@[j] == chars@[j],
        decreases head@.len() - i,
    {
        if head[i] != chars[i] {
            assert(s@.subrange(0, prefix@.len() as int)[i as int] != prefix@[i as int]);
            return None;
        }
        i = i + 1;
    }
    assert(prefix@ == s@.subrange(0, prefix@.len() as int));
    let text = text_from(&chars, head.len(), chars.len());
    assert(s@.skip(prefix@.len() as int) == text@);
    Some(text)
}

/// `s` before `suffix`, where it ends with it; else `s` itself.
pub open spec fn without_suffix(s: Seq<char>, suffix: Seq<char>) -> Seq<char> {
    if suffix.is_suffix_of(s) {
        s.take(s.len() - suffix.len())
    } else {
        s
    }
}

/// `s` with `suffix` taken off its end, where it ends with it.
pub fn strip_suffix_or_same(s: &str, suffix: &str) -> (text: String)
    ensures
        text@ == without_suffix(s@, suffix@),
{
    let chars = chars_of(s);
    let tail = chars_of(suffix);
    let n: usize = chars.len();
    let m: usize = tail.len();
    if m > n {
        return s.to_owned();
    }
    let mut i: usize = 0;
    while i < m
        invariant
            i <= m <= n,
            m == tail@.len(),
            n == chars@.len(),
            chars@ == s@,
            tail@ == suffix@,
            forall|j: int| 0 <= j < i ==> tail@[j] == chars@[n - m + j],
        decreases m - i,
    {
        if tail[i] != chars[n - m + i] {
            assert(s@.subrange(n - m, n as int)[i as int] != suffix@[i as int]);
            return s.to_owned();
        }
        i = i + 1;
    }
    assert(suffix@ == s@.subrange(n - m, n as int));
    let text = text_from(&chars, 0, n - m);
    assert(text@ == s@.take(n - m));
    text
}

/// Where `c` first stands in `s`: the text before it and the text after it.
pub open spec fn split_at_first(s: Seq<char>, c: char) -> Option<(Seq<char>, Seq<char>)> {
    if s.contains(c) {
        let at = s.index_of_first(c)->0;
        Some((s.take(at), s.skip(at + 1)))
    } else {
        None
    }
}

/// Splits `s` at the first `c`, which belongs to neither part.
pub fn split_once(s: &str, c: char) -> (parts: Option<(String, String)>)
    ensures
        match parts {
            Some((before, after)) => split_at_first(s@, c) == Some((before@, after@)),
            None => split_at_first(s@, c) is None,
        },
{
    let chars = chars_of(s);
    let n: usize = chars.len();
    let mut i: usize = 0;
    while i < n
        invariant
            i <= n,
            n == chars@.len(),
            chars@ == s@,
            forall|j: int| 0 <= j < i ==> chars@[j] != c,
        decreases n - i,
    {
        if chars[i] == c {
            let before = text_from(&chars, 0, i);
            let after = text_from(&chars, i + 1, n);
            proof {
                s@.index_of_first_ensures(c);
                assert(s@[i as int] == c);
                assert(s@.index_of_first(c) == Some(i as int));
                assert(before@ == s@.take(i as int));
                assert(after@ == s@.skip(i + 1));
            }
            return Some((before, after));
        }
        i = i + 1;
    }
    None
}

/// Ten times a number and one more digit: how decimal digits make up a number. The digits are the
/// characters from `0` (code 48) to `9` (code 57).
pub proof fn law_digits(digits: Seq<char>, c: char)
    ensures
        is_digit(c) <==> 48 <= c as int <= 57,
        digits_value(Seq::<char>::empty()) == 0,
        is_digit(c) ==> digits_value(digits.push(c)) == 10 * digits_value(digits) + (c as int - 48),
{
    assert(digits.push(c).drop_last() =~= digits);
}

/// The decimal notation of a number is made of digits that denote the number, and has no leading
/// zero.
pub proof fn law_decimal_text(n: nat)
    ensures
        decimal_text(n).len() > 0,
        forall|i: int|
            0 <= i < decimal_text(n).len() ==> 48 <= (#[trigger] decimal_text(n)[i]) as int <= 57,
        digits_value(decimal_text(n)) == n,
        n > 0 ==> decimal_text(n)[0] != '0',
    decreases n,
{
    if n < 10 {
        law_digits(Seq::empty(), upper_digit(n));
        assert(decimal_text(n) =~= Seq::<char>::empty().push(upper_digit(n)));
    } else {
        law_decimal_text(n / 10);
        law_digits(decimal_text(n / 10), upper_digit(n % 10));
    }
}

/// Whether a text is decimal digits, at least one.
pub open spec fn only_digits(text: Seq<char>) -> bool {
    text.len() > 0 && forall|i: int|
        0 <= i < text.len() ==> 48 <= (#[trigger] text[i]) as int <= 57
}

/// A text denotes an integer exactly where it is decimal digits, at least one, with or without a
/// sign before them, and it is read where that integer is in the `i32` range.
pub proof fn law_integer_texts(digits: Seq<char>, value: i32)
    ensures
        i32_from_text(seq!['-'] + digits) == Some(value) <==> only_digits(digits) && value == -(
        digits_value(digits) as int),
        i32_from_text(seq!['+'] + digits) == Some(value) <==> only_digits(digits) && value
            == digits_value(digits),
        digits.len() == 0 || (digits[0] != '-' && digits[0] != '+') ==> (i32_from_text(digits)
            == Some(value) <==> only_digits(digits) && value == digits_value(digits)),
{
    let minus = seq!['-'] + digits;
    let plus = seq!['+'] + digits;
    assert(number_digits(minus) =~= digits);
    assert(number_digits(plus) =~= digits);
    lemma_only_digits(minus);
    lemma_only_digits(plus);
    lemma_only_digits(digits);
}

proof fn lemma_only_digits(text: Seq<char>)
    ensures
        is_integer_text(text) <==> only_digits(number_digits(text)),
{
    let digits = number_digits(text);
    if is_integer_text(text) {
        assert forall|i: int| 0 <= i < digits.len() implies 48 <= (#[trigger] digits[i]) as int
            <= 57 by {
            assert(is_digit(number_digits(text)[i]));
        }
    }
}

/// Every `i32` in decimal notation is read as itself, and a leading plus changes nothing.
pub proof fn law_integers_come_back(n: i32)
    ensures
        i32_from_text(signed_text(n as int)) == Some(n),
        n >= 0 ==> i32_from_text(seq!['+'] + signed_text(n as int)) == Some(n),
        n < 0 ==> signed_text(n as int) == seq!['-'] + decimal_text((-n) as nat),
        n >= 0 ==> signed_text(n as int) == decimal_text(n as nat),
{
    let size: nat = if n < 0 {
        (-n) as nat
    } else {
        n as nat
    };
    law_decimal_text(size);
    law_integer_texts(decimal_text(size), n);
    assert(48 <= decimal_text(size)[0] as int <= 57);
}

/// A number below 100 is padded to exactly two digits that denote it.
pub proof fn law_two_digits(n: nat)
    requires
        n < 100,
    ensures
        two_digit_text(n).len() == 2,
        two_digit_text(n)[0] as int == 48 + n / 10,
        two_digit_text(n)[1] as int == 48 + n % 10,
{
    if n >= 10 {
        assert(decimal_text(n / 10) == seq![upper_digit(n / 10)]);
    }
}

/// A byte in hexadecimal is its high half and its low half, each as one of sixteen digits.
pub proof fn law_hex_byte(b: u8)
    ensures
        hex_byte_text(b).len() == 2,
        hex_byte_text(b)[0] == "0123456789ABCDEF"@[b as int / 16],
        hex_byte_text(b)[1] == "0123456789ABCDEF"@[b as int % 16],
        lower_hex_byte_text(b).len() == 2,
        lower_hex_byte_text(b)[0] == "0123456789abcdef"@[b as int / 16],
        lower_hex_byte_text(b)[1] == "0123456789abcdef"@[b as int % 16],
{
    lemma_hex_digit((b / 16) as nat);
    lemma_hex_digit((b % 16) as nat);
}

proof fn lemma_hex_digit(d: nat)
    requires
        d < 16,
    ensures
        upper_digit(d) == "0123456789ABCDEF"@[d as int],
        lower_digit(d) == "0123456789abcdef"@[d as int],
{
    reveal_strlit("0123456789ABCDEF");
    reveal_strlit("0123456789abcdef");
    assert(d == 0 || d == 1 || d == 2 || d == 3 || d == 4 || d == 5 || d == 6 || d == 7 || d == 8
        || d == 9 || d == 10 || d == 11 || d == 12 || d == 13 || d == 14 || d == 15);
}

/// The characters that count as white space, by their codes.
pub proof fn law_white_space(c: char)
    ensures
        is_white_space(c) <==> set![
            9int,
            10,
            11,
            12,
            13,
            32,
            133,
            160,
            5760,
            8192,
            8193,
            8194,
            8195,
            8196,
            8197,
            8198,
            8199,
            8200,
            8201,
            8202,
            8232,
            8233,
            8239,
            8287,
            12288,
        ].contains(c as int),
{
}

proof fn lemma_trim_start(s: Seq<char>) -> (a: int)
    ensures
        0 <= a <= s.len(),
        trim_start(s) == s.skip(a),
        forall|i: int| 0 <= i < a ==> is_white_space(#[trigger] s[i]),
        a < s.len() ==> !is_white_space(s[a]),
    decreases s.len(),
{
    if s.len() > 0 && is_white_space(s[0]) {
        let rest = s.drop_first();
        let b = lemma_trim_start(rest);
        assert(rest.skip(b) =~= s.skip(b + 1));
        assert forall|i: int| 0 <= i < b + 1 implies is_white_space(#[trigger] s[i]) by {
            if i > 0 {
                assert(rest[i - 1] == s[i]);
            }
        }
        b + 1
    } else {
        assert(s.skip(0) =~= s);
        0
    }
}

proof fn lemma_trim_end(s: Seq<char>) -> (b: int)
    ensures
        0 <= b <= s.len(),
        trim_end(s) == s.take(b),
        forall|i: int| b <= i < s.len() ==> is_white_space(#[trigger] s[i]),
        b > 0 ==> !is_white_space(s[b - 1]),
    decreases s.len(),
{
    if s.len() > 0 && is_white_space(s.last()) {
        let rest = s.drop_last();
        let b = lemma_trim_end(rest);
        assert(rest.take(b) =~= s.take(b));
        assert forall|i: int| b <= i < s.len() implies is_white_space(#[trigger] s[i]) by {
            if i < rest.len() {
                assert(rest[i] == s[i]);
            }
        }
        b
    } else {
        assert(s.take(s.len() as int) =~= s);
        s.len() as int
    }
}

/// A trimmed text is what stands between white space at both ends: all that is cut off is white
/// space, and neither end of what stays is.
pub proof fn law_trimmed(s: Seq<char>)
    ensures
        exists|from: int, to: int|
            {
                &&& 0 <= from <= to <= s.len()
                &&& trimmed(s) == #[trigger] s.subrange(from, to)
                &&& forall|i: int| 0 <= i < from ==> is_white_space(#[trigger] s[i])
                &&& forall|i: int| to <= i < s.len() ==> is_white_space(#[trigger] s[i])
            },
        trimmed(s).len() > 0 ==> !is_white_space(trimmed(s)[0]) && !is_white_space(
            trimmed(s).last(),
        ),
{
    let from = lemma_trim_start(s);
    let rest = s.skip(from);
    let kept = lemma_trim_end(rest);
    let to = from + kept;
    assert(rest.take(kept) =~= s.subrange(from, to));
    assert forall|i: int| to <= i < s.len() implies is_white_space(#[trigger] s[i]) by {
        assert(rest[i - from] == s[i]);
    }
    assert(trimmed(s) == s.subrange(from, to));
}

/// A text splits into a prefix and what follows it, exactly where it is the two put together.
pub proof fn law_after_prefix(s: Seq<char>, prefix: Seq<char>, rest: Seq<char>)
    ensures
        after_prefix(s, prefix) == Some(rest) <==> s == prefix + rest,
{
    if s == prefix + rest {
        assert(prefix =~= s.subrange(0, prefix.len() as int));
        assert(s.skip(prefix.len() as int) =~= rest);
    }
    if prefix.is_prefix_of(s) {
        assert(s =~= prefix + s.skip(prefix.len() as int));
    }
}

/// A suffix is taken off a text that ends with it, and any other text stays as it is.
pub proof fn law_without_suffix(s: Seq<char>, suffix: Seq<char>, rest: Seq<char>)
    ensures
        without_suffix(rest + suffix, suffix) == rest,
        without_suffix(s, suffix) == s || s == without_suffix(s, suffix) + suffix,
{
    let whole = rest + suffix;
    assert(suffix =~= whole.subrange(whole.len() - suffix.len(), whole.len() as int));
    assert(whole.take(rest.len() as int) =~= rest);
    if suffix.is_suffix_of(s) {
        assert(s =~= s.take(s.len() - suffix.len()) + suffix);
    }
}

/// A text is split at the first separator: what stands before it does not hold the separator, and
/// the two parts with the separator between them are the text. It is not split where it holds none.
pub proof fn law_split_at_first(s: Seq<char>, c: char, before: Seq<char>, after: Seq<char>)
    ensures
        split_at_first(s, c) == Some((before, after)) <==> s == before + seq![c] + after
            && !before.contains(c),
        split_at_first(s, c) is None <==> !s.contains(c),
{
    s.index_of_first_ensures(c);
    if s.contains(c) {
        let at = s.index_of_first(c)->0;
        assert(s =~= s.take(at) + seq![c] + s.skip(at + 1));
        assert(!s.take(at).contains(c)) by {
            if s.take(at).contains(c) {
                let i = choose|i: int| 0 <= i < at && s.take(at)[i] == c;
                assert(s[i] == c);
            }
        }
    }
    if s == before + seq![c] + after && !before.contains(c) {
        assert(s[before.len() as int] == c);
        assert(s.contains(c));
        let at = s.index_of_first(c)->0;
        if at < before.len() {
            assert(before[at] == s[at]);
            assert(before.contains(c));
        }
        assert(at == before.len());
        assert(s.take(at) =~= before);
        assert(s.skip(at + 1) =~= after);
    }
}

} // verus!
