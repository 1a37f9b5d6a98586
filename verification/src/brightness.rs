use vstd::prelude::*;

verus! {

/// The character code of `c` with ASCII upper-case letters mapped to lower case.
pub open spec fn ascii_lower_code(c: char) -> u32 {
    let x = c as u32;
    if 65 <= x && x <= 90 {
        (x + 32) as u32
    } else {
        x
    }
}

/// `a` and `b` match when ASCII letters are compared without regard to case.
pub open spec fn eq_ignore_ascii_case(a: Seq<char>, b: Seq<char>) -> bool {
    &&& a.len() == b.len()
    &&& forall|i: int| 0 <= i < a.len() ==> ascii_lower_code(#[trigger] a[i]) == ascii_lower_code(b[i])
}

pub open spec fn is_ascii_digit(c: char) -> bool {
    '0' <= c && c <= '9'
}

pub open spec fn all_digits(s: Seq<char>) -> bool {
    forall|i: int| 0 <= i < s.len() ==> is_ascii_digit(#[trigger] s[i])
}

/// The number written in decimal by the digits `s` (most significant first).
pub open spec fn digits_value(s: Seq<char>) -> nat
    decreases s.len(),
{
    if s.len() == 0 {
        0
    } else {
        digits_value(s.drop_last()) * 10 + ((s.last() as nat) - ('0' as nat)) as nat
    }
}

/// What `u32::from_str` gives for `s`: an optional leading `+`, then one or
/// more ASCII digits whose value fits in a `u32`.
pub open spec fn u32_text_value(s: Seq<char>) -> Option<u32> {
    let d = if s.len() > 0 && s[0] == '+' {
        s.drop_first()
    } else {
        s
    };
    if d.len() > 0 && all_digits(d) && digits_value(d) <= u32::MAX {
        Some(digits_value(d) as u32)
    } else {
        None
    }
}

proof fn lemma_digits_value_push(p: Seq<char>, c: char)
    ensures
        digits_value(p.push(c)) == digits_value(p) * 10 + ((c as nat) - ('0' as nat)) as nat,
{
    assert(p.push(c).drop_last() =~= p);
}

/// The ASCII digit for `d` (below ten).
pub open spec fn digit_char(d: nat) -> char {
    ((d + 48) as u32) as char
}

/// `n` written in decimal, as `u32`'s `to_string` writes it: no sign and no
/// leading zeros.
pub open spec fn decimal_text(n: nat) -> Seq<char>
    decreases n,
{
    if n < 10 {
        seq![digit_char(n)]
    } else {
        decimal_text(n / 10).push(digit_char(n % 10))
    }
}

proof fn lemma_digit_char(d: nat)
    requires
        d < 10,
    ensures
        is_ascii_digit(digit_char(d)),
        (digit_char(d) as nat) - ('0' as nat) == d,
        digit_char(d) != '+',
{
    assert(((d + 48) as u32) as char as u32 == d + 48);
}

/// The decimal text of `n` is a nonempty run of digits that stands for `n`.
pub proof fn lemma_decimal_text(n: nat)
    ensures
        decimal_text(n).len() > 0,
        decimal_text(n)[0] != '+',
        all_digits(decimal_text(n)),
        digits_value(decimal_text(n)) == n,
    decreases n,
{
    lemma_digit_char(n % 10);
    if n < 10 {
        let s = decimal_text(n);
        assert(s.drop_last() =~= Seq::<char>::empty());
        assert(n % 10 == n);
        assert(s.last() == digit_char(n));
        assert(digits_value(s) == digits_value(s.drop_last()) * 10 + ((s.last() as nat) - ('0' as nat)) as nat);
        assert(digits_value(s.drop_last()) == 0);
    } else {
        lemma_decimal_text(n / 10);
        assert((n / 10) * 10 + n % 10 == n);
        let p = decimal_text(n / 10);
        assert(decimal_text(n) == p.push(digit_char(n % 10)));
        lemma_digits_value_push(p, digit_char(n % 10));
        assert(digits_value(p.push(digit_char(n % 10))) == digits_value(p) * 10 + (n % 10));
        assert(decimal_text(n)[0] == p[0]);
        assert forall|i: int| 0 <= i < decimal_text(n).len() implies is_ascii_digit(#[trigger] decimal_text(n)[i]) by {
            if i < p.len() {
                assert(decimal_text(n)[i] == p[i]);
            }
        }
    }
}

/// Appends `n` written in decimal to `out`.
pub fn append_decimal(n: u32, out: &mut String)
    ensures
        final(out)@ == old(out)@ + decimal_text(n as nat),
    decreases n,
{
    if n >= 10 {
        append_decimal(n / 10, out);
    }
    let d = n % 10;
    let text = if d == 0 {
        "0"
    } else if d == 1 {
        "1"
    } else if d == 2 {
        "2"
    } else if d == 3 {
        "3"
    } else if d == 4 {
        "4"
    } else if d == 5 {
        "5"
    } else if d == 6 {
        "6"
    } else if d == 7 {
        "7"
    } else if d == 8 {
        "8"
    } else {
        "9"
    };
    proof {
        reveal_strlit("0");
        reveal_strlit("1");
        reveal_strlit("2");
        reveal_strlit("3");
        reveal_strlit("4");
        reveal_strlit("5");
        reveal_strlit("6");
        reveal_strlit("7");
        reveal_strlit("8");
        reveal_strlit("9");
        assert(text@ =~= seq![digit_char(d as nat)]);
    }
    out.append(text);
    proof {
        if n >= 10 {
            assert(decimal_text(n as nat) == decimal_text((n / 10) as nat).push(digit_char((n % 10) as nat)));
        }
    }
    assert(final(out)@ =~= old(out)@ + decimal_text(n as nat));
}

/// Parses `s` as `u32::from_str` does.
pub fn parse_u32(s: &str) -> (r: Option<u32>)
    ensures
        r == u32_text_value(s@),
{
    let n = s.unicode_len();
    let mut i: usize = 0;
    if n > 0 && s.get_char(0) == '+' {
        i = 1;
    }
    let start = i;
    let ghost d = if s@.len() > 0 && s@[0] == '+' {
        s@.drop_first()
    } else {
        s@
    };
    assert(d =~= s@.subrange(start as int, n as int));
    if i == n {
        return None;
    }
    let mut acc: u64 = 0;
    let mut big = false;
    while i < n
        invariant
            start <= i <= n,
            n == s@.len(),
            d =~= s@.subrange(start as int, n as int),
            d == (if s@.len() > 0 && s@[0] == '+' { s@.drop_first() } else { s@ }),
            all_digits(d.subrange(0, i - start)),
            !big ==> acc == digits_value(d.subrange(0, i - start)),
            !big ==> acc <= u32::MAX,
            big ==> digits_value(d.subrange(0, i - start)) > u32::MAX,
        decreases n - i,
    {
        let c = s.get_char(i);
        let ghost p = d.subrange(0, i - start);
        assert(d.subrange(0, i + 1 - start) =~= p.push(c));
        proof {
            lemma_digits_value_push(p, c);
        }
        if !('0' <= c && c <= '9') {
            assert(!is_ascii_digit(d[i - start]));
            assert(!all_digits(d));
            return None;
        }
        if !big {
            let digit = (c as u32 - '0' as u32) as u64;
            acc = acc * 10 + digit;
            if acc > 0xffff_ffff {
                big = true;
            }
        }
        i = i + 1;
    }
    assert(d.subrange(0, n - start) =~= d);
    if big {
        None
    } else {
        Some(acc as u32)
    }
}

/// `s` matches `word` when ASCII letters are compared without regard to case.
pub fn eq_ignore_case(s: &str, word: &str) -> (r: bool)
    ensures
        r == eq_ignore_ascii_case(s@, word@),
{
    let n = s.unicode_len();
    if n != word.unicode_len() {
        return false;
    }
    let mut i: usize = 0;
    while i < n
        invariant
            i <= n,
            n == s@.len(),
            n == word@.len(),
            forall|j: int| 0 <= j < i ==> ascii_lower_code(#[trigger] s@[j]) == ascii_lower_code(word@[j]),
        decreases n - i,
    {
        let a = s.get_char(i) as u32;
        let b = word.get_char(i) as u32;
        let la = if 65 <= a && a <= 90 { a + 32 } else { a };
        let lb = if 65 <= b && b <= 90 { b + 32 } else { b };
        if la != lb {
            return false;
        }
        i = i + 1;
    }
    true
}

} // verus!

verus! {

/// A brightness argument as written on the command line, taken apart into
/// its form. Percentages keep the number as written (the text between the
/// optional sign and the `%`); its numeric value is read by the caller.
#[derive(Debug, Clone, PartialEq, Eq)]
pub enum BrightnessArg {
    /// An absolute value in raw device units.
    Raw(u32),
    /// A change of the current brightness, in raw device units.
    DeltaRaw(i64),
    /// An absolute percentage of the maximum brightness.
    Percent(String),
    /// A change by a percentage of the maximum brightness; `true` when the
    /// change is downwards.
    DeltaPercent(bool, String),
}

/// The mathematical content of a [`BrightnessArg`].
pub enum BrightnessArgView {
    Raw(u32),
    DeltaRaw(i64),
    Percent(Seq<char>),
    DeltaPercent(bool, Seq<char>),
}

impl View for BrightnessArg {
    type V = BrightnessArgView;

    open spec fn view(&self) -> BrightnessArgView {
        match self {
            BrightnessArg::Raw(v) => BrightnessArgView::Raw(*v),
            BrightnessArg::DeltaRaw(d) => BrightnessArgView::DeltaRaw(*d),
            BrightnessArg::Percent(p) => BrightnessArgView::Percent(p@),
            BrightnessArg::DeltaPercent(neg, p) => BrightnessArgView::DeltaPercent(*neg, p@),
        }
    }
}

pub open spec fn word_max() -> Seq<char> {
    seq!['m', 'a', 'x']
}

pub open spec fn word_min() -> Seq<char> {
    seq!['m', 'i', 'n']
}

pub open spec fn starts_with_sign(s: Seq<char>) -> bool {
    s.len() > 0 && (s[0] == '+' || s[0] == '-')
}

/// The sign in front of `s`, if any (`Some(true)` for `-`), and what follows it.
pub open spec fn split_sign(s: Seq<char>) -> (Option<bool>, Seq<char>) {
    if s.len() > 0 && s[0] == '+' {
        (Some(false), s.drop_first())
    } else if s.len() > 0 && s[0] == '-' {
        (Some(true), s.drop_first())
    } else {
        (None, s)
    }
}

/// What a brightness argument `s` stands for, or `None` when it is malformed.
///
/// `max` and `min` (in any ASCII case) are 100% and 0%. Otherwise an
/// optional sign makes the value a change rather than an absolute value; a
/// second sign is refused; a trailing `%` makes it a percentage; and a value
/// without `%` must be an unsigned 32-bit integer.
pub open spec fn brightness_arg_of(s: Seq<char>) -> Option<BrightnessArgView> {
    if eq_ignore_ascii_case(s, word_max()) {
        Some(BrightnessArgView::Percent(seq!['1', '0', '0']))
    } else if eq_ignore_ascii_case(s, word_min()) {
        Some(BrightnessArgView::Percent(seq!['0']))
    } else {
        let (sign, rest) = split_sign(s);
        if starts_with_sign(rest) {
            None
        } else if rest.len() > 0 && rest.last() == '%' {
            match sign {
                None => Some(BrightnessArgView::Percent(rest.drop_last())),
                Some(neg) => Some(BrightnessArgView::DeltaPercent(neg, rest.drop_last())),
            }
        } else {
            match u32_text_value(rest) {
                None => None,
                Some(v) => match sign {
                    None => Some(BrightnessArgView::Raw(v)),
                    Some(false) => Some(BrightnessArgView::DeltaRaw(v as i64)),
                    Some(true) => Some(BrightnessArgView::DeltaRaw((-(v as int)) as i64)),
                },
            }
        }
    }
}

/// Takes a brightness argument apart (see [`brightness_arg_of`]); a
/// malformed one gives the message `invalid brightness value '<s>'`.
pub fn parse_brightness_arg(s: &str) -> (r: Result<BrightnessArg, String>)
    ensures
        match r {
            Ok(a) => brightness_arg_of(s@) == Some(a@),
            Err(msg) => brightness_arg_of(s@) is None
                && msg@ == "invalid brightness value '"@ + s@ + "'"@,
        },
{
    proof {
        reveal_strlit("max");
        reveal_strlit("min");
        reveal_strlit("100");
        reveal_strlit("0");
        assert("max"@ =~= word_max());
        assert("min"@ =~= word_min());
        assert("100"@ =~= seq!['1', '0', '0']);
        assert("0"@ =~= seq!['0']);
    }
    if eq_ignore_case(s, "max") {
        return Ok(BrightnessArg::Percent("100".to_string()));
    }
    if eq_ignore_case(s, "min") {
        return Ok(BrightnessArg::Percent("0".to_string()));
    }
    let n = s.unicode_len();
    let mut sign: Option<bool> = None;
    let mut start: usize = 0;
    if n > 0 {
        let c = s.get_char(0);
        if c == '+' {
            sign = Some(false);
            start = 1;
        } else if c == '-' {
            sign = Some(true);
            start = 1;
        }
    }
    let rest = s.substring_char(start, n);
    assert(sign == split_sign(s@).0);
    assert(rest@ =~= split_sign(s@).1);
    let rn = rest.unicode_len();
    if rn > 0 {
        let first = rest.get_char(0);
        if first == '+' || first == '-' {
            return Err(invalid_value_message(s));
        }
        if rest.get_char(rn - 1) == '%' {
            let number = rest.substring_char(0, rn - 1).to_string();
            assert(number@ =~= rest@.drop_last());
            return match sign {
                None => Ok(BrightnessArg::Percent(number)),
                Some(neg) => Ok(BrightnessArg::DeltaPercent(neg, number)),
            };
        }
    }
    match parse_u32(rest) {
        None => Err(invalid_value_message(s)),
        Some(v) => match sign {
            None => Ok(BrightnessArg::Raw(v)),
            Some(false) => Ok(BrightnessArg::DeltaRaw(v as i64)),
            Some(true) => Ok(BrightnessArg::DeltaRaw(-(v as i64))),
        },
    }
}

/// The message for a malformed brightness argument.
fn invalid_value_message(s: &str) -> (m: String)
    ensures
        m@ == "invalid brightness value '"@ + s@ + "'"@,
{
    let mut m = "invalid brightness value '".to_string();
    m.append(s);
    m.append("'");
    m
}

} // verus!

verus! {

/// `x` clamped to the range `lo..=hi`.
pub open spec fn clamp(x: int, lo: int, hi: int) -> int {
    if x < lo {
        lo
    } else if x > hi {
        hi
    } else {
        x
    }
}

/// Resolves a change of `delta` raw units from `current`, given the
/// device's maximum brightness: the result is clamped to `0..=max` rather
/// than over- or underflowing.
pub fn resolve_delta_raw(current: u32, delta: i64, max: u32) -> (r: u32)
    ensures
        r == clamp(current + delta, 0, max as int),
{
    // Exact in 128 bits; saturating in 64 bits gives the same clamped result.
    let sum = current as i128 + delta as i128;
    if sum < 0 {
        0
    } else if sum > max as i128 {
        max
    } else {
        sum as u32
    }
}

} // verus!

verus! {

/// A change of brightness always resolves to a value the device accepts:
/// something in `0..=max`.
pub proof fn law_delta_resolves_within_range(current: u32, delta: i64, max: u32)
    ensures
        0 <= clamp(current + delta, 0, max as int) <= max,
{
}

/// A change of zero leaves a brightness that the device accepts where it is.
pub proof fn law_zero_delta_keeps_current(current: u32, max: u32)
    requires
        current <= max,
    ensures
        clamp(current + 0, 0, max as int) == current,
{
}

/// A change is never refused for being too large: past the ends of the
/// range it stops at `0` or at `max`.
pub proof fn law_delta_saturates(current: u32, delta: i64, max: u32)
    ensures
        current + delta >= max ==> clamp(current + delta, 0, max as int) == max,
        current + delta <= 0 ==> clamp(current + delta, 0, max as int) == 0,
{
}

/// A sign in front of a brightness argument is always read as a change,
/// never as a negative absolute value: an accepted argument that starts
/// with `+` or `-` is a change.
pub proof fn law_sign_means_change(s: Seq<char>)
    requires
        starts_with_sign(s),
        brightness_arg_of(s) is Some,
    ensures
        brightness_arg_of(s)->Some_0 is DeltaRaw || brightness_arg_of(s)->Some_0 is DeltaPercent,
{
    if eq_ignore_ascii_case(s, word_max()) {
        assert(ascii_lower_code(s[0]) == ascii_lower_code(word_max()[0]));
    }
    if eq_ignore_ascii_case(s, word_min()) {
        assert(ascii_lower_code(s[0]) == ascii_lower_code(word_min()[0]));
    }
}

/// An argument with two signs in front is always refused.
pub proof fn law_double_sign_refused(s: Seq<char>)
    requires
        starts_with_sign(s),
        starts_with_sign(s.drop_first()),
    ensures
        brightness_arg_of(s) is None,
{
    if eq_ignore_ascii_case(s, word_max()) {
        assert(ascii_lower_code(s[0]) == ascii_lower_code(word_max()[0]));
    }
    if eq_ignore_ascii_case(s, word_min()) {
        assert(ascii_lower_code(s[0]) == ascii_lower_code(word_min()[0]));
    }
}

} // verus!
