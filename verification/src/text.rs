//! Character-level primitives shared by the decoders: comparison of strings,
//! digits and numbers in a given radix, and the decimal notation of a number.

use vstd::prelude::*;
use vstd::string::StringExecFns;
use vstd::string::StringSliceAdditionalSpecFns;
use vstd::utf8::encode_utf8_decode_utf8;

verus! {

/// Why a compact code does not fit its grammar.
#[derive(Debug, Clone, Copy, PartialEq, Eq, Hash)]
pub enum Malformed {
    /// A number was expected and no digit stands there.
    MissingNumber,
    /// The digits stand for a number above the field's limit.
    NumberTooLarge,
    /// A fixed delimiter was expected and another character, or none, stands there.
    MissingDelimiter,
    /// A letter or a digit of a fixed position was expected and is not there.
    MissingSymbol,
}

/// Whether two strings hold the same characters.
pub fn str_eq(a: &str, b: &str) -> (r: bool)
    ensures
        r == (a@ == b@),
{
    let x = a.as_bytes();
    let y = b.as_bytes();
    proof {
        encode_utf8_decode_utf8(a@);
        encode_utf8_decode_utf8(b@);
    }
    if x.len() != y.len() {
        return false;
    }
    let mut i: usize = 0;
    while i < x.len()
        invariant
            i <= x@.len(),
            x@.len() == y@.len(),
            x@ == a.spec_bytes(),
            y@ == b.spec_bytes(),
            forall|k: int| 0 <= k < i ==> x@[k] == y@[k],
        decreases x@.len() - i,
    {
        if x[i] != y[i] {
            return false;
        }
        i += 1;
    }
    assert(x@ =~= y@);
    true
}

/// The texts of `strings`, in order.
pub open spec fn texts(strings: Seq<String>) -> Seq<Seq<char>> {
    strings.map_values(|s: String| s@)
}

/// The characters of a string, in order.
pub fn chars_of(s: &str) -> (v: Vec<char>)
    ensures
        v@ == s@,
{
    let mut v: Vec<char> = Vec::new();
    for c in it: s.chars()
        invariant
            v@ == it.seq().take(it.index() as int),
            it.seq() == s@,
    {
        v.push(c);
    }
    v
}

/// The value of `c` as a digit in `radix`: `0`-`9`, then letters of either case
/// for ten and up.
pub open spec fn spec_digit(c: char, radix: nat) -> Option<nat> {
    let v: int = if '0' <= c <= '9' {
        c as int - '0' as int
    } else if 'a' <= c <= 'z' {
        c as int - 'a' as int + 10
    } else if 'A' <= c <= 'Z' {
        c as int - 'A' as int + 10
    } else {
        -1
    };
    if 0 <= v < radix {
        Some(v as nat)
    } else {
        None
    }
}

/// Whether `c` is a digit in `radix`.
pub open spec fn is_digit(c: char, radix: nat) -> bool {
    spec_digit(c, radix) is Some
}

/// The digit that `c` stands for in `radix`.
pub fn digit(c: char, radix: u32) -> (r: Option<u32>)
    ensures
        match r {
            Some(v) => spec_digit(c, radix as nat) == Some(v as nat) && v < radix && v < 36,
            None => spec_digit(c, radix as nat) is None,
        },
{
    let v: u32 = if '0' <= c && c <= '9' {
        c as u32 - '0' as u32
    } else if 'a' <= c && c <= 'z' {
        c as u32 - 'a' as u32 + 10
    } else if 'A' <= c && c <= 'Z' {
        c as u32 - 'A' as u32 + 10
    } else {
        return None;
    };
    if v < radix {
        Some(v)
    } else {
        None
    }
}

/// Whether `c` is one of the letters `a`-`z` and `A`-`Z`.
pub open spec fn is_letter(c: char) -> bool {
    'a' <= c <= 'z' || 'A' <= c <= 'Z'
}

/// Whether `c` is one of the letters `a`-`z` and `A`-`Z`.
pub fn letter(c: char) -> (r: bool)
    ensures
        r == is_letter(c),
{
    ('a' <= c && c <= 'z') || ('A' <= c && c <= 'Z')
}


/// The first position at or after `start` where no digit of `radix` stands:
/// the end of the run of digits that begins at `start`.
pub open spec fn digits_end(s: Seq<char>, start: int, radix: nat) -> int
    decreases s.len() - start,
{
    if 0 <= start < s.len() && is_digit(s[start], radix) {
        digits_end(s, start + 1, radix)
    } else {
        start
    }
}

/// The number that a sequence of digits stands for in `radix`, most significant
/// digit first.
pub open spec fn number_value(s: Seq<char>, radix: nat) -> nat
    decreases s.len(),
{
    if s.len() == 0 {
        0
    } else {
        number_value(s.drop_last(), radix) * radix + match spec_digit(s.last(), radix) {
            Some(d) => d,
            None => 0,
        }
    }
}

/// The number written at `start` and the position after its last digit. At least
/// one digit must stand there, and the number may not exceed `max`.
pub open spec fn spec_take_uint(s: Seq<char>, start: int, radix: nat, max: nat) -> Result<
    (nat, int),
    Malformed,
> {
    let end = digits_end(s, start, radix);
    if end <= start {
        Err(Malformed::MissingNumber)
    } else if number_value(s.subrange(start, end), radix) > max {
        Err(Malformed::NumberTooLarge)
    } else {
        Ok((number_value(s.subrange(start, end), radix), end))
    }
}

/// The number that the whole of `s` stands for: an optional `+`, then one or
/// more digits and nothing else, with a value of at most `max`.
pub open spec fn spec_parse_uint(s: Seq<char>, radix: nat, max: nat) -> Option<nat> {
    let start: int = if s.len() > 0 && s[0] == '+' {
        1
    } else {
        0
    };
    match spec_take_uint(s, start, radix, max) {
        Ok((value, end)) => if end == s.len() {
            Some(value)
        } else {
            None
        },
        Err(_) => None,
    }
}

/// A run of digits that is closed by a non-digit or by the end of the text ends
/// exactly there.
pub proof fn lemma_digits_end(s: Seq<char>, start: int, end: int, radix: nat)
    requires
        0 <= start <= end <= s.len(),
        forall|k: int| start <= k < end ==> is_digit(s[k], radix),
        end == s.len() || !is_digit(s[end], radix),
    ensures
        digits_end(s, start, radix) == end,
    decreases end - start,
{
    if start < end {
        lemma_digits_end(s, start + 1, end, radix);
    }
}

/// What `digits_end` returns bounds a run of digits and is closed.
pub proof fn lemma_digits_end_bounds(s: Seq<char>, start: int, radix: nat)
    requires
        0 <= start <= s.len(),
    ensures
        start <= digits_end(s, start, radix) <= s.len(),
        forall|k: int| start <= k < digits_end(s, start, radix) ==> is_digit(s[k], radix),
        digits_end(s, start, radix) == s.len() || !is_digit(
            s[digits_end(s, start, radix)],
            radix,
        ),
    decreases s.len() - start,
{
    if start < s.len() && is_digit(s[start], radix) {
        lemma_digits_end_bounds(s, start + 1, radix);
    }
}

/// Appending one digit multiplies the value by the radix and adds the digit.
pub proof fn lemma_value_push(s: Seq<char>, c: char, radix: nat)
    ensures
        number_value(s.push(c), radix) == number_value(s, radix) * radix + match spec_digit(
            c,
            radix,
        ) {
            Some(d) => d,
            None => 0,
        },
{
    assert(s.push(c).drop_last() =~= s);
}

/// Reads the number written at `start`.
pub fn take_uint(s: &Vec<char>, start: usize, radix: u32, max: u32) -> (r: Result<
    (u32, usize),
    Malformed,
>)
    ensures
        match r {
            Ok((value, end)) => spec_take_uint(s@, start as int, radix as nat, max as nat) == Ok::<
                (nat, int),
                Malformed,
            >((value as nat, end as int)) && start < end <= s@.len(),
            Err(e) => spec_take_uint(s@, start as int, radix as nat, max as nat) == Err::<
                (nat, int),
                Malformed,
            >(e),
        },
{
    if start >= s.len() {
        return Err(Malformed::MissingNumber);
    }
    let mut i: usize = start;
    let mut acc: u64 = 0;
    let mut over: bool = false;
    while i < s.len()
        invariant
            start <= i <= s@.len(),
            forall|k: int| start <= k < i ==> is_digit(s@[k], radix as nat),
            !over ==> acc == number_value(s@.subrange(start as int, i as int), radix as nat),
            !over ==> acc <= max,
            over ==> number_value(s@.subrange(start as int, i as int), radix as nat) > max,
        ensures
            i == s@.len() || !is_digit(s@[i as int], radix as nat),
        decreases s@.len() - i,
    {
        let d: u32 = match digit(s[i], radix) {
            Some(d) => d,
            None => {
                break ;
            },
        };
        proof {
            let before = s@.subrange(start as int, i as int);
            assert(s@.subrange(start as int, i + 1) =~= before.push(s@[i as int]));
            lemma_value_push(before, s@[i as int], radix as nat);
            let v = number_value(before, radix as nat);
            assert(v * radix >= v) by (nonlinear_arith)
                requires
                    v >= 0,
                    radix >= 1,
            ;
            if !over {
                assert(acc * radix <= 0xffff_ffff * 0xffff_ffff) by (nonlinear_arith)
                    requires
                        0 <= acc <= 0xffff_ffff,
                        0 <= radix <= 0xffff_ffff,
                ;
            }
        }
        if !over {
            acc = acc * (radix as u64) + (d as u64);
            if acc > max as u64 {
                over = true;
            }
        }
        i += 1;
    }
    proof {
        lemma_digits_end(s@, start as int, i as int, radix as nat);
    }
    if i == start {
        Err(Malformed::MissingNumber)
    } else if over {
        Err(Malformed::NumberTooLarge)
    } else {
        Ok((acc as u32, i))
    }
}

/// Reads `s` as one number, as `str::parse` does for an unsigned integer.
pub fn parse_uint(s: &Vec<char>, radix: u32, max: u32) -> (r: Option<u32>)
    ensures
        match r {
            Some(v) => spec_parse_uint(s@, radix as nat, max as nat) == Some(v as nat),
            None => spec_parse_uint(s@, radix as nat, max as nat) is None,
        },
{
    let start: usize = if s.len() > 0 && s[0] == '+' {
        1
    } else {
        0
    };
    match take_uint(s, start, radix, max) {
        Ok((value, end)) => if end == s.len() {
            Some(value)
        } else {
            None
        },
        Err(_) => None,
    }
}


/// Where the digits of a whole number begin in `s`: after the `+` that may stand
/// in front of them.
pub open spec fn number_start(s: Seq<char>) -> int {
    if s.len() > 0 && s[0] == '+' {
        1
    } else {
        0
    }
}

/// Whether the whole of `s` is a number in `radix`: an optional `+`, then one
/// or more digits and nothing else. The digits may be of any number.
pub open spec fn is_number(s: Seq<char>, radix: nat) -> bool {
    number_start(s) < s.len() && digits_end(s, number_start(s), radix) == s.len()
}

/// The number that the whole of `s` stands for in `radix`, where it is one.
pub open spec fn whole_value(s: Seq<char>, radix: nat) -> nat {
    number_value(s.subrange(number_start(s), s.len() as int), radix)
}

/// The number that the whole of `s` stands for, told from a text that is no
/// number and from a number above `max`.
pub open spec fn spec_parse_number(s: Seq<char>, radix: nat, max: nat) -> Result<nat, Malformed> {
    if !is_number(s, radix) {
        Err(Malformed::MissingNumber)
    } else if whole_value(s, radix) > max {
        Err(Malformed::NumberTooLarge)
    } else {
        Ok(whole_value(s, radix))
    }
}

/// A text is read as a number of at most `max` exactly where it is a number
/// and that number is at most `max`.
pub proof fn lemma_parse_uint(s: Seq<char>, radix: nat, max: nat)
    ensures
        spec_parse_uint(s, radix, max) == match spec_parse_number(s, radix, max) {
            Ok(value) => Some(value),
            Err(_) => None,
        },
{
    if number_start(s) <= s.len() {
        lemma_digits_end_bounds(s, number_start(s), radix);
    }
}

/// Finds the end of the run of digits of `radix` that begins at `start`.
pub fn take_digits(s: &Vec<char>, start: usize, radix: u32) -> (end: usize)
    ensures
        end == digits_end(s@, start as int, radix as nat),
        start <= end,
        start <= s@.len() ==> end <= s@.len(),
{
    if start >= s.len() {
        return start;
    }
    let mut i: usize = start;
    while i < s.len() && digit(s[i], radix).is_some()
        invariant
            start <= i <= s@.len(),
            forall|k: int| start <= k < i ==> is_digit(s@[k], radix as nat),
        decreases s@.len() - i,
    {
        i += 1;
    }
    proof {
        lemma_digits_end(s@, start as int, i as int, radix as nat);
    }
    i
}

/// Reads the whole of `s` as one number of at most `max`. A text that is no
/// number is told from a number, of whatever length, that is above `max`.
pub fn parse_number(s: &Vec<char>, radix: u32, max: u32) -> (r: Result<u32, Malformed>)
    ensures
        match r {
            Ok(v) => spec_parse_number(s@, radix as nat, max as nat) == Ok::<nat, Malformed>(
                v as nat,
            ),
            Err(e) => spec_parse_number(s@, radix as nat, max as nat) == Err::<nat, Malformed>(e),
        },
{
    let start: usize = if s.len() > 0 && s[0] == '+' {
        1
    } else {
        0
    };
    let end = take_digits(s, start, radix);
    if start >= s.len() || end != s.len() {
        return Err(Malformed::MissingNumber);
    }
    match take_uint(s, start, radix, max) {
        Ok((value, _)) => Ok(value),
        Err(e) => Err(e),
    }
}

/// The greatest number that `len` decimal digits can stand for.
pub open spec fn nines(len: nat) -> nat
    decreases len,
{
    if len == 0 {
        0
    } else {
        10 * nines((len - 1) as nat) + 9
    }
}

/// Decimal digits stand for no more than as many nines.
pub proof fn lemma_value_bound(s: Seq<char>)
    requires
        forall|k: int| 0 <= k < s.len() ==> is_digit(s[k], 10),
    ensures
        number_value(s, 10) <= nines(s.len()),
    decreases s.len(),
{
    if s.len() > 0 {
        lemma_value_bound(s.drop_last());
        assert(is_digit(s.last(), 10));
    }
}

/// The character that writes the decimal digit `d`.
pub open spec fn digit_char(d: nat) -> char {
    if d == 0 {
        '0'
    } else if d == 1 {
        '1'
    } else if d == 2 {
        '2'
    } else if d == 3 {
        '3'
    } else if d == 4 {
        '4'
    } else if d == 5 {
        '5'
    } else if d == 6 {
        '6'
    } else if d == 7 {
        '7'
    } else if d == 8 {
        '8'
    } else {
        '9'
    }
}

/// The decimal notation of `n`, without leading zeros.
pub open spec fn spec_decimal(n: nat) -> Seq<char>
    decreases n,
{
    if n < 10 {
        seq![digit_char(n)]
    } else {
        spec_decimal(n / 10).push(digit_char(n % 10))
    }
}

/// Whether `s` is a decimal number in the form in which `spec_decimal` writes
/// one: digits only, at least one, and no zero in front of another digit.
pub open spec fn is_canonical_decimal(s: Seq<char>) -> bool {
    &&& s.len() >= 1
    &&& forall|k: int| 0 <= k < s.len() ==> is_digit(#[trigger] s[k], 10)
    &&& (s[0] != '0' || s.len() == 1)
}

/// The decimal notation of a number is canonical and stands for that number.
pub proof fn lemma_decimal_value(n: nat)
    ensures
        is_canonical_decimal(spec_decimal(n)),
        number_value(spec_decimal(n), 10) == n,
        n >= 1 ==> spec_decimal(n)[0] != '0',
    decreases n,
{
    if n < 10 {
        let s = seq![digit_char(n)];
        assert(s.drop_last() =~= Seq::<char>::empty());
        assert(number_value(s.drop_last(), 10) == 0);
    } else {
        lemma_decimal_value(n / 10);
        lemma_value_push(spec_decimal(n / 10), digit_char(n % 10), 10);
    }
}

/// A canonical decimal is the notation of the number it stands for.
pub proof fn lemma_canonical_decimal(s: Seq<char>)
    requires
        is_canonical_decimal(s),
    ensures
        spec_decimal(number_value(s, 10)) == s,
        s[0] != '0' ==> number_value(s, 10) >= 1,
    decreases s.len(),
{
    let t = s.drop_last();
    let c = s.last();
    assert(is_digit(c, 10));
    let d = spec_digit(c, 10)->0;
    assert(digit_char(d) == c);
    if s.len() == 1 {
        assert(t =~= Seq::<char>::empty());
        assert(number_value(t, 10) == 0);
        assert(seq![c] =~= s);
    } else {
        assert(t[0] == s[0]);
        assert forall|k: int| 0 <= k < t.len() implies is_digit(#[trigger] t[k], 10) by {
            assert(t[k] == s[k]);
        }
        lemma_canonical_decimal(t);
        assert(t.push(c) =~= s);
    }
}

/// The one-character text of a decimal digit.
fn digit_text(d: u64) -> (r: &'static str)
    requires
        d < 10,
    ensures
        r@ == seq![digit_char(d as nat)],
{
    proof {
        reveal_strlit("0");
        reveal_strlit("1");
        reveal_strlit("2");
        reveal_strlit("3");
        reveal_strlit("4");
        reveal_strlit("5");
        reveal_strlit("6");
        reveal_strlit("7");
        reveal_strlit("8");
        reveal_strlit("9");
    }
    let r = if d == 0 {
        "0"
    } else if d == 1 {
        "1"
    } else if d == 2 {
        "2"
    } else if d == 3 {
        "3"
    } else if d == 4 {
        "4"
    } else if d == 5 {
        "5"
    } else if d == 6 {
        "6"
    } else if d == 7 {
        "7"
    } else if d == 8 {
        "8"
    } else {
        "9"
    };
    assert(r@ =~= seq![digit_char(d as nat)]);
    r
}

/// Appends the decimal notation of `n` to `out`.
pub fn push_decimal(out: &mut String, n: u64)
    ensures
        final(out)@ == old(out)@ + spec_decimal(n as nat),
    decreases n,
{
    if n >= 10 {
        push_decimal(out, n / 10);
    }
    out.append(digit_text(n % 10));
    assert(out@ =~= old(out)@ + spec_decimal(n as nat));
}


/// The position after `c`, where `c` stands at `at`.
pub open spec fn spec_expect(s: Seq<char>, at: int, c: char) -> Result<int, Malformed> {
    if 0 <= at < s.len() && s[at] == c {
        Ok(at + 1)
    } else {
        Err(Malformed::MissingDelimiter)
    }
}

/// Steps over the delimiter `c` at `at`.
pub fn expect(s: &Vec<char>, at: usize, c: char) -> (r: Result<usize, Malformed>)
    ensures
        match r {
            Ok(next) => spec_expect(s@, at as int, c) == Ok::<int, Malformed>(next as int) && next
                <= s@.len(),
            Err(e) => spec_expect(s@, at as int, c) == Err::<int, Malformed>(e),
        },
{
    if at < s.len() && s[at] == c {
        Ok(at + 1)
    } else {
        Err(Malformed::MissingDelimiter)
    }
}

/// In a text that holds the decimal notation of `n` after `before`, followed by
/// no further digit, the number read at that place is `n`.
pub proof fn lemma_take_decimal(before: Seq<char>, n: nat, after: Seq<char>, max: nat)
    requires
        n <= max,
        after.len() == 0 || !is_digit(after[0], 10),
    ensures
        spec_take_uint(before + spec_decimal(n) + after, before.len() as int, 10, max) == Ok::<
            (nat, int),
            Malformed,
        >((n, (before.len() + spec_decimal(n).len()) as int)),
{
    let digits = spec_decimal(n);
    let s = before + digits + after;
    let start = before.len() as int;
    let end = start + digits.len();
    lemma_decimal_value(n);
    assert forall|k: int| start <= k < end implies is_digit(s[k], 10) by {
        assert(s[k] == digits[k - start]);
    }
    if after.len() > 0 {
        assert(s[end] == after[0]);
    }
    lemma_digits_end(s, start, end, 10);
    assert(s.subrange(start, end) =~= digits);
}


/// The first position at or after `start` where no letter stands: the end of
/// the run of letters that begins at `start`.
pub open spec fn letters_end(s: Seq<char>, start: int) -> int
    decreases s.len() - start,
{
    if 0 <= start < s.len() && is_letter(s[start]) {
        letters_end(s, start + 1)
    } else {
        start
    }
}

/// A run of letters that is closed by a non-letter or by the end of the text
/// ends exactly there.
pub proof fn lemma_letters_end(s: Seq<char>, start: int, end: int)
    requires
        0 <= start <= end <= s.len(),
        forall|k: int| start <= k < end ==> is_letter(s[k]),
        end == s.len() || !is_letter(s[end]),
    ensures
        letters_end(s, start) == end,
    decreases end - start,
{
    if start < end {
        lemma_letters_end(s, start + 1, end);
    }
}

/// What `letters_end` returns bounds a run of letters and is closed.
pub proof fn lemma_letters_end_bounds(s: Seq<char>, start: int)
    requires
        0 <= start <= s.len(),
    ensures
        start <= letters_end(s, start) <= s.len(),
        forall|k: int| start <= k < letters_end(s, start) ==> is_letter(s[k]),
        letters_end(s, start) == s.len() || !is_letter(s[letters_end(s, start)]),
    decreases s.len() - start,
{
    if start < s.len() && is_letter(s[start]) {
        lemma_letters_end_bounds(s, start + 1);
    }
}

/// Finds the end of the run of letters that begins at `start`.
pub fn take_letters(s: &Vec<char>, start: usize) -> (end: usize)
    ensures
        end == letters_end(s@, start as int),
        start <= end,
        start <= s@.len() ==> end <= s@.len(),
{
    if start >= s.len() {
        return start;
    }
    let mut i: usize = start;
    while i < s.len() && letter(s[i])
        invariant
            start <= i <= s@.len(),
            forall|k: int| start <= k < i ==> is_letter(s@[k]),
        decreases s@.len() - i,
    {
        i += 1;
    }
    proof {
        lemma_letters_end(s@, start as int, i as int);
    }
    i
}


impl Malformed {
    /// What the error says.
    pub open spec fn spec_message(self) -> Seq<char> {
        match self {
            Malformed::MissingNumber => "a number is missing"@,
            Malformed::NumberTooLarge => "a number is too large"@,
            Malformed::MissingDelimiter => "a delimiter is missing"@,
            Malformed::MissingSymbol => "a letter or a digit is missing"@,
        }
    }

    /// Appends what the error says to `out`.
    pub fn write(&self, out: &mut String)
        ensures
            final(out)@ == old(out)@ + self.spec_message(),
    {
        match self {
            Malformed::MissingNumber => out.append("a number is missing"),
            Malformed::NumberTooLarge => out.append("a number is too large"),
            Malformed::MissingDelimiter => out.append("a delimiter is missing"),
            Malformed::MissingSymbol => out.append("a letter or a digit is missing"),
        }
    }

    /// What the error says.
    pub fn message(&self) -> (r: String)
        ensures
            r@ == self.spec_message(),
    {
        let mut out = String::new();
        self.write(&mut out);
        assert(out@ =~= self.spec_message());
        out
    }
}

} // verus!
