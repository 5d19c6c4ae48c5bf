//! Operating-system versions packed into a single integer.

use vstd::prelude::*;
use vstd::string::StringExecFns;

verus! {

/// The operating-system family a version belongs to.
#[allow(non_camel_case_types)]
#[derive(Copy, Clone, Debug, PartialEq, Eq, Structural)]
pub enum Os {
    /// No operating system is known.
    Unknown,
    macOS,
    iOS,
    /// Not yet supported.
    tvOS,
    /// Not yet supported.
    watchOS,
}

impl Os {
    /// The name of the family as it is written.
    pub open spec fn name(self) -> Seq<char> {
        match self {
            Os::Unknown => "none"@,
            Os::macOS => "macOS"@,
            Os::iOS => "iOS"@,
            Os::tvOS => "tvOS"@,
            Os::watchOS => "watchOS"@,
        }
    }

    /// The name of the family as it is written.
    pub fn text(&self) -> (text: &'static str)
        ensures
            text@ == self.name(),
    {
        match self {
            Os::Unknown => "none",
            Os::macOS => "macOS",
            Os::iOS => "iOS",
            Os::tvOS => "tvOS",
            Os::watchOS => "watchOS",
        }
    }
}

/// The character that stands for the digit `d`.
pub open spec fn digit(d: int) -> char {
    if d == 0 {
        '0'
    } else if d == 1 {
        '1'
    } else if d == 2 {
        '2'
    } else if d == 3 {
        '3'
    } else if d == 4 {
        '4'
    } else if d == 5 {
        '5'
    } else if d == 6 {
        '6'
    } else if d == 7 {
        '7'
    } else if d == 8 {
        '8'
    } else {
        '9'
    }
}

/// `n` in decimal digits, without leading zeros.
pub open spec fn decimal(n: int) -> Seq<char>
    decreases n,
{
    if n < 10 {
        seq![digit(n)]
    } else {
        decimal(n / 10).push(digit(n % 10))
    }
}

/// The text of the digit `d`.
fn digit_text(d: u8) -> (text: &'static str)
    requires
        d < 10,
    ensures
        text@ == seq![digit(d as int)],
{
    proof {
        reveal_strlit("0");
        reveal_strlit("1");
        reveal_strlit("2");
        reveal_strlit("3");
        reveal_strlit("4");
        reveal_strlit("5");
        reveal_strlit("6");
        reveal_strlit("7");
        reveal_strlit("8");
        reveal_strlit("9");
    }
    let text = match d {
        0 => "0",
        1 => "1",
        2 => "2",
        3 => "3",
        4 => "4",
        5 => "5",
        6 => "6",
        7 => "7",
        8 => "8",
        _ => "9",
    };
    assert(text@ =~= seq![digit(d as int)]);
    text
}

/// Writes `n` in decimal digits after `text`.
fn append_decimal(text: &mut String, n: u8)
    ensures
        final(text)@ == old(text)@ + decimal(n as int),
{
    proof {
        reveal_with_fuel(decimal, 3);
    }
    if n >= 100 {
        text.append(digit_text(n / 100));
    }
    if n >= 10 {
        text.append(digit_text((n / 10) % 10));
    }
    text.append(digit_text(n % 10));
    assert(text@ =~= old(text)@ + decimal(n as int));
}

/// A major / minor / patch version in the packed form `major * 10000 + minor * 100 + patch`.
/// Minor and patch take two decimal digits each.
pub struct Version(pub Os, pub u32);

impl Version {
    /// The major part: everything above the four low decimal digits, as far as a byte holds it.
    pub open spec fn major(&self) -> int {
        (self.1 as int / 10000) % 256
    }

    /// The minor part: the third and fourth decimal digits from the right.
    pub open spec fn minor(&self) -> int {
        (self.1 as int / 100) % 100
    }

    /// The patch part: the two low decimal digits.
    pub open spec fn patch(&self) -> int {
        self.1 as int % 100
    }

    /// The version as it is written: the family, a space, and the three parts with dots
    /// between them.
    pub open spec fn written(&self) -> Seq<char> {
        self.0.name() + seq![' '] + decimal(self.major()) + seq!['.'] + decimal(self.minor())
            + seq!['.'] + decimal(self.patch())
    }

    /// The major part.
    pub fn get_major(&self) -> (major: u8)
        ensures
            major as int == self.major(),
            self.1 < 2_560_000 ==> major as int == self.1 as int / 10000,
    {
        let high: u32 = self.1 / 10000;
        assert(high & 0xff == high % 256) by (bit_vector);
        (high & 0xff) as u8
    }

    /// The minor part.
    pub fn get_minor(&self) -> (minor: u8)
        ensures
            minor as int == self.minor(),
    {
        ((self.1 / 100) % 100) as u8
    }

    /// The patch part.
    pub fn get_patch(&self) -> (patch: u8)
        ensures
            patch as int == self.patch(),
    {
        (self.1 % 100) as u8
    }

    /// The version as it is written, such as `macOS 10.15.4`.
    pub fn text(&self) -> (text: String)
        ensures
            text@ == self.written(),
    {
        proof {
            reveal_strlit(" ");
            reveal_strlit(".");
        }
        assert(" "@ =~= seq![' ']);
        assert("."@ =~= seq!['.']);
        let mut text = String::from_str(self.0.text());
        text.append(" ");
        append_decimal(&mut text, self.get_major());
        text.append(".");
        append_decimal(&mut text, self.get_minor());
        text.append(".");
        append_decimal(&mut text, self.get_patch());
        text
    }
}

/// Whether `c` is white space, as the Unicode standard lists it.
pub open spec fn is_space(c: char) -> bool {
    let v = c as u32;
    ||| 0x09 <= v <= 0x0D
    ||| v == 0x20
    ||| v == 0x85
    ||| v == 0xA0
    ||| v == 0x1680
    ||| 0x2000 <= v <= 0x200A
    ||| v == 0x2028
    ||| v == 0x2029
    ||| v == 0x202F
    ||| v == 0x205F
    ||| v == 0x3000
}

/// Whether `c` is white space.
fn space(c: char) -> (yes: bool)
    ensures
        yes == is_space(c),
{
    let v = c as u32;
    (0x09 <= v && v <= 0x0D) || v == 0x20 || v == 0x85 || v == 0xA0 || v == 0x1680 || (0x2000 <= v
        && v <= 0x200A) || v == 0x2028 || v == 0x2029 || v == 0x202F || v == 0x205F || v == 0x3000
}

/// Whether `c` is one of the digits `0` to `9`.
pub open spec fn is_digit(c: char) -> bool {
    48 <= c as u32 <= 57
}

/// The number that the digit `c` stands for.
pub open spec fn digit_value(c: char) -> int {
    c as u32 - 48
}

/// The number that `digits` stand for in decimal.
pub open spec fn number(digits: Seq<char>) -> int
    decreases digits.len(),
{
    if digits.len() == 0 {
        0
    } else {
        number(digits.drop_last()) * 10 + digit_value(digits.last())
    }
}

/// `text` without the white space it begins with.
pub open spec fn trim_start(text: Seq<char>) -> Seq<char>
    decreases text.len(),
{
    if text.len() > 0 && is_space(text[0]) {
        trim_start(text.skip(1))
    } else {
        text
    }
}

/// `text` without the white space it ends with.
pub open spec fn trim_end(text: Seq<char>) -> Seq<char>
    decreases text.len(),
{
    if text.len() > 0 && is_space(text.last()) {
        trim_end(text.drop_last())
    } else {
        text
    }
}

/// The number that `digits` stand for, if they are digits, one at least, and the number
/// fits in 32 bits.
pub open spec fn of_digits(digits: Seq<char>) -> Option<u32> {
    if digits.len() > 0 && (forall|i: int| 0 <= i < digits.len() ==> is_digit(digits[i])) && number(
        digits,
    ) <= u32::MAX {
        Some(number(digits) as u32)
    } else {
        None
    }
}

/// The number that `text` stands for: digits, after a plus sign or none, that make a number
/// which 32 bits hold. Anything else stands for no number.
pub open spec fn parsed(text: Seq<char>) -> Option<u32> {
    if text.len() > 0 && text[0] == '+' {
        of_digits(text.skip(1))
    } else {
        of_digits(text)
    }
}

/// The number that one part of a version stands for, white space around it aside.
pub open spec fn part_value(part: Seq<char>) -> Option<u32> {
    parsed(trim_end(trim_start(part)))
}

/// The parts of `text` between its dots, in turn. A text without a dot is one part.
pub open spec fn fields(text: Seq<char>) -> Seq<Seq<char>>
    decreases text.len(),
{
    if text.len() == 0 {
        seq![Seq::empty()]
    } else {
        let front = fields(text.drop_last());
        if text.last() == '.' {
            front.push(Seq::empty())
        } else {
            front.update(front.len() - 1, front.last().push(text.last()))
        }
    }
}

/// The packed form of the version whose parts `parts` stand for: every part must stand
/// for a number, there must be three parts at least, of which the first three count, and
/// the packed form must fit in 32 bits.
pub open spec fn packed(parts: Seq<Seq<char>>) -> Option<u32> {
    if parts.len() >= 3 && (forall|i: int| 0 <= i < parts.len() ==> part_value(parts[i]) is Some) {
        let code = part_value(parts[0])->0 * 10000 + part_value(parts[1])->0 * 100 + part_value(
            parts[2],
        )->0;
        if code <= u32::MAX {
            Some(code as u32)
        } else {
            None
        }
    } else {
        None
    }
}

/// The packed form of the version that `text` gives as numbers with dots between them,
/// such as `10.15.4`.
pub open spec fn product_version(text: Seq<char>) -> Option<u32> {
    packed(fields(text))
}

/// The parts as sequences.
pub open spec fn views(parts: Seq<Vec<char>>) -> Seq<Seq<char>> {
    parts.map_values(|part: Vec<char>| part@)
}

/// Text that begins with `count` characters of white space, and goes on otherwise or
/// not at all, is trimmed of just these at its start.
proof fn lemma_trim_start(text: Seq<char>, count: int)
    requires
        0 <= count <= text.len(),
        forall|k: int| 0 <= k < count ==> is_space(text[k]),
        count == text.len() || !is_space(text[count]),
    ensures
        trim_start(text) == text.skip(count),
    decreases count,
{
    if count > 0 {
        lemma_trim_start(text.skip(1), count - 1);
        assert(text.skip(1).skip(count - 1) == text.skip(count));
    } else {
        assert(text.skip(0) == text);
    }
}

/// Text that ends with white space from `keep` on, and with something else or nothing
/// before, is trimmed of just that at its end.
proof fn lemma_trim_end(text: Seq<char>, keep: int)
    requires
        0 <= keep <= text.len(),
        forall|k: int| keep <= k < text.len() ==> is_space(text[k]),
        keep == 0 || !is_space(text[keep - 1]),
    ensures
        trim_end(text) == text.take(keep),
    decreases text.len() - keep,
{
    if keep < text.len() {
        lemma_trim_end(text.drop_last(), keep);
        assert(text.drop_last().take(keep) == text.take(keep));
    } else {
        assert(text.take(keep) == text);
    }
}

/// Digits stand for no smaller a number than those before the last of them.
proof fn lemma_number_grows(digits: Seq<char>, upto: int)
    requires
        0 <= upto <= digits.len(),
        forall|i: int| 0 <= i < digits.len() ==> is_digit(digits[i]),
    ensures
        0 <= number(digits.take(upto)) <= number(digits),
    decreases digits.len() - upto,
{
    lemma_number_nonnegative(digits.take(upto));
    if upto < digits.len() {
        lemma_number_grows(digits, upto + 1);
        assert(digits.take(upto + 1).drop_last() == digits.take(upto));
    } else {
        assert(digits.take(upto) == digits);
    }
}

/// Digits stand for no negative number.
proof fn lemma_number_nonnegative(digits: Seq<char>)
    requires
        forall|i: int| 0 <= i < digits.len() ==> is_digit(digits[i]),
    ensures
        0 <= number(digits),
    decreases digits.len(),
{
    if digits.len() > 0 {
        lemma_number_nonnegative(digits.drop_last());
    }
}

/// The number that one part of a version stands for.
fn parse_part(part: &Vec<char>) -> (value: Option<u32>)
    ensures
        value == part_value(part@),
{
    let n = part.len();
    let mut a: usize = 0;
    while a < n && space(part[a])
        invariant
            a <= n,
            n == part@.len(),
            forall|k: int| 0 <= k < a ==> is_space(part@[k]),
        decreases n - a,
    {
        a = a + 1;
    }
    let mut b: usize = n;
    while b > a && space(part[b - 1])
        invariant
            a <= b <= n,
            n == part@.len(),
            forall|k: int| b <= k < n ==> is_space(part@[k]),
        decreases b,
    {
        b = b - 1;
    }
    let ghost text = part@.subrange(a as int, b as int);
    proof {
        lemma_trim_start(part@, a as int);
        let tail = part@.skip(a as int);
        assert forall|k: int| b - a <= k < tail.len() implies is_space(tail[k]) by {
            assert(tail[k] == part@[k + a]);
        }
        if b > a {
            assert(tail[b - a - 1] == part@[b - 1]);
        }
        lemma_trim_end(tail, b - a);
        assert(tail.take(b - a) == text);
    }
    let mut j: usize = a;
    if j < b && part[j] == '+' {
        j = j + 1;
    }
    let start = j;
    let ghost digits = part@.subrange(start as int, b as int);
    proof {
        if start > a {
            assert(text[0] == '+');
            assert(text.skip(1) == digits);
        } else {
            assert(text == digits);
            if text.len() > 0 {
                assert(text[0] == part@[a as int]);
            }
        }
    }
    assert(part_value(part@) == of_digits(digits));
    if j == b {
        return None;
    }
    let mut acc: u64 = 0;
    while j < b
        invariant
            start <= j <= b <= n,
            n == part@.len(),
            digits == part@.subrange(start as int, b as int),
            part_value(part@) == of_digits(digits),
            forall|k: int| 0 <= k < j - start ==> is_digit(digits[k]),
            acc == number(digits.take(j - start)),
            acc <= u32::MAX,
        decreases b - j,
    {
        let c = part[j];
        let v = c as u32;
        assert(digits[j - start] == c);
        if v < 48 || v > 57 {
            return None;
        }
        assert(digits.take(j - start + 1).drop_last() == digits.take(j - start));
        acc = acc * 10 + (v - 48) as u64;
        if acc > u32::MAX as u64 {
            proof {
                if forall|i: int| 0 <= i < digits.len() ==> is_digit(digits[i]) {
                    lemma_number_grows(digits, j - start + 1);
                }
            }
            return None;
        }
        j = j + 1;
    }
    assert(digits.take(j - start) == digits);
    Some(acc as u32)
}

/// The parts of `text` between its dots, in turn.
fn split(text: &str) -> (parts: Vec<Vec<char>>)
    ensures
        views(parts@) == fields(text@),
{
    let n = text.unicode_len();
    let mut done: Vec<Vec<char>> = Vec::new();
    let mut current: Vec<char> = Vec::new();
    let mut i: usize = 0;
    assert(text@.take(0) == Seq::<char>::empty());
    assert(views(done@).push(current@) =~= seq![Seq::<char>::empty()]);
    while i < n
        invariant
            i <= n,
            n == text@.len(),
            fields(text@.take(i as int)) == views(done@).push(current@),
        decreases n - i,
    {
        let c = text.get_char(i);
        let ghost front = fields(text@.take(i as int));
        let ghost before = views(done@);
        let ghost held = current@;
        assert(text@.take(i + 1).drop_last() == text@.take(i as int));
        assert(text@.take(i + 1).last() == c);
        if c == '.' {
            done.push(current);
            current = Vec::new();
            assert(views(done@) =~= before.push(held));
            assert(views(done@).push(current@) =~= front.push(Seq::empty()));
        } else {
            current.push(c);
            assert(views(done@).push(current@) =~= front.update(
                front.len() - 1,
                front.last().push(c),
            ));
        }
        i = i + 1;
    }
    assert(text@.take(i as int) == text@);
    let ghost before = views(done@);
    let ghost held = current@;
    done.push(current);
    assert(views(done@) =~= before.push(held));
    done
}

impl Version {
    /// The version of `os` that `text` gives as numbers with dots between them, as a
    /// system reports its own; none where `text` gives no version.
    pub fn from_product_version(os: Os, text: &str) -> (version: Option<Version>)
        ensures
            match product_version(text@) {
                Some(code) => version == Some(Version(os, code)),
                None => version is None,
            },
    {
        let parts = split(text);
        let mut values: Vec<u32> = Vec::new();
        let mut i: usize = 0;
        while i < parts.len()
            invariant
                i <= parts.len(),
                views(parts@) == fields(text@),
                values@.len() == i,
                forall|k: int| 0 <= k < i ==> part_value(fields(text@)[k]) == Some(values@[k]),
            decreases parts.len() - i,
        {
            assert(views(parts@)[i as int] == parts@[i as int]@);
            match parse_part(&parts[i]) {
                None => {
                    assert(part_value(fields(text@)[i as int]) is None);
                    return None;
                },
                Some(value) => {
                    values.push(value);
                },
            }
            i = i + 1;
        }
        assert(views(parts@).len() == parts@.len());
        if values.len() < 3 {
            return None;
        }
        proof {
            let found = fields(text@);
            assert(part_value(found[0]) == Some(values@[0]));
            assert(part_value(found[1]) == Some(values@[1]));
            assert(part_value(found[2]) == Some(values@[2]));
            assert forall|k: int| 0 <= k < found.len() implies part_value(found[k]) is Some by {
                assert(part_value(found[k]) == Some(values@[k]));
            }
        }
        let code: u64 = values[0] as u64 * 10000 + values[1] as u64 * 100 + values[2] as u64;
        if code > u32::MAX as u64 {
            return None;
        }
        Some(Version(os, code as u32))
    }
}

} // verus!
