//! Text: comparison, prefixes, and the decimal and hexadecimal renderings the controller writes.

use vstd::prelude::*;
use vstd::string::*;

verus! {

/// The character of one decimal or hexadecimal digit, lowercase.
pub open spec fn digit(d: nat) -> char {
    if d == 0 { '0' } else if d == 1 { '1' } else if d == 2 { '2' } else if d == 3 { '3' }
    else if d == 4 { '4' } else if d == 5 { '5' } else if d == 6 { '6' } else if d == 7 { '7' }
    else if d == 8 { '8' } else if d == 9 { '9' } else if d == 10 { 'a' } else if d == 11 { 'b' }
    else if d == 12 { 'c' } else if d == 13 { 'd' } else if d == 14 { 'e' } else { 'f' }
}

/// A number in decimal, without padding.
pub open spec fn decimal_digits(n: nat) -> Seq<char>
    decreases n,
{
    if n < 10 {
        seq![digit(n)]
    } else {
        decimal_digits(n / 10).push(digit(n % 10))
    }
}

/// The lowest `width` digits of `n` in the given base, most significant first, zero-padded.
pub open spec fn padded_digits(n: nat, base: nat, width: nat) -> Seq<char>
    decreases width,
{
    if width == 0 || base == 0 {
        Seq::empty()
    } else {
        padded_digits(n / base, base, (width - 1) as nat).push(digit(n % base))
    }
}

/// The one-character text of a digit.
fn digit_text(d: u64) -> (r: &'static str)
    requires
        d < 16,
    ensures
        r@ == seq![digit(d as nat)],
{
    proof {
        reveal_strlit("0");
        reveal_strlit("1");
        reveal_strlit("2");
        reveal_strlit("3");
        reveal_strlit("4");
        reveal_strlit("5");
        reveal_strlit("6");
        reveal_strlit("7");
        reveal_strlit("8");
        reveal_strlit("9");
        reveal_strlit("a");
        reveal_strlit("b");
        reveal_strlit("c");
        reveal_strlit("d");
        reveal_strlit("e");
        reveal_strlit("f");
    }
    let r = match d {
        0 => "0",
        1 => "1",
        2 => "2",
        3 => "3",
        4 => "4",
        5 => "5",
        6 => "6",
        7 => "7",
        8 => "8",
        9 => "9",
        10 => "a",
        11 => "b",
        12 => "c",
        13 => "d",
        14 => "e",
        _ => "f",
    };
    assert(r@ =~= seq![digit(d as nat)]);
    r
}

/// Renders a number in decimal.
pub fn decimal(n: u64) -> (r: String)
    ensures
        r@ == decimal_digits(n as nat),
    decreases n,
{
    if n < 10 {
        digit_text(n).to_owned()
    } else {
        let mut r = decimal(n / 10);
        r.append(digit_text(n % 10));
        assert(r@ =~= decimal_digits(n as nat));
        r
    }
}

/// Renders the lowest `width` digits of a number in the given base, zero-padded on the left.
pub fn padded(n: u64, base: u64, width: u64) -> (r: String)
    requires
        2 <= base <= 16,
    ensures
        r@ == padded_digits(n as nat, base as nat, width as nat),
    decreases width,
{
    if width == 0 {
        String::new()
    } else {
        let mut r = padded(n / base, base, width - 1);
        r.append(digit_text(n % base));
        assert(r@ =~= padded_digits(n as nat, base as nat, width as nat));
        r
    }
}

/// A padded rendering is exactly as wide as it was asked to be.
pub proof fn padded_width(n: nat, base: nat, width: nat)
    requires
        base > 0,
    ensures
        padded_digits(n, base, width).len() == width,
    decreases width,
{
    if width > 0 {
        padded_width(n / base, base, (width - 1) as nat);
    }
}

/// How many numbers have a rendering of this width in this base.
pub open spec fn capacity(base: nat, width: nat) -> nat
    decreases width,
{
    if width == 0 {
        1
    } else {
        base * capacity(base, (width - 1) as nat)
    }
}

/// A rendering wide enough for two numbers tells them apart.
pub proof fn padded_is_injective(left: nat, right: nat, base: nat, width: nat)
    requires
        2 <= base <= 16,
        left < capacity(base, width),
        right < capacity(base, width),
        padded_digits(left, base, width) == padded_digits(right, base, width),
    ensures
        left == right,
    decreases width,
{
    if width > 0 {
        let narrower = (width - 1) as nat;
        let room = capacity(base, narrower);
        let left_digits = padded_digits(left / base, base, narrower);
        let right_digits = padded_digits(right / base, base, narrower);
        assert(padded_digits(left, base, width).last() == digit(left % base));
        assert(padded_digits(right, base, width).last() == digit(right % base));
        assert(padded_digits(left, base, width).drop_last() =~= left_digits);
        assert(padded_digits(right, base, width).drop_last() =~= right_digits);
        assert(left % base < 16 && right % base < 16) by (nonlinear_arith)
            requires
                2 <= base <= 16,
        ;
        assert(left % base == right % base);
        assert(left / base < room) by (nonlinear_arith)
            requires
                left < base * room,
                base >= 2,
        ;
        assert(right / base < room) by (nonlinear_arith)
            requires
                right < base * room,
                base >= 2,
        ;
        padded_is_injective(left / base, right / base, base, narrower);
        assert(left == base * (left / base) + left % base) by (nonlinear_arith)
            requires
                base >= 2,
        ;
        assert(right == base * (right / base) + right % base) by (nonlinear_arith)
            requires
                base >= 2,
        ;
    }
}

/// Twenty decimal digits, and sixteen hexadecimal ones, hold every `u64`.
pub proof fn every_number_fits(n: u64)
    ensures
        (n as nat) < capacity(10, 20),
        (n as nat) < capacity(16, 16),
{
    assert(capacity(10, 20) == 100000000000000000000) by {
        reveal_with_fuel(capacity, 21);
    }
    assert(capacity(16, 16) == 0x1_0000_0000_0000_0000) by {
        reveal_with_fuel(capacity, 17);
    }
}

/// The characters of a text, in order.
fn characters(text: &str) -> (r: Vec<char>)
    ensures
        r@ == text@,
{
    let mut r: Vec<char> = Vec::new();
    for c in it: text.chars()
        invariant
            it.seq() == text@,
            r@ == text@.take(it.index()),
    {
        r.push(c);
        assert(r@ =~= text@.take(it.index() + 1));
    }
    assert(text@.take(text@.len() as int) =~= text@);
    r
}

/// Whether `text` begins with `prefix`.
pub fn begins_with(text: &str, prefix: &str) -> (r: bool)
    ensures
        r == prefix@.is_prefix_of(text@),
{
    let wanted = characters(prefix);
    let available = characters(text);
    if available.len() < wanted.len() {
        return false;
    }
    let mut i: usize = 0;
    while i < wanted.len()
        invariant
            i <= wanted.len() <= available.len(),
            wanted@ == prefix@,
            available@ == text@,
            forall|j: int| 0 <= j < i ==> prefix@[j] == text@[j],
        decreases wanted.len() - i,
    {
        if wanted[i] != available[i] {
            assert(prefix@[i as int] != text@.subrange(0, prefix@.len() as int)[i as int]);
            return false;
        }
        i = i + 1;
    }
    assert(prefix@ =~= text@.subrange(0, prefix@.len() as int));
    true
}

/// Whether two texts are the same, character for character.
pub fn same(left: &str, right: &str) -> (r: bool)
    ensures
        r == (left@ == right@),
{
    let r = begins_with(left, right) && begins_with(right, left);
    assert(r ==> left@ =~= right@);
    r
}

/// Numbers separated by commas, as a list is written.
pub open spec fn separated(numbers: Seq<u64>) -> Seq<char>
    decreases numbers.len(),
{
    if numbers.len() == 0 {
        Seq::empty()
    } else if numbers.len() == 1 {
        decimal_digits(numbers[0] as nat)
    } else {
        separated(numbers.drop_last()) + ", "@ + decimal_digits(numbers.last() as nat)
    }
}

/// Numbers as a bracketed list.
pub fn listed(numbers: &Vec<u64>) -> (r: String)
    ensures
        r@ == "["@ + separated(numbers@) + "]"@,
{
    let mut inner = String::new();
    let mut i: usize = 0;
    while i < numbers.len()
        invariant
            i <= numbers.len(),
            inner@ == separated(numbers@.take(i as int)),
        decreases numbers.len() - i,
    {
        let ghost before = inner@;
        if i > 0 {
            inner.append(", ");
        }
        let digits = decimal(numbers[i]);
        inner.append(digits.as_str());
        proof {
            let taken = numbers@.take(i + 1);
            assert(taken.drop_last() =~= numbers@.take(i as int));
            assert(taken.last() == numbers@[i as int]);
            if i == 0 {
                assert(inner@ =~= decimal_digits(numbers@[0] as nat));
            } else {
                assert(inner@ =~= before + ", "@ + decimal_digits(numbers@[i as int] as nat));
            }
        }
        i = i + 1;
    }
    assert(numbers@.take(numbers.len() as int) =~= numbers@);
    let mut r = "[".to_owned();
    r.append(inner.as_str());
    r.append("]");
    r
}

/// What a digit's character stands for.
pub open spec fn digit_value(c: char) -> nat {
    match c {
        '0' => 0,
        '1' => 1,
        '2' => 2,
        '3' => 3,
        '4' => 4,
        '5' => 5,
        '6' => 6,
        '7' => 7,
        '8' => 8,
        '9' => 9,
        'a' => 10,
        'b' => 11,
        'c' => 12,
        'd' => 13,
        'e' => 14,
        _ => 15,
    }
}

/// The number some digits make in a base, read from the most significant one.
pub open spec fn value_of(digits: Seq<char>, base: nat) -> nat
    decreases digits.len(),
{
    if digits.len() == 0 {
        0
    } else {
        value_of(digits.drop_last(), base) * base + digit_value(digits.last())
    }
}

proof fn decimal_reads_back(n: nat)
    ensures
        value_of(decimal_digits(n), 10) == n,
        decimal_digits(n).len() > 0,
        n > 0 ==> decimal_digits(n)[0] != '0',
        decimal_digits(n).len() > 1 ==> n > 0,
    decreases n,
{
    reveal_with_fuel(value_of, 2);
    if n < 10 {
        assert(decimal_digits(n).drop_last() =~= Seq::empty());
    } else {
        decimal_reads_back(n / 10);
        assert(decimal_digits(n).drop_last() =~= decimal_digits(n / 10));
        assert(decimal_digits(n)[0] == decimal_digits(n / 10)[0]);
    }
}

/// A number in decimal reads back as that number, and is written without a leading zero.
pub proof fn a_decimal_reads_back(n: u64, r: String)
    requires
        call_ensures(decimal, (n,), r),
    ensures
        value_of(r@, 10) == n,
        r@.len() > 0,
        n > 0 ==> r@[0] != '0',
        n == 0 ==> r@.len() == 1,
{
    decimal_reads_back(n as nat);
}

proof fn padded_reads_back(n: nat, base: nat, width: nat)
    requires
        2 <= base <= 16,
        n < capacity(base, width),
    ensures
        value_of(padded_digits(n, base, width), base) == n,
        padded_digits(n, base, width).len() == width,
    decreases width,
{
    padded_width(n, base, width);
    if width > 0 {
        let narrower = (width - 1) as nat;
        let room = capacity(base, narrower);
        assert(n / base < room) by (nonlinear_arith)
            requires
                n < base * room,
                base >= 2,
        ;
        assert(n % base < 16) by (nonlinear_arith)
            requires
                2 <= base <= 16,
        ;
        padded_reads_back(n / base, base, narrower);
        assert(padded_digits(n, base, width).drop_last() =~= padded_digits(
            n / base,
            base,
            narrower,
        ));
        assert(n == (n / base) * base + n % base) by (nonlinear_arith)
            requires
                base >= 2,
        ;
    }
}

/// A number padded to a width that holds it is exactly as wide and reads back as that number.
pub proof fn a_padded_number_reads_back(n: u64, base: u64, width: u64, r: String)
    requires
        2 <= base <= 16,
        (n as nat) < capacity(base as nat, width as nat),
        call_ensures(padded, (n, base, width), r),
    ensures
        r@.len() == width,
        value_of(r@, base as nat) == n,
{
    padded_reads_back(n as nat, base as nat, width as nat);
}

/// A text begins with a prefix exactly where it is the prefix and something behind it, and two texts
/// are the same exactly where each begins with the other.
pub proof fn a_text_begins_with_what_it_continues(
    text: &str,
    prefix: &str,
    begins: bool,
    back: bool,
    alike: bool,
)
    requires
        call_ensures(begins_with, (text, prefix), begins),
        call_ensures(begins_with, (prefix, text), back),
        call_ensures(same, (text, prefix), alike),
    ensures
        begins <==> exists|rest: Seq<char>| text@ == #[trigger] (prefix@ + rest),
        alike <==> text@ == prefix@,
        alike <==> begins && back,
{
    if begins {
        let rest = text@.subrange(prefix@.len() as int, text@.len() as int);
        assert(text@ =~= prefix@ + rest);
    }
    if exists|rest: Seq<char>| text@ == #[trigger] (prefix@ + rest) {
        let rest = choose|rest: Seq<char>| text@ == #[trigger] (prefix@ + rest);
        assert(text@.subrange(0, prefix@.len() as int) =~= prefix@);
    }
    if begins && back {
        assert(text@ =~= prefix@);
    }
}

/// A list names its numbers one after the other: nothing between the brackets where there is none, a
/// number alone as it is, and one more behind a comma and a space.
pub proof fn a_list_grows_by_its_next_number(
    numbers: &Vec<u64>,
    shorter: &Vec<u64>,
    r: String,
    before: String,
    last: String,
)
    requires
        numbers@.len() > 0,
        shorter@ == numbers@.drop_last(),
        call_ensures(listed, (numbers,), r),
        call_ensures(listed, (shorter,), before),
        call_ensures(decimal, (numbers@.last(),), last),
    ensures
        shorter@.len() == 0 ==> before@ == "["@ + "]"@,
        r@ == before@.subrange(0, before@.len() - 1) + (if shorter@.len() == 0 {
            Seq::empty()
        } else {
            ", "@
        }) + last@ + "]"@,
{
    reveal_strlit("]");
    reveal_strlit("[");
    assert(before@.subrange(0, before@.len() - 1) =~= "["@ + separated(shorter@));
    if shorter@.len() == 0 {
        assert(before@ =~= "["@ + "]"@);
        assert(numbers@[0] == numbers@.last());
        assert(r@ =~= before@.subrange(0, before@.len() - 1) + Seq::<char>::empty() + last@ + "]"@);
    } else {
        assert(r@ =~= before@.subrange(0, before@.len() - 1) + ", "@ + last@ + "]"@);
    }
}

} // verus!
