//! Short exercises: a number sequence, a search in an array, and text that grows.
use vstd::prelude::*;
use vstd::arithmetic::div_mod::{lemma_fundamental_div_mod, lemma_mod_multiples_basic};
use vstd::string::StringExecFns;

verus! {

/// The last place of the sequence whose number fits the result type of [`fibonacci`].
pub const LAST_FIBONACCI: i32 = 46;

/// The number at place `n` of the sequence 1, 1, 2, 3, 5, 8, ...; places are counted from one,
/// and the number at any place before the third is one.
pub open spec fn fibonacci_number(n: int) -> int
    decreases n,
{
    if n < 3 {
        1
    } else {
        fibonacci_number(n - 1) + fibonacci_number(n - 2)
    }
}

/// The number at place `n` of the sequence.
pub fn fibonacci(n: i32) -> (value: i32)
    requires
        n <= LAST_FIBONACCI,
    ensures
        value == fibonacci_number(n as int),
{
    if n < 3 {
        return 1;
    }
    let mut prev_value: i32 = 1;
    let mut current_value: i32 = 1;
    let mut place: i32 = 2;
    while place < n
        invariant
            2 <= place <= n <= LAST_FIBONACCI,
            current_value == fibonacci_number(place as int),
            prev_value == fibonacci_number(place - 1),
        decreases n - place,
    {
        proof {
            lemma_fibonacci_grows(place + 1, LAST_FIBONACCI as int);
            lemma_last_fibonacci_number();
        }
        let new_value: i32 = current_value + prev_value;
        prev_value = current_value;
        current_value = new_value;
        place = place + 1;
    }
    current_value
}

/// The sequence never falls, and its numbers are positive.
proof fn lemma_fibonacci_grows(i: int, j: int)
    requires
        i <= j,
    ensures
        0 < fibonacci_number(i) <= fibonacci_number(j),
    decreases j,
{
    if j < 3 {
    } else if i == j {
        lemma_fibonacci_grows(i - 1, j - 1);
        lemma_fibonacci_grows(i - 2, j - 2);
    } else {
        lemma_fibonacci_grows(i, j - 1);
        lemma_fibonacci_grows(j - 2, j - 2);
    }
}

/// The number at the last place that fits.
proof fn lemma_last_fibonacci_number()
    ensures
        fibonacci_number(LAST_FIBONACCI as int) == 1_836_311_903,
{
    assert(fibonacci_number(1) == 1);
    assert(fibonacci_number(2) == 1);
    assert(fibonacci_number(3) == 2);
    assert(fibonacci_number(4) == 3);
    assert(fibonacci_number(5) == 5);
    assert(fibonacci_number(6) == 8);
    assert(fibonacci_number(7) == 13);
    assert(fibonacci_number(8) == 21);
    assert(fibonacci_number(9) == 34);
    assert(fibonacci_number(10) == 55);
    assert(fibonacci_number(11) == 89);
    assert(fibonacci_number(12) == 144);
    assert(fibonacci_number(13) == 233);
    assert(fibonacci_number(14) == 377);
    assert(fibonacci_number(15) == 610);
    assert(fibonacci_number(16) == 987);
    assert(fibonacci_number(17) == 1597);
    assert(fibonacci_number(18) == 2584);
    assert(fibonacci_number(19) == 4181);
    assert(fibonacci_number(20) == 6765);
    assert(fibonacci_number(21) == 10946);
    assert(fibonacci_number(22) == 17711);
    assert(fibonacci_number(23) == 28657);
    assert(fibonacci_number(24) == 46368);
    assert(fibonacci_number(25) == 75025);
    assert(fibonacci_number(26) == 121393);
    assert(fibonacci_number(27) == 196418);
    assert(fibonacci_number(28) == 317811);
    assert(fibonacci_number(29) == 514229);
    assert(fibonacci_number(30) == 832040);
    assert(fibonacci_number(31) == 1346269);
    assert(fibonacci_number(32) == 2178309);
    assert(fibonacci_number(33) == 3524578);
    assert(fibonacci_number(34) == 5702887);
    assert(fibonacci_number(35) == 9227465);
    assert(fibonacci_number(36) == 14930352);
    assert(fibonacci_number(37) == 24157817);
    assert(fibonacci_number(38) == 39088169);
    assert(fibonacci_number(39) == 63245986);
    assert(fibonacci_number(40) == 102334155);
    assert(fibonacci_number(41) == 165580141);
    assert(fibonacci_number(42) == 267914296);
    assert(fibonacci_number(43) == 433494437);
    assert(fibonacci_number(44) == 701408733);
    assert(fibonacci_number(45) == 1134903170);
    assert(fibonacci_number(46) == 1836311903);
}

/// Whether `divisor`, which is not zero, divides `value`.
pub open spec fn divides(divisor: int, value: int) -> bool {
    value % divisor == 0
}

/// The first element of `array` that `divisor` divides, with its index.
pub fn find_thingy(array: &[i32], divisor: &i32) -> (found: Option<(usize, i32)>)
    requires
        *divisor != 0,
    ensures
        match found {
            Some((index, value)) => {
                &&& index < array@.len()
                &&& value == array@[index as int]
                &&& divides(*divisor as int, value as int)
                &&& forall|j: int| 0 <= j < index ==> !divides(*divisor as int, array@[j] as int)
            },
            None => forall|j: int|
                0 <= j < array@.len() ==> !divides(*divisor as int, array@[j] as int),
        },
{
    let mut i: usize = 0;
    while i < array.len()
        invariant
            i <= array@.len(),
            *divisor != 0,
            forall|j: int| 0 <= j < i ==> !divides(*divisor as int, array@[j] as int),
        decreases array@.len() - i,
    {
        if is_multiple(array[i], *divisor) {
            return Some((i, array[i]));
        }
        i = i + 1;
    }
    None
}

/// Tells whether `divisor` divides `value`.
fn is_multiple(value: i32, divisor: i32) -> (yes: bool)
    requires
        divisor != 0,
    ensures
        yes == divides(divisor as int, value as int),
{
    proof {
        lemma_divides_magnitudes(divisor as int, value as int);
    }
    magnitude(value) % magnitude(divisor) == 0
}

/// The distance of a number from zero.
fn magnitude(x: i32) -> (m: u32)
    ensures
        m as int == distance_from_zero(x as int),
{
    if x < 0 {
        (-(x as i64)) as u32
    } else {
        x as u32
    }
}

/// The distance of a number from zero.
spec fn distance_from_zero(x: int) -> int {
    if x < 0 {
        -x
    } else {
        x
    }
}

/// Signs play no part in whether one number divides another.
proof fn lemma_divides_magnitudes(divisor: int, value: int)
    requires
        divisor != 0,
    ensures
        divides(divisor, value) == divides(distance_from_zero(divisor), distance_from_zero(value)),
{
    let d: int = distance_from_zero(divisor);
    let v: int = distance_from_zero(value);
    if divides(divisor, value) {
        let q: int = value / divisor;
        lemma_fundamental_div_mod(value, divisor);
        let k: int = distance_from_zero(q);
        assert(v == k * d) by (nonlinear_arith)
            requires
                value == divisor * q,
                d == distance_from_zero(divisor),
                v == distance_from_zero(value),
                k == distance_from_zero(q),
        ;
        lemma_mod_multiples_basic(k, d);
    }
    if divides(d, v) {
        let q: int = v / d;
        lemma_fundamental_div_mod(v, d);
        let k: int = if (value < 0) == (divisor < 0) {
            q
        } else {
            -q
        };
        assert(value == k * divisor) by (nonlinear_arith)
            requires
                v == d * q,
                d == distance_from_zero(divisor),
                v == distance_from_zero(value),
                k == (if (value < 0) == (divisor < 0) {
                    q
                } else {
                    -q
                }),
        ;
        lemma_multiple_has_no_remainder(k, divisor);
    }
}

/// A multiple of a number leaves no remainder when divided by it.
proof fn lemma_multiple_has_no_remainder(k: int, divisor: int)
    requires
        divisor != 0,
    ensures
        (k * divisor) % divisor == 0,
{
    if divisor > 0 {
        lemma_mod_multiples_basic(k, divisor);
    } else {
        let x: int = k * divisor;
        let r: int = x % divisor;
        let q: int = x / divisor;
        lemma_fundamental_div_mod(x, divisor);
        assert(0 <= r < -divisor) by (nonlinear_arith)
            requires
                divisor < 0,
                r == x % divisor,
        ;
        assert(r == (k - q) * divisor) by (nonlinear_arith)
            requires
                x == k * divisor,
                x == divisor * q + r,
        ;
        assert(r == 0) by (nonlinear_arith)
            requires
                r == (k - q) * divisor,
                0 <= r < -divisor,
                divisor < 0,
        ;
    }
}

/// Adds one to a number in place.
pub fn improve_number(n: &mut i32)
    requires
        *old(n) < i32::MAX,
    ensures
        *final(n) == *old(n) + 1,
{
    *n = *n + 1;
}

/// The words that greet `name`.
pub fn greet(name: &str) -> (greeting: String)
    ensures
        greeting@ == "Heyooooo, "@ + name@ + "!"@,
{
    let mut greeting: String = String::from_str("Heyooooo, ");
    greeting.append(name);
    greeting.append("!");
    greeting
}

/// Ends a text with a one.
pub fn enhance_further(s: &mut String)
    ensures
        final(s)@ == old(s)@ + "1"@,
{
    s.append("1");
}

/// Ends a text with three exclamation marks and a one.
pub fn enhance(s: &mut String)
    ensures
        final(s)@ == old(s)@ + "!!!"@ + "1"@,
{
    s.append("!!!");
    enhance_further(s);
}

} // verus!
