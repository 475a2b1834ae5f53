//! Numbers as text.
use vstd::prelude::*;
use vstd::string::StringExecFns;

verus! {

/// The character of the decimal digit `d`, `0 <= d <= 9`.
pub open spec fn digit(d: int) -> char {
    (48 + d) as u8 as char
}

/// The decimal digits of `n`, most significant first, without leading zeros.
pub open spec fn decimal(n: nat) -> Seq<char>
    decreases n,
{
    if n < 10 {
        seq![digit(n as int)]
    } else {
        decimal(n / 10).push(digit((n % 10) as int))
    }
}

/// `count` spaces.
pub open spec fn spaces(count: int) -> Seq<char> {
    Seq::new(
        if count > 0 {
            count as nat
        } else {
            0
        },
        |i: int| ' ',
    )
}

/// `text` moved to the right end of a field `width` wide by spaces before
/// it; unchanged if it is as long as that or longer.
pub open spec fn right_aligned(text: Seq<char>, width: int) -> Seq<char> {
    spaces(width - text.len()) + text
}

/// A number has as many digits as its tenth and one more.
pub proof fn lemma_decimal_len(n: nat)
    ensures
        decimal(n).len() >= 1,
        n >= 10 ==> decimal(n).len() == decimal(n / 10).len() + 1,
        n < 10 ==> decimal(n).len() == 1,
    decreases n,
{
    if n >= 10 {
        lemma_decimal_len(n / 10);
    }
}

/// `String::push`: the string with one more character at its end.
#[verifier::external_body]
fn push_char(text: &mut String, c: char)
    ensures
        final(text)@ == old(text)@.push(c),
{
    text.push(c)
}

/// Appends the decimal digits of `n` to `text`.
pub fn push_decimal(text: &mut String, n: u64)
    ensures
        final(text)@ == old(text)@ + decimal(n as nat),
    decreases n,
{
    if n >= 10 {
        push_decimal(text, n / 10);
    }
    let d: u8 = (n % 10) as u8;
    push_char(text, (48 + d) as char);
    assert(text@ =~= old(text)@ + decimal(n as nat));
}

/// The number of decimal digits of `n`.
pub fn decimal_len(n: u64) -> (len: usize)
    ensures
        len == decimal(n as nat).len(),
        1 <= len <= 20,
{
    let mut len: usize = 1;
    let mut rest: u64 = n;
    assert(rest * pow10(0) == n) by (nonlinear_arith)
        requires
            rest == n,
            pow10(0) == 1,
    ;
    while rest >= 10
        invariant
            1 <= len,
            decimal(n as nat).len() == decimal(rest as nat).len() + len - 1,
            rest * pow10((len - 1) as nat) <= n,
            len <= 20,
        decreases rest,
    {
        proof {
            lemma_decimal_len(rest as nat);
            lemma_pow10_step(rest as int, (len - 1) as nat, n as int);
        }
        rest = rest / 10;
        len += 1;
    }
    proof {
        lemma_decimal_len(rest as nat);
    }
    len
}

/// Ten to the power `e`.
pub open spec fn pow10(e: nat) -> nat
    decreases e,
{
    if e == 0 {
        1
    } else {
        10 * pow10((e - 1) as nat)
    }
}

/// A number of at least two digits that, shifted left by `e` digits, is no
/// more than a 64-bit number has been shifted by fewer than 19, and its tenth
/// shifted by one more is no more than that number either.
proof fn lemma_pow10_step(rest: int, e: nat, n: int)
    requires
        rest >= 10,
        rest * pow10(e) <= n,
        n <= u64::MAX,
    ensures
        e < 19,
        (rest / 10) * pow10(e + 1) <= n,
{
    lemma_pow10_grows(e);
    assert((rest / 10) * pow10(e + 1) <= rest * pow10(e)) by (nonlinear_arith)
        requires
            rest >= 0,
            pow10(e + 1) == 10 * pow10(e),
            pow10(e) >= 0,
    {
        assert((rest / 10) * 10 <= rest);
        assert((rest / 10) * (10 * pow10(e)) == ((rest / 10) * 10) * pow10(e));
    }
    if e >= 19 {
        lemma_pow10_monotone(19, e);
        assert(pow10(19) == 10_000_000_000_000_000_000nat) by {
            reveal_with_fuel(pow10, 20);
        }
        assert(rest * pow10(e) >= 10 * pow10(19)) by (nonlinear_arith)
            requires
                rest >= 10,
                pow10(e) >= pow10(19),
                pow10(19) >= 0,
        ;
    }
}

/// A power of ten is positive.
proof fn lemma_pow10_grows(e: nat)
    ensures
        pow10(e) >= 1,
        pow10(e + 1) == 10 * pow10(e),
    decreases e,
{
    if e > 0 {
        lemma_pow10_grows((e - 1) as nat);
    }
}

/// The powers of ten grow with the exponent.
proof fn lemma_pow10_monotone(a: nat, b: nat)
    requires
        a <= b,
    ensures
        pow10(a) <= pow10(b),
    decreases b,
{
    if a < b {
        lemma_pow10_monotone(a, (b - 1) as nat);
        lemma_pow10_grows((b - 1) as nat);
    }
}

/// Appends `count` spaces to `text`.
pub fn push_spaces(text: &mut String, count: usize)
    ensures
        final(text)@ == old(text)@ + spaces(count as int),
{
    let mut i: usize = 0;
    while i < count
        invariant
            i <= count,
            text@ == old(text)@ + spaces(i as int),
        decreases count - i,
    {
        push_char(text, ' ');
        i += 1;
        assert(text@ =~= old(text)@ + spaces(i as int));
    }
    assert(text@ =~= old(text)@ + spaces(count as int));
}

/// Appends the decimal digits of `n` to `text`, right-aligned in a field
/// `width` wide.
pub fn push_decimal_aligned(text: &mut String, n: u64, width: usize)
    ensures
        final(text)@ == old(text)@ + right_aligned(decimal(n as nat), width as int),
{
    let len = decimal_len(n);
    if len < width {
        push_spaces(text, width - len);
    } else {
        assert(spaces(width - len) =~= Seq::<char>::empty());
    }
    push_decimal(text, n);
    assert(text@ =~= old(text)@ + right_aligned(decimal(n as nat), width as int));
}

/// The text of `literal` as an owned string.
pub fn owned(literal: &str) -> (text: String)
    ensures
        text@ == literal@,
{
    String::from_str(literal)
}

} // verus!
