use vstd::prelude::*;

verus! {

/// Ten to the power `p`.
pub open spec fn ten_to(p: nat) -> nat
    decreases p,
{
    if p == 0 {
        1
    } else {
        10 * ten_to((p - 1) as nat)
    }
}

/// The character of the decimal digit `d`.
pub open spec fn digit_char(d: nat) -> char {
    if d == 0 { '0' }
    else if d == 1 { '1' }
    else if d == 2 { '2' }
    else if d == 3 { '3' }
    else if d == 4 { '4' }
    else if d == 5 { '5' }
    else if d == 6 { '6' }
    else if d == 7 { '7' }
    else if d == 8 { '8' }
    else { '9' }
}

/// The decimal digits of `n`, most significant first, without leading zeros.
pub open spec fn decimal(n: nat) -> Seq<char>
    decreases n,
{
    if n < 10 {
        seq![digit_char(n)]
    } else {
        decimal(n / 10).push(digit_char(n % 10))
    }
}

/// The decimal digits of `n`, left-padded with zeros to at least `width` characters.
pub open spec fn padded(n: nat, width: nat) -> Seq<char> {
    let d = decimal(n);
    if d.len() < width {
        Seq::new((width - d.len()) as nat, |i: int| '0') + d
    } else {
        d
    }
}

/// `n` read as a fixed-point number with `precision` decimal places: the
/// integral part, a point, and the fraction padded to `precision` digits.
pub open spec fn fixed_point_text(n: nat, precision: nat) -> Seq<char> {
    decimal(n / ten_to(precision)) + seq!['.'] + padded(n % ten_to(precision), precision)
}

proof fn lemma_ten_to_grows(a: nat, b: nat)
    requires
        a <= b,
    ensures
        ten_to(a) <= ten_to(b),
    decreases b - a,
{
    if a < b {
        lemma_ten_to_grows(a, (b - 1) as nat);
    }
}

fn digit(d: u64) -> (c: char)
    requires
        d < 10,
    ensures
        c == digit_char(d as nat),
{
    if d == 0 { '0' }
    else if d == 1 { '1' }
    else if d == 2 { '2' }
    else if d == 3 { '3' }
    else if d == 4 { '4' }
    else if d == 5 { '5' }
    else if d == 6 { '6' }
    else if d == 7 { '7' }
    else if d == 8 { '8' }
    else { '9' }
}

fn push_decimal(n: u64, out: &mut Vec<char>)
    ensures
        final(out)@ == old(out)@ + decimal(n as nat),
    decreases n,
{
    if n >= 10 {
        push_decimal(n / 10, out);
    }
    out.push(digit(n % 10));
    proof {
        assert(final(out)@ =~= old(out)@ + decimal(n as nat));
    }
}

/// Relies on std's `FromIterator<char>` for `String`: the string of these characters in order.
#[verifier::external_body]
fn string_of(chars: Vec<char>) -> (r: String)
    ensures
        r@ == chars@,
{
    chars.into_iter().collect()
}

/// Renders `n_dec` as a fixed-point number with `precision` decimal places
/// (`1500000000` with precision 9 reads `1.500000000`).
pub fn print_dec(n_dec: u64, precision: u8) -> (r: String)
    requires
        precision <= 19,
    ensures
        r@ == fixed_point_text(n_dec as nat, precision as nat),
{
    let mut base: u64 = 1;
    let mut i: u8 = 0;
    proof {
        reveal_with_fuel(ten_to, 20);
        lemma_ten_to_grows(precision as nat, 19);
    }
    while i < precision
        invariant
            i <= precision <= 19,
            base == ten_to(i as nat),
            ten_to(precision as nat) <= ten_to(19),
            ten_to(19) == 10000000000000000000nat,
        decreases precision - i,
    {
        proof {
            lemma_ten_to_grows((i + 1) as nat, precision as nat);
        }
        base = base * 10;
        i = i + 1;
    }
    let mut out: Vec<char> = Vec::new();
    push_decimal(n_dec / base, &mut out);
    out.push('.');
    let mut frac: Vec<char> = Vec::new();
    push_decimal(n_dec % base, &mut frac);
    let width = precision as usize;
    let mut k: usize = frac.len();
    while k < width
        invariant
            out@ == decimal((n_dec / base) as nat) + seq!['.'] + Seq::new(
                (k - frac@.len()) as nat,
                |j: int| '0',
            ),
            frac@ == decimal((n_dec % base) as nat),
            frac@.len() <= k,
            k == frac@.len() || k <= width,
        decreases width - k,
    {
        out.push('0');
        k = k + 1;
        proof {
            assert(out@ =~= decimal((n_dec / base) as nat) + seq!['.'] + Seq::new(
                (k - frac@.len()) as nat,
                |j: int| '0',
            ));
        }
    }
    let mut j: usize = 0;
    let ghost prefix = out@;
    while j < frac.len()
        invariant
            out@ == prefix + frac@.subrange(0, j as int),
            j <= frac@.len(),
        decreases frac.len() - j,
    {
        out.push(frac[j]);
        j = j + 1;
        proof {
            assert(out@ =~= prefix + frac@.subrange(0, j as int));
        }
    }
    proof {
        assert(frac@.subrange(0, frac@.len() as int) =~= frac@);
        let p = padded((n_dec % base) as nat, precision as nat);
        if frac@.len() < width {
            assert(prefix =~= decimal((n_dec / base) as nat) + seq!['.'] + Seq::new(
                (width - frac@.len()) as nat,
                |j: int| '0',
            ));
        } else {
            assert(prefix =~= decimal((n_dec / base) as nat) + seq!['.']);
        }
        assert(out@ =~= fixed_point_text(n_dec as nat, precision as nat));
    }
    string_of(out)
}

} // verus!
