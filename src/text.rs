use vstd::prelude::*;

verus! {

/// The characters of `parts`, one part after another.
pub open spec fn joined(parts: Seq<&str>) -> Seq<char>
    decreases parts.len(),
{
    if parts.len() == 0 {
        Seq::empty()
    } else {
        joined(parts.drop_last()) + parts.last()@
    }
}

/// The character of a decimal digit.
pub open spec fn digit_char(d: nat) -> char {
    seq!['0', '1', '2', '3', '4', '5', '6', '7', '8', '9'][d as int]
}

/// Decimal notation of `n`: most significant digit first, no leading zeros.
pub open spec fn decimal(n: nat) -> Seq<char>
    decreases n,
{
    if n < 10 {
        seq![digit_char(n)]
    } else {
        decimal(n / 10) + seq![digit_char(n % 10)]
    }
}

/// Relies on `<[&str]>::concat`, which lays the parts end to end.
#[verifier::external_body]
pub(crate) fn join(parts: &Vec<&str>) -> (r: String)
    ensures
        r@ == joined(parts@),
{
    parts.concat()
}

/// A one-character string holding digit `d`.
fn digit_str(d: u64) -> (r: &'static str)
    requires
        d < 10,
    ensures
        r@ == seq![digit_char(d as nat)],
{
    proof {
        reveal_strlit("0");
        reveal_strlit("1");
        reveal_strlit("2");
        reveal_strlit("3");
        reveal_strlit("4");
        reveal_strlit("5");
        reveal_strlit("6");
        reveal_strlit("7");
        reveal_strlit("8");
        reveal_strlit("9");
    }
    match d {
        0 => "0",
        1 => "1",
        2 => "2",
        3 => "3",
        4 => "4",
        5 => "5",
        6 => "6",
        7 => "7",
        8 => "8",
        _ => "9",
    }
}

/// Appends the decimal digits of `n` to `out`, one part per digit.
pub(crate) fn push_decimal(out: &mut Vec<&str>, n: u64)
    ensures
        joined(final(out)@) == joined(old(out)@) + decimal(n as nat),
    decreases n,
{
    if n >= 10 {
        push_decimal(out, n / 10);
    }
    let ghost before = out@;
    out.push(digit_str(n % 10));
    assert(out@.drop_last() == before);
    assert(decimal(n as nat) == if n < 10 {
        seq![digit_char(n as nat)]
    } else {
        decimal((n / 10) as nat) + seq![digit_char((n % 10) as nat)]
    });
}

/// Appends `s` to `out` as one more part.
pub(crate) fn push_part<'a>(out: &mut Vec<&'a str>, s: &'a str)
    ensures
        joined(final(out)@) == joined(old(out)@) + s@,
{
    let ghost before = out@;
    out.push(s);
    assert(out@.drop_last() == before);
}

/// Decimal notation of `n`.
pub(crate) fn decimal_string(n: u64) -> (r: String)
    ensures
        r@ == decimal(n as nat),
{
    let mut parts: Vec<&str> = Vec::new();
    push_decimal(&mut parts, n);
    assert(joined(Seq::<&str>::empty()) == Seq::<char>::empty());
    join(&parts)
}

} // verus!
