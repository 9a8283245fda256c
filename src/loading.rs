//! The progress line the boot stage prints for each image it loads.
use vstd::prelude::*;
use vstd::string::*;

verus! {

/// The digit characters, by value.
pub open spec fn digit_chars() -> Seq<char> {
    seq!['0', '1', '2', '3', '4', '5', '6', '7', '8', '9', 'a', 'b', 'c', 'd', 'e', 'f']
}

/// `n` written in base `radix` (2 to 16) with lower-case digits and no leading zeros.
pub open spec fn radix_digits(n: nat, radix: nat) -> Seq<char>
    decreases n,
    via radix_digits_decreases
{
    if n < radix || radix < 2 {
        seq![digit_chars()[n as int]]
    } else {
        radix_digits(n / radix, radix) + seq![digit_chars()[(n % radix) as int]]
    }
}

#[via_fn]
proof fn radix_digits_decreases(n: nat, radix: nat) {
    if !(n < radix || radix < 2) {
        assert(n / radix < n) by (nonlinear_arith)
            requires
                n >= radix,
                radix >= 2,
        ;
    }
}

/// The line announcing that `len` bytes of `name` are loaded from flash offset `pos`.
pub open spec fn loading_line(name: Seq<char>, pos: nat, len: nat) -> Seq<char> {
    "load "@ + radix_digits(len, 10) + " bytes from 0x"@ + radix_digits(pos, 16) + " for "@ + name
}

fn digit_str(d: usize) -> (r: &'static str)
    requires
        d < 16,
    ensures
        r@ == seq![digit_chars()[d as int]],
{
    proof {
        reveal_strlit("0");
        reveal_strlit("1");
        reveal_strlit("2");
        reveal_strlit("3");
        reveal_strlit("4");
        reveal_strlit("5");
        reveal_strlit("6");
        reveal_strlit("7");
        reveal_strlit("8");
        reveal_strlit("9");
        reveal_strlit("a");
        reveal_strlit("b");
        reveal_strlit("c");
        reveal_strlit("d");
        reveal_strlit("e");
        reveal_strlit("f");
    }
    match d {
        0 => "0",
        1 => "1",
        2 => "2",
        3 => "3",
        4 => "4",
        5 => "5",
        6 => "6",
        7 => "7",
        8 => "8",
        9 => "9",
        10 => "a",
        11 => "b",
        12 => "c",
        13 => "d",
        14 => "e",
        _ => "f",
    }
}

/// Appends `n` in base `radix` to `s`.
fn append_radix(s: &mut String, n: usize, radix: usize)
    requires
        2 <= radix <= 16,
    ensures
        final(s)@ == old(s)@ + radix_digits(n as nat, radix as nat),
    decreases n,
{
    if n < radix {
        s.append(digit_str(n));
    } else {
        assert(n / radix < n) by (nonlinear_arith)
            requires
                n >= radix,
                radix >= 2,
        ;
        append_radix(s, n / radix, radix);
        s.append(digit_str(n % radix));
        assert(final(s)@ =~= old(s)@ + radix_digits(n as nat, radix as nat));
    }
}

/// The line announcing that `len` bytes of the image `name` are loaded from
/// flash offset `pos`, which is written in hexadecimal.
pub fn log_loading(name: &str, pos: u32, len: usize) -> (r: String)
    ensures
        r@ == loading_line(name@, pos as nat, len as nat),
{
    let mut s = String::from_str("load ");
    append_radix(&mut s, len, 10);
    s.append(" bytes from 0x");
    append_radix(&mut s, pos as usize, 16);
    s.append(" for ");
    s.append(name);
    assert(s@ =~= loading_line(name@, pos as nat, len as nat));
    s
}

} // verus!
