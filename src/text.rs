//! Rendering numbers and byte strings as text, for the human-readable
//! forms of reports and their fields.
use vstd::prelude::*;
use vstd::string::StringExecFns;

verus! {

/// The digits of base 16, lowercase; the first ten are those of base 10.
pub open spec fn digit_chars() -> Seq<char> {
    seq!['0', '1', '2', '3', '4', '5', '6', '7', '8', '9', 'a', 'b', 'c', 'd', 'e', 'f']
}

/// `n` in decimal, without leading zeros.
pub open spec fn decimal(n: nat) -> Seq<char>
    decreases n,
{
    if n < 10 {
        seq![digit_chars()[n as int]]
    } else {
        decimal(n / 10) + seq![digit_chars()[(n % 10) as int]]
    }
}

/// `n` in lowercase hexadecimal, without leading zeros.
pub open spec fn hexadecimal(n: nat) -> Seq<char>
    decreases n,
{
    if n < 16 {
        seq![digit_chars()[n as int]]
    } else {
        hexadecimal(n / 16) + seq![digit_chars()[(n % 16) as int]]
    }
}

/// A byte as two lowercase hexadecimal digits.
pub open spec fn hex_byte(b: u8) -> Seq<char> {
    seq![digit_chars()[(b / 16) as int], digit_chars()[(b % 16) as int]]
}

/// The bytes of `s`, each as two digits and a space, with a line break
/// before every sixteenth.
pub open spec fn hexdump_rows(s: Seq<u8>) -> Seq<char>
    decreases s.len(),
{
    if s.len() == 0 {
        Seq::empty()
    } else {
        let i = s.len() - 1;
        hexdump_rows(s.drop_last()) + (if i % 16 == 0 {
            seq!['\n']
        } else {
            Seq::empty()
        }) + hex_byte(s.last()) + seq![' ']
    }
}

/// The rows of `s` followed by a line break.
pub open spec fn hexdump(s: Seq<u8>) -> Seq<char> {
    hexdump_rows(s) + seq!['\n']
}

/// `true` or `false`.
pub open spec fn bool_text(b: bool) -> Seq<char> {
    if b {
        seq!['t', 'r', 'u', 'e']
    } else {
        seq!['f', 'a', 'l', 's', 'e']
    }
}

fn digit_str(d: u64) -> (r: &'static str)
    requires
        d < 16,
    ensures
        r@ == seq![digit_chars()[d as int]],
{
    proof {
        reveal_strlit("0");
        reveal_strlit("1");
        reveal_strlit("2");
        reveal_strlit("3");
        reveal_strlit("4");
        reveal_strlit("5");
        reveal_strlit("6");
        reveal_strlit("7");
        reveal_strlit("8");
        reveal_strlit("9");
        reveal_strlit("a");
        reveal_strlit("b");
        reveal_strlit("c");
        reveal_strlit("d");
        reveal_strlit("e");
        reveal_strlit("f");
    }
    let r = match d {
        0 => "0",
        1 => "1",
        2 => "2",
        3 => "3",
        4 => "4",
        5 => "5",
        6 => "6",
        7 => "7",
        8 => "8",
        9 => "9",
        10 => "a",
        11 => "b",
        12 => "c",
        13 => "d",
        14 => "e",
        _ => "f",
    };
    assert(r@ =~= seq![digit_chars()[d as int]]);
    r
}

/// Appends `x` in decimal.
pub fn push_decimal(out: &mut String, x: u64)
    ensures
        final(out)@ == old(out)@ + decimal(x as nat),
    decreases x,
{
    if x >= 10 {
        push_decimal(out, x / 10);
    }
    out.append(digit_str(x % 10));
    proof {
        if x >= 10 {
            assert(final(out)@ =~= old(out)@ + decimal(x as nat));
        } else {
            assert(final(out)@ =~= old(out)@ + decimal(x as nat));
        }
    }
}

/// Appends `x` in lowercase hexadecimal.
pub fn push_hexadecimal(out: &mut String, x: u64)
    ensures
        final(out)@ == old(out)@ + hexadecimal(x as nat),
    decreases x,
{
    if x >= 16 {
        push_hexadecimal(out, x / 16);
    }
    out.append(digit_str(x % 16));
    proof {
        assert(final(out)@ =~= old(out)@ + hexadecimal(x as nat));
    }
}

/// Appends `true` or `false`.
pub fn push_bool(out: &mut String, b: bool)
    ensures
        final(out)@ == old(out)@ + bool_text(b),
{
    if b {
        out.append("true");
        proof {
            reveal_strlit("true");
        }
    } else {
        out.append("false");
        proof {
            reveal_strlit("false");
        }
    }
    assert(final(out)@ =~= old(out)@ + bool_text(b));
}

/// Appends the hex dump of `s`.
pub fn push_hexdump(out: &mut String, s: &[u8])
    ensures
        final(out)@ == old(out)@ + hexdump(s@),
{
    let ghost start = out@;
    let mut i: usize = 0;
    proof {
        reveal_strlit("\n");
        reveal_strlit(" ");
        assert(s@.subrange(0, 0) =~= Seq::<u8>::empty());
        assert(start =~= start + hexdump_rows(s@.subrange(0, 0)));
    }
    while i < s.len()
        invariant
            i <= s@.len(),
            out@ == start + hexdump_rows(s@.subrange(0, i as int)),
        decreases s@.len() - i,
    {
        let ghost before = out@;
        let b = s[i];
        if i % 16 == 0 {
            out.append("\n");
        }
        out.append(digit_str((b / 16) as u64));
        out.append(digit_str((b % 16) as u64));
        out.append(" ");
        proof {
            reveal_strlit("\n");
            reveal_strlit(" ");
            let t = s@.subrange(0, i + 1);
            assert(t.drop_last() =~= s@.subrange(0, i as int));
            assert(t.last() == b);
            let sep = if i % 16 == 0 {
                seq!['\n']
            } else {
                Seq::empty()
            };
            assert(hexdump_rows(t) == hexdump_rows(s@.subrange(0, i as int)) + sep + hex_byte(b)
                + seq![' ']);
            assert(out@ =~= start + hexdump_rows(t));
        }
        i = i + 1;
    }
    out.append("\n");
    proof {
        reveal_strlit("\n");
        assert(s@.subrange(0, s@.len() as int) =~= s@);
        assert(final(out)@ =~= old(out)@ + hexdump(s@));
    }
}

} // verus!
