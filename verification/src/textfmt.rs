//! Rendering of unsigned integers as decimal or hexadecimal text, with
//! left padding, building the output in a `String`.
use vstd::prelude::*;

verus! {

/// The character for one digit value below sixteen.
pub open spec fn digit_char(d: int) -> char {
    if d == 0 {
        '0'
    } else if d == 1 {
        '1'
    } else if d == 2 {
        '2'
    } else if d == 3 {
        '3'
    } else if d == 4 {
        '4'
    } else if d == 5 {
        '5'
    } else if d == 6 {
        '6'
    } else if d == 7 {
        '7'
    } else if d == 8 {
        '8'
    } else if d == 9 {
        '9'
    } else if d == 10 {
        'a'
    } else if d == 11 {
        'b'
    } else if d == 12 {
        'c'
    } else if d == 13 {
        'd'
    } else if d == 14 {
        'e'
    } else {
        'f'
    }
}

/// The decimal digits of `n`, most significant first, no padding.
pub open spec fn dec_seq(n: int) -> Seq<char>
    decreases n,
{
    if n < 10 {
        seq![digit_char(n)]
    } else {
        dec_seq(n / 10).push(digit_char(n % 10))
    }
}

/// The lower-case hexadecimal digits of `n`, most significant first.
pub open spec fn hex_seq(n: int) -> Seq<char>
    decreases n,
{
    if n < 16 {
        seq![digit_char(n)]
    } else {
        hex_seq(n / 16).push(digit_char(n % 16))
    }
}

/// `s` left-padded with `fill` up to `width` characters; `s` unchanged when
/// it is already that wide.
pub open spec fn pad_left(s: Seq<char>, width: int, fill: char) -> Seq<char> {
    if s.len() >= width {
        s
    } else {
        Seq::new((width - s.len()) as nat, |i: int| fill) + s
    }
}

/// The one-character string for a digit value below sixteen.
pub fn digit_str(d: u64) -> (r: &'static str)
    requires
        d < 16,
    ensures
        r@ == seq![digit_char(d as int)],
{
    let r: &'static str = if d == 0 {
        "0"
    } else if d == 1 {
        "1"
    } else if d == 2 {
        "2"
    } else if d == 3 {
        "3"
    } else if d == 4 {
        "4"
    } else if d == 5 {
        "5"
    } else if d == 6 {
        "6"
    } else if d == 7 {
        "7"
    } else if d == 8 {
        "8"
    } else if d == 9 {
        "9"
    } else if d == 10 {
        "a"
    } else if d == 11 {
        "b"
    } else if d == 12 {
        "c"
    } else if d == 13 {
        "d"
    } else if d == 14 {
        "e"
    } else {
        "f"
    };
    proof {
        reveal_strlit("0");
        reveal_strlit("1");
        reveal_strlit("2");
        reveal_strlit("3");
        reveal_strlit("4");
        reveal_strlit("5");
        reveal_strlit("6");
        reveal_strlit("7");
        reveal_strlit("8");
        reveal_strlit("9");
        reveal_strlit("a");
        reveal_strlit("b");
        reveal_strlit("c");
        reveal_strlit("d");
        reveal_strlit("e");
        reveal_strlit("f");
        assert(r@ =~= seq![digit_char(d as int)]);
    }
    r
}

/// Appends the decimal digits of `n` to `out`.
pub fn append_dec(out: &mut String, n: u64)
    ensures
        final(out)@ == old(out)@ + dec_seq(n as int),
    decreases n,
{
    if n < 10 {
        out.append(digit_str(n));
    } else {
        assert(n / 10 < n);
        append_dec(out, n / 10);
        out.append(digit_str(n % 10));
        proof {
            assert(out@ =~= old(out)@ + dec_seq(n as int));
        }
    }
}

/// Appends the lower-case hexadecimal digits of `n` to `out`.
pub fn append_hex(out: &mut String, n: u64)
    ensures
        final(out)@ == old(out)@ + hex_seq(n as int),
    decreases n,
{
    if n < 16 {
        out.append(digit_str(n));
    } else {
        assert(n / 16 < n);
        append_hex(out, n / 16);
        out.append(digit_str(n % 16));
        proof {
            assert(out@ =~= old(out)@ + hex_seq(n as int));
        }
    }
}

/// The number of decimal digits of `n`, for the small values the report
/// prints in padded fields.
pub fn dec_len(n: u64) -> (r: usize)
    requires
        n < 100000,
    ensures
        r == dec_seq(n as int).len(),
        1 <= r <= 5,
    decreases n,
{
    if n < 10 {
        1
    } else {
        assert(n / 10 < n);
        assert(n / 10 < 10000);
        let prefix = dec_len(n / 10);
        assert(prefix <= 4) by {
            assert(pow10(4) == 10000) by {
                assert(pow10(0) == 1);
                assert(pow10(1) == 10);
                assert(pow10(2) == 100);
                assert(pow10(3) == 1000);
            }
            lemma_dec_seq_len_bound(n as int / 10, 4);
        }
        prefix + 1
    }
}

/// The number of hexadecimal digits of `n`, for padded fields.
pub fn hex_len(n: u64) -> (r: usize)
    requires
        n <= 0xffff,
    ensures
        r == hex_seq(n as int).len(),
        1 <= r <= 4,
    decreases n,
{
    if n < 16 {
        1
    } else {
        assert(n / 16 < n);
        assert(n / 16 <= 0xfff);
        let prefix = hex_len(n / 16);
        assert(prefix <= 3) by {
            assert(pow16(3) == 0x1000) by {
                assert(pow16(0) == 1);
                assert(pow16(1) == 16);
                assert(pow16(2) == 256);
            }
            lemma_hex_seq_len_bound(n as int / 16, 3);
        }
        prefix + 1
    }
}

/// A number below `pow10(k)` has at most `k` decimal digits.
proof fn lemma_dec_seq_len_bound(n: int, k: int)
    requires
        0 <= n,
        1 <= k,
        n < pow10(k),
    ensures
        dec_seq(n).len() <= k,
    decreases k,
{
    if n >= 10 {
        assert(pow10(k) == 10 * pow10(k - 1));
        lemma_dec_seq_len_bound(n / 10, k - 1);
    }
}

/// A number below `pow16(k)` has at most `k` hexadecimal digits.
proof fn lemma_hex_seq_len_bound(n: int, k: int)
    requires
        0 <= n,
        1 <= k,
        n < pow16(k),
    ensures
        hex_seq(n).len() <= k,
    decreases k,
{
    if n >= 16 {
        assert(pow16(k) == 16 * pow16(k - 1));
        lemma_hex_seq_len_bound(n / 16, k - 1);
    }
}

pub open spec fn pow10(k: int) -> int
    decreases k,
{
    if k <= 0 {
        1
    } else {
        10 * pow10(k - 1)
    }
}

pub open spec fn pow16(k: int) -> int
    decreases k,
{
    if k <= 0 {
        1
    } else {
        16 * pow16(k - 1)
    }
}

/// Appends `count` copies of the one-character string `fill` to `out`.
pub fn append_fill(out: &mut String, count: usize, fill: &str)
    requires
        fill@.len() == 1,
    ensures
        final(out)@ == old(out)@ + Seq::new(count as nat, |i: int| fill@[0]),
{
    let mut j: usize = 0;
    proof {
        assert(out@ =~= old(out)@ + Seq::new(0nat, |i: int| fill@[0]));
    }
    while j < count
        invariant
            j <= count,
            fill@.len() == 1,
            out@ == old(out)@ + Seq::new(j as nat, |i: int| fill@[0]),
        decreases count - j,
    {
        out.append(fill);
        j = j + 1;
        proof {
            assert(out@ =~= old(out)@ + Seq::new(j as nat, |i: int| fill@[0]));
        }
    }
}

/// Appends `n` in decimal, left-padded with `fill` to `width` characters.
pub fn append_dec_padded(out: &mut String, n: u64, width: usize, fill: &str)
    requires
        n < 100000,
        fill@.len() == 1,
    ensures
        final(out)@ == old(out)@ + pad_left(dec_seq(n as int), width as int, fill@[0]),
{
    let len = dec_len(n);
    if len < width {
        append_fill(out, width - len, fill);
    }
    append_dec(out, n);
    proof {
        assert(out@ =~= old(out)@ + pad_left(dec_seq(n as int), width as int, fill@[0]));
    }
}

/// Appends `n` in hexadecimal, left-padded with `fill` to `width` characters.
pub fn append_hex_padded(out: &mut String, n: u64, width: usize, fill: &str)
    requires
        n <= 0xffff,
        fill@.len() == 1,
    ensures
        final(out)@ == old(out)@ + pad_left(hex_seq(n as int), width as int, fill@[0]),
{
    let len = hex_len(n);
    if len < width {
        append_fill(out, width - len, fill);
    }
    append_hex(out, n);
    proof {
        assert(out@ =~= old(out)@ + pad_left(hex_seq(n as int), width as int, fill@[0]));
    }
}

} // verus!
