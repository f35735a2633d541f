//! Numbers as text.

use vstd::prelude::*;

verus! {

/// `String::push`: the character is appended.
pub assume_specification[ String::push ](s: &mut String, ch: char)
    ensures
        final(s)@ == old(s)@.push(ch),
;

/// `String::push_str`: the characters of the slice are appended.
pub assume_specification[ String::push_str ](s: &mut String, string: &str)
    ensures
        final(s)@ == old(s)@ + string@,
;

/// The character for a digit up to fifteen, in lower case.
pub open spec fn digit(d: int) -> char {
    if d == 0 {
        '0'
    } else if d == 1 {
        '1'
    } else if d == 2 {
        '2'
    } else if d == 3 {
        '3'
    } else if d == 4 {
        '4'
    } else if d == 5 {
        '5'
    } else if d == 6 {
        '6'
    } else if d == 7 {
        '7'
    } else if d == 8 {
        '8'
    } else if d == 9 {
        '9'
    } else if d == 10 {
        'a'
    } else if d == 11 {
        'b'
    } else if d == 12 {
        'c'
    } else if d == 13 {
        'd'
    } else if d == 14 {
        'e'
    } else {
        'f'
    }
}

/// The digits of `n`, most significant first, without leading zeros: to
/// base sixteen if `hex`, to base ten if not.
pub open spec fn number(n: nat, hex: bool) -> Seq<char>
    decreases n,
{
    if hex {
        if n < 16 {
            seq![digit(n as int)]
        } else {
            number(n / 16, hex).push(digit((n % 16) as int))
        }
    } else {
        if n < 10 {
            seq![digit(n as int)]
        } else {
            number(n / 10, hex).push(digit((n % 10) as int))
        }
    }
}

/// `count` times the character `fill`.
pub open spec fn filling(count: int, fill: char) -> Seq<char> {
    Seq::new(
        if count > 0 {
            count as nat
        } else {
            0
        },
        |i: int| fill,
    )
}

/// `text`, with `fill` behind it until it is `width` characters long.
pub open spec fn left_aligned(text: Seq<char>, width: nat, fill: char) -> Seq<char> {
    text + filling(width - text.len(), fill)
}

/// `text`, with `fill` before it until it is `width` characters long.
pub open spec fn right_aligned(text: Seq<char>, width: nat, fill: char) -> Seq<char> {
    filling(width - text.len(), fill) + text
}

/// `n` in hexadecimal with `0x` before it.
pub open spec fn hex(n: nat) -> Seq<char> {
    seq!['0', 'x'] + number(n, true)
}

/// `n` in hexadecimal with `0x` before at least `width` digits.
pub open spec fn hex_padded(n: nat, width: nat) -> Seq<char> {
    seq!['0', 'x'] + right_aligned(number(n, true), width, '0')
}

/// The character for a digit up to fifteen.
pub fn digit_char(d: u8) -> (r: char)
    requires
        d < 16,
    ensures
        r == digit(d as int),
{
    match d {
        0 => '0',
        1 => '1',
        2 => '2',
        3 => '3',
        4 => '4',
        5 => '5',
        6 => '6',
        7 => '7',
        8 => '8',
        9 => '9',
        10 => 'a',
        11 => 'b',
        12 => 'c',
        13 => 'd',
        14 => 'e',
        _ => 'f',
    }
}

/// Appends the digits of `n`, to base sixteen if `hex`, to base ten if not.
pub fn push_number(s: &mut String, n: usize, hex: bool)
    ensures
        final(s)@ == old(s)@ + number(n as nat, hex),
    decreases n,
{
    let base: usize = if hex {
        16
    } else {
        10
    };
    if n >= base {
        push_number(s, n / base, hex);
    }
    s.push(digit_char((n % base) as u8));
    assert(s@ =~= old(s)@ + number(n as nat, hex));
}

/// How many digits `n` has, to base sixteen if `hex`, to base ten if not.
pub fn number_len(n: usize, hex: bool) -> (r: usize)
    ensures
        r == number(n as nat, hex).len(),
{
    let base: usize = if hex {
        16
    } else {
        10
    };
    let mut rest = n;
    let mut len: usize = 1;
    proof {
        lemma_number_len(n as nat, hex);
    }
    while rest >= base
        invariant
            base == (if hex {
                16usize
            } else {
                10usize
            }),
            len >= 1,
            len + number(rest as nat, hex).len() == 1 + number(n as nat, hex).len(),
            number(n as nat, hex).len() <= usize::MAX,
        decreases rest,
    {
        proof {
            lemma_number_len((rest / base) as nat, hex);
        }
        rest = rest / base;
        len += 1;
    }
    len
}

/// A number has at least one digit, and no more digits than its value,
/// unless it is zero.
pub proof fn lemma_number_len(n: nat, hex: bool)
    ensures
        1 <= number(n, hex).len(),
        number(n, hex).len() <= n || n == 0,
    decreases n,
{
    if hex {
        if n >= 16 {
            lemma_number_len(n / 16, hex);
        }
    } else {
        if n >= 10 {
            lemma_number_len(n / 10, hex);
        }
    }
}

/// Appends `count` times the character `fill`.
pub fn push_filling(s: &mut String, count: usize, fill: char)
    ensures
        final(s)@ == old(s)@ + filling(count as int, fill),
{
    let mut i: usize = 0;
    assert(s@ =~= old(s)@ + filling(0, fill));
    while i < count
        invariant
            i <= count,
            s@ == old(s)@ + filling(i as int, fill),
        decreases count - i,
    {
        s.push(fill);
        i += 1;
        assert(s@ =~= old(s)@ + filling(i as int, fill));
    }
}

/// Appends `n`, to base sixteen if `hex` and to base ten if not, with `fill`
/// behind it (`left`) or before it until `width` characters are written.
pub fn push_aligned(s: &mut String, n: usize, hex: bool, width: usize, fill: char, left: bool)
    ensures
        left ==> final(s)@ == old(s)@ + left_aligned(
            number(n as nat, hex),
            width as nat,
            fill,
        ),
        !left ==> final(s)@ == old(s)@ + right_aligned(
            number(n as nat, hex),
            width as nat,
            fill,
        ),
{
    let len = number_len(n, hex);
    let missing = if len < width {
        width - len
    } else {
        0
    };
    if left {
        push_number(s, n, hex);
        push_filling(s, missing, fill);
        assert(s@ =~= old(s)@ + left_aligned(number(n as nat, hex), width as nat, fill));
    } else {
        push_filling(s, missing, fill);
        push_number(s, n, hex);
        assert(s@ =~= old(s)@ + right_aligned(number(n as nat, hex), width as nat, fill));
    }
}

/// Appends `n` in hexadecimal with `0x` before it.
pub fn push_hex(s: &mut String, n: usize)
    ensures
        final(s)@ == old(s)@ + hex(n as nat),
{
    s.push('0');
    s.push('x');
    push_number(s, n, true);
    assert(s@ =~= old(s)@ + hex(n as nat));
}

/// Appends `n` in hexadecimal with `0x` before at least `width` digits.
pub fn push_hex_padded(s: &mut String, n: usize, width: usize)
    ensures
        final(s)@ == old(s)@ + hex_padded(n as nat, width as nat),
{
    s.push('0');
    s.push('x');
    push_aligned(s, n, true, width, '0', false);
    assert(s@ =~= old(s)@ + hex_padded(n as nat, width as nat));
}

} // verus!
