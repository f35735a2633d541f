//! Bytes as a table of hexadecimal numbers.

use super::text::{left_aligned, number, push_aligned};
use vstd::prelude::*;

verus! {

/// Bytes that are shown sixteen to a line.
pub struct DisplayBinary<'a>(pub &'a [u8]);

/// A number in hexadecimal, with blanks behind it up to four characters.
pub open spec fn cell(v: nat) -> Seq<char> {
    left_aligned(number(v, true), 4, ' ')
}

/// The cells of `count` bytes from place `from` on.
pub open spec fn cells(bytes: Seq<u8>, from: int, count: int) -> Seq<char>
    decreases count,
{
    if count <= 0 {
        Seq::empty()
    } else {
        cells(bytes, from, count - 1) + cell(bytes[from + count - 1] as nat)
    }
}

/// Line `i` of the table: its number, a colon, and the cells of its sixteen
/// bytes.
pub open spec fn line(bytes: Seq<u8>, i: int) -> Seq<char> {
    cell(i as nat) + ": "@ + cells(bytes, 16 * i, 16)
}

/// The first `count` lines of the table, with a line feed between two of
/// them.
pub open spec fn table(bytes: Seq<u8>, count: int) -> Seq<char>
    decreases count,
{
    if count <= 0 {
        Seq::empty()
    } else {
        table(bytes, count - 1) + (if count > 1 {
            "\n"@
        } else {
            Seq::empty()
        }) + line(bytes, count - 1)
    }
}

impl<'a> DisplayBinary<'a> {
    /// The table of the bytes: as many lines as there are sixteen bytes for.
    /// Bytes behind the last full line are not shown.
    pub open spec fn text(&self) -> Seq<char> {
        table(self.0@, self.0@.len() as int / 16)
    }

    /// The table as text.
    pub fn to_string(&self) -> (r: String)
        ensures
            r@ == self.text(),
    {
        let binary = self.0;
        let count = binary.len() / 16;
        let mut s = String::new();
        let mut i: usize = 0;
        assert(s@ =~= table(binary@, 0));
        while i < count
            invariant
                binary@.len() <= usize::MAX,
                count == binary@.len() / 16,
                i <= count,
                s@ == table(binary@, i as int),
            decreases count - i,
        {
            if i > 0 {
                s.push_str("\n");
            }
            push_aligned(&mut s, i, true, 4, ' ', true);
            s.push_str(": ");
            assert(i * 16 + 16 <= binary@.len());
            let first = i * 16;
            let ghost head = s@;
            let mut k: usize = 0;
            assert(s@ =~= head + cells(binary@, first as int, 0));
            while k < 16
                invariant
                    k <= 16,
                    first == i * 16,
                    first + 16 <= binary@.len(),
                    s@ == head + cells(binary@, first as int, k as int),
                decreases 16 - k,
            {
                push_aligned(&mut s, binary[first + k] as usize, true, 4, ' ', true);
                k += 1;
                assert(s@ =~= head + cells(binary@, first as int, k as int));
            }
            i += 1;
            assert(s@ =~= table(binary@, i as int));
        }
        s
    }
}

} // verus!
