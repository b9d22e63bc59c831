//! A hex dump of a byte buffer, for logs.

use vstd::prelude::*;

verus! {

/// The upper-case hexadecimal digits.
pub open spec fn hex_digits() -> Seq<char> {
    seq!['0', '1', '2', '3', '4', '5', '6', '7', '8', '9', 'A', 'B', 'C', 'D', 'E', 'F']
}

/// The two upper-case hexadecimal digits of a byte.
pub open spec fn hex_byte(b: nat) -> Seq<char> {
    seq![hex_digits()[((b / 16) % 16) as int], hex_digits()[(b % 16) as int]]
}

/// `n` in upper-case hexadecimal, padded with zeros to at least `width`
/// digits.
pub open spec fn hex_padded(n: nat, width: nat) -> Seq<char>
    decreases width, n,
{
    if n < 16 && width <= 1 {
        seq![hex_digits()[n as int]]
    } else {
        hex_padded(n / 16, if width > 0 { (width - 1) as nat } else { 0 }) + seq![hex_digits()[(n % 16) as int]]
    }
}

/// How a byte shows in the character column: itself when printable, a dot
/// otherwise.
pub open spec fn shown(b: u8) -> char {
    if b > 0x21 && b != 0x7f {
        b as char
    } else {
        '.'
    }
}

/// The column header: six dashes, then the sixteen column numbers.
pub open spec fn header() -> Seq<char> {
    seq!['-', '-', '-', '-', '-', '-'] + Seq::new(48, |k: int| if k % 3 == 2 {
        ' '
    } else {
        hex_byte((k / 3) as nat)[k % 3]
    })
}

/// The dump text and the pending character column after the first `i` bytes
/// of `data`: each row of sixteen bytes starts a new line with its offset,
/// after a tab and the characters of the previous row.
pub open spec fn dump_after(data: Seq<u8>, i: nat) -> (Seq<char>, Seq<char>)
    decreases i,
{
    if i == 0 {
        (header(), Seq::empty())
    } else {
        let (text, chars) = dump_after(data, (i - 1) as nat);
        let j = (i - 1) as nat;
        let b = data[j as int];
        let (text, chars) = if j % 16 == 0 {
            (text + seq!['\t'] + chars + seq!['\n'] + hex_padded(j, 4) + seq![':'], Seq::<char>::empty())
        } else {
            (text, chars)
        };
        (text + seq![' '] + hex_byte(b as nat), chars.push(shown(b)))
    }
}

/// The whole dump: the rows, spaces standing for the missing bytes of a
/// short last row, and the characters of the last row after a tab.
pub open spec fn hexdump_spec(data: Seq<u8>) -> Seq<char> {
    let (text, chars) = dump_after(data, data.len());
    let pad: nat = if data.len() % 16 != 0 {
        (3 * (16 - data.len() % 16)) as nat
    } else {
        0
    };
    text + Seq::new(pad, |k: int| ' ') + seq!['\t'] + chars
}

fn hex_digit(n: usize) -> (r: char)
    requires
        n < 16,
    ensures
        r == hex_digits()[n as int],
{
    let t: [char; 16] = ['0', '1', '2', '3', '4', '5', '6', '7', '8', '9', 'A', 'B', 'C', 'D', 'E', 'F'];
    assert(t@ == hex_digits());
    t[n]
}

fn push_hex_byte(out: &mut Vec<char>, b: usize)
    ensures
        final(out)@ == old(out)@ + hex_byte(b as nat),
{
    out.push(hex_digit((b / 16) % 16));
    out.push(hex_digit(b % 16));
}

fn push_hex_padded(out: &mut Vec<char>, n: usize, width: usize)
    ensures
        final(out)@ == old(out)@ + hex_padded(n as nat, width as nat),
    decreases width, n,
{
    if n < 16 && width <= 1 {
        out.push(hex_digit(n));
    } else {
        push_hex_padded(out, n / 16, if width > 0 { width - 1 } else { 0 });
        out.push(hex_digit(n % 16));
    }
}

/// Relies on `String::from_iter` over `char`s: the string of exactly those
/// characters.
#[verifier::external_body]
fn string_of(chars: Vec<char>) -> (r: String)
    ensures
        r@ == chars@,
{
    String::from_iter(chars)
}

/// A hex dump of `data`: a header of column numbers, then rows of sixteen
/// bytes, each with its offset and, after a tab at the start of the next row
/// (or at the end), its printable characters.
pub fn hexdump(data: &[u8]) -> (r: String)
    ensures
        r@ == hexdump_spec(data@),
{
    let mut out: Vec<char> = Vec::new();
    out.push('-');
    out.push('-');
    out.push('-');
    out.push('-');
    out.push('-');
    out.push('-');
    assert(out@ =~= seq!['-', '-', '-', '-', '-', '-'] + Seq::new(0, |k: int| if k % 3 == 2 {
        ' '
    } else {
        hex_byte((k / 3) as nat)[k % 3]
    }));
    let mut c: usize = 0;
    while c < 16
        invariant
            c <= 16,
            out@ == seq!['-', '-', '-', '-', '-', '-'] + Seq::new((3 * c) as nat, |k: int| if k % 3 == 2 {
                ' '
            } else {
                hex_byte((k / 3) as nat)[k % 3]
            }),
        decreases 16 - c,
    {
        push_hex_byte(&mut out, c);
        out.push(' ');
        c += 1;
        assert(out@ =~= seq!['-', '-', '-', '-', '-', '-'] + Seq::new((3 * c) as nat, |k: int| if k % 3 == 2 {
            ' '
        } else {
            hex_byte((k / 3) as nat)[k % 3]
        }));
    }
    let mut chars: Vec<char> = Vec::new();
    let mut i: usize = 0;
    while i < data.len()
        invariant
            i <= data.len(),
            (out@, chars@) == dump_after(data@, i as nat),
        decreases data.len() - i,
    {
        let b = data[i];
        if i % 16 == 0 {
            out.push('\t');
            let mut k: usize = 0;
            let ghost before = out@;
            while k < chars.len()
                invariant
                    k <= chars.len(),
                    out@ == before + chars@.subrange(0, k as int),
                decreases chars.len() - k,
            {
                out.push(chars[k]);
                k += 1;
                assert(out@ =~= before + chars@.subrange(0, k as int));
            }
            assert(chars@.subrange(0, chars.len() as int) == chars@);
            out.push('\n');
            push_hex_padded(&mut out, i, 4);
            out.push(':');
            chars = Vec::new();
        }
        out.push(' ');
        push_hex_byte(&mut out, b as usize);
        let shown_char: char = if b > 0x21 && b != 0x7f {
            b as char
        } else {
            '.'
        };
        chars.push(shown_char);
        i += 1;
        proof {
            let (t0, c0) = dump_after(data@, (i - 1) as nat);
            assert(dump_after(data@, i as nat) == ({
                let (text, cs) = if ((i - 1) as nat) % 16 == 0 {
                    (t0 + seq!['\t'] + c0 + seq!['\n'] + hex_padded((i - 1) as nat, 4) + seq![':'], Seq::<char>::empty())
                } else {
                    (t0, c0)
                };
                (text + seq![' '] + hex_byte(b as nat), cs.push(shown(b)))
            }));
            assert(out@ =~= dump_after(data@, i as nat).0);
            assert(chars@ =~= dump_after(data@, i as nat).1);
        }
    }
    if data.len() % 16 != 0 {
        let pad = 16 - data.len() % 16;
        let mut p: usize = 0;
        let ghost before = out@;
        while p < 3 * pad
            invariant
                p <= 3 * pad,
                pad <= 16,
                out@ == before + Seq::new(p as nat, |k: int| ' '),
            decreases 3 * pad - p,
        {
            out.push(' ');
            p += 1;
            assert(out@ =~= before + Seq::new(p as nat, |k: int| ' '));
        }
    }
    out.push('\t');
    let mut k: usize = 0;
    let ghost before = out@;
    while k < chars.len()
        invariant
            k <= chars.len(),
            out@ == before + chars@.subrange(0, k as int),
        decreases chars.len() - k,
    {
        out.push(chars[k]);
        k += 1;
        assert(out@ =~= before + chars@.subrange(0, k as int));
    }
    assert(out@ =~= hexdump_spec(data@));
    string_of(out)
}

} // verus!
