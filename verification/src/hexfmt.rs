//! Rendering byte sequences as uppercase, space-separated hexadecimal byte
//! pairs ("CE ED 66 ..."), and parsing such text back, with the proof that
//! the two are inverse to each other.

use vstd::prelude::*;

verus! {

/// The uppercase hexadecimal digit for a value below sixteen.
pub open spec fn hex_digit(n: u8) -> char
    recommends
        n < 16,
{
    if n == 0 {
        '0'
    } else if n == 1 {
        '1'
    } else if n == 2 {
        '2'
    } else if n == 3 {
        '3'
    } else if n == 4 {
        '4'
    } else if n == 5 {
        '5'
    } else if n == 6 {
        '6'
    } else if n == 7 {
        '7'
    } else if n == 8 {
        '8'
    } else if n == 9 {
        '9'
    } else if n == 10 {
        'A'
    } else if n == 11 {
        'B'
    } else if n == 12 {
        'C'
    } else if n == 13 {
        'D'
    } else if n == 14 {
        'E'
    } else {
        'F'
    }
}

/// The value of an uppercase hexadecimal digit, `None` for any other
/// character.
pub open spec fn hex_digit_value(c: char) -> Option<u8> {
    if c == '0' {
        Some(0u8)
    } else if c == '1' {
        Some(1u8)
    } else if c == '2' {
        Some(2u8)
    } else if c == '3' {
        Some(3u8)
    } else if c == '4' {
        Some(4u8)
    } else if c == '5' {
        Some(5u8)
    } else if c == '6' {
        Some(6u8)
    } else if c == '7' {
        Some(7u8)
    } else if c == '8' {
        Some(8u8)
    } else if c == '9' {
        Some(9u8)
    } else if c == 'A' {
        Some(10u8)
    } else if c == 'B' {
        Some(11u8)
    } else if c == 'C' {
        Some(12u8)
    } else if c == 'D' {
        Some(13u8)
    } else if c == 'E' {
        Some(14u8)
    } else if c == 'F' {
        Some(15u8)
    } else {
        None
    }
}

/// The two hexadecimal digits of one byte, high nibble first.
pub open spec fn hex_pair(b: u8) -> Seq<char> {
    seq![hex_digit(b / 16), hex_digit(b % 16)]
}

/// A byte sequence rendered as uppercase hexadecimal byte pairs separated by
/// single spaces.
pub open spec fn hex_render(bs: Seq<u8>) -> Seq<char>
    decreases bs.len(),
{
    if bs.len() == 0 {
        Seq::empty()
    } else if bs.len() == 1 {
        hex_pair(bs[0])
    } else {
        hex_pair(bs[0]) + seq![' '] + hex_render(bs.skip(1))
    }
}

/// The bytes written as space-separated hexadecimal pairs in `s`, or `None`
/// where `s` is not exactly of that shape.
pub open spec fn parse_hex(s: Seq<char>) -> Option<Seq<u8>>
    decreases s.len(),
{
    if s.len() == 0 {
        Some(Seq::empty())
    } else if s.len() == 2 {
        match (hex_digit_value(s[0]), hex_digit_value(s[1])) {
            (Some(h), Some(l)) => Some(seq![(h * 16 + l) as u8]),
            _ => None,
        }
    } else if s.len() >= 5 && s[2] == ' ' {
        match (hex_digit_value(s[0]), hex_digit_value(s[1]), parse_hex(s.skip(3))) {
            (Some(h), Some(l), Some(rest)) => Some(seq![(h * 16 + l) as u8] + rest),
            _ => None,
        }
    } else {
        None
    }
}

/// Rendering produces three characters per byte but no trailing separator.
pub proof fn lemma_hex_render_len(bs: Seq<u8>)
    ensures
        bs.len() == 0 ==> hex_render(bs).len() == 0,
        bs.len() > 0 ==> hex_render(bs).len() == 3 * bs.len() - 1,
    decreases bs.len(),
{
    if bs.len() > 1 {
        lemma_hex_render_len(bs.skip(1));
    }
}

/// A rendered digit parses back to the nibble it came from.
pub proof fn lemma_hex_digit_value(n: u8)
    requires
        n < 16,
    ensures
        hex_digit_value(hex_digit(n)) == Some(n),
{
}

/// Law: parsing undoes rendering -- for every byte sequence, rendering it as
/// hexadecimal text and parsing the text back yields exactly the original
/// bytes.
pub proof fn lemma_hex_round_trip(bs: Seq<u8>)
    ensures
        parse_hex(hex_render(bs)) == Some(bs),
    decreases bs.len(),
{
    let s = hex_render(bs);
    if bs.len() == 0 {
        assert(bs =~= Seq::<u8>::empty());
    } else {
        let b = bs[0];
        lemma_hex_digit_value(b / 16);
        lemma_hex_digit_value(b % 16);
        assert(b / 16 * 16 + b % 16 == b) by (nonlinear_arith);
        if bs.len() == 1 {
            assert(s == hex_pair(b));
            assert(parse_hex(s) == Some(seq![b]));
            assert(seq![b] =~= bs);
        } else {
            lemma_hex_round_trip(bs.skip(1));
            lemma_hex_render_len(bs.skip(1));
            let rest = hex_render(bs.skip(1));
            assert(s == hex_pair(b) + seq![' '] + rest);
            assert(s.len() == 3 + rest.len());
            assert(s.len() >= 5);
            assert(s[0] == hex_digit(b / 16));
            assert(s[1] == hex_digit(b % 16));
            assert(s[2] == ' ');
            assert(s.skip(3) =~= rest);
            assert(parse_hex(s) == Some(seq![b] + bs.skip(1)));
            assert(seq![b] + bs.skip(1) =~= bs);
        }
    }
}

/// Law: rendering is injective -- two byte sequences with the same
/// hexadecimal rendering are equal, so comparing renderings compares bytes.
pub proof fn lemma_hex_render_injective(a: Seq<u8>, b: Seq<u8>)
    requires
        hex_render(a) == hex_render(b),
    ensures
        a == b,
{
    lemma_hex_round_trip(a);
    lemma_hex_round_trip(b);
}

/// The one-character text for an uppercase hexadecimal digit.
fn nibble_str(n: u8) -> (r: &'static str)
    requires
        n < 16,
    ensures
        r@ == seq![hex_digit(n)],
{
    proof {
        reveal_strlit("0");
        reveal_strlit("1");
        reveal_strlit("2");
        reveal_strlit("3");
        reveal_strlit("4");
        reveal_strlit("5");
        reveal_strlit("6");
        reveal_strlit("7");
        reveal_strlit("8");
        reveal_strlit("9");
        reveal_strlit("A");
        reveal_strlit("B");
        reveal_strlit("C");
        reveal_strlit("D");
        reveal_strlit("E");
        reveal_strlit("F");
    }
    let r: &'static str = if n == 0 {
        "0"
    } else if n == 1 {
        "1"
    } else if n == 2 {
        "2"
    } else if n == 3 {
        "3"
    } else if n == 4 {
        "4"
    } else if n == 5 {
        "5"
    } else if n == 6 {
        "6"
    } else if n == 7 {
        "7"
    } else if n == 8 {
        "8"
    } else if n == 9 {
        "9"
    } else if n == 10 {
        "A"
    } else if n == 11 {
        "B"
    } else if n == 12 {
        "C"
    } else if n == 13 {
        "D"
    } else if n == 14 {
        "E"
    } else {
        "F"
    };
    proof {
        assert(r@ =~= seq![hex_digit(n)]);
    }
    r
}

/// Rendering appends one more pair, preceded by a separator unless it is the
/// first.
proof fn lemma_hex_render_push(bs: Seq<u8>, b: u8)
    ensures
        bs.len() == 0 ==> hex_render(bs.push(b)) == hex_pair(b),
        bs.len() > 0 ==> hex_render(bs.push(b)) == hex_render(bs) + seq![' '] + hex_pair(b),
    decreases bs.len(),
{
    if bs.len() == 0 {
        assert(bs.push(b) =~= seq![b]);
        assert(hex_render(seq![b]) == hex_pair(b));
    } else if bs.len() == 1 {
        assert(bs.push(b).skip(1) =~= seq![b]);
        assert(hex_render(bs.push(b)) == hex_pair(bs[0]) + seq![' '] + hex_render(seq![b]));
        assert(hex_render(bs) + seq![' '] + hex_pair(b) =~= hex_pair(bs[0]) + seq![' '] + hex_pair(
            b,
        ));
    } else {
        lemma_hex_render_push(bs.skip(1), b);
        assert(bs.push(b).skip(1) =~= bs.skip(1).push(b));
        assert(hex_render(bs.push(b)) == hex_pair(bs[0]) + seq![' '] + hex_render(
            bs.skip(1).push(b),
        ));
        assert(hex_pair(bs[0]) + seq![' '] + (hex_render(bs.skip(1)) + seq![' '] + hex_pair(b))
            =~= (hex_pair(bs[0]) + seq![' '] + hex_render(bs.skip(1))) + seq![' '] + hex_pair(b));
    }
}

/// Renders `bytes` as uppercase hexadecimal byte pairs separated by single
/// spaces.
pub fn bytes_to_hex(bytes: &[u8]) -> (r: String)
    ensures
        r@ == hex_render(bytes@),
{
    let sep: &'static str = " ";
    proof {
        reveal_strlit(" ");
        assert(sep@ =~= seq![' ']);
    }
    let mut s = String::new();
    let n = bytes.len();
    let mut i: usize = 0;
    while i < n
        invariant
            n == bytes@.len(),
            i <= n,
            sep@ == seq![' '],
            s@ == hex_render(bytes@.take(i as int)),
        decreases n - i,
    {
        let b = bytes[i];
        if i > 0 {
            s.append(sep);
        }
        s.append(nibble_str(b / 16));
        s.append(nibble_str(b % 16));
        proof {
            lemma_hex_render_push(bytes@.take(i as int), b);
            assert(bytes@.take(i as int).push(b) =~= bytes@.take(i + 1 as int));
            assert(s@ =~= hex_render(bytes@.take(i + 1 as int)));
        }
        i = i + 1;
    }
    proof {
        assert(bytes@.take(n as int) =~= bytes@);
    }
    s
}

/// What remains of a parse after some bytes have already been read off the
/// front.
spec fn prepend_parsed(pre: Seq<u8>, rest: Option<Seq<u8>>) -> Option<Seq<u8>> {
    match rest {
        Some(t) => Some(pre + t),
        None => None,
    }
}

/// The value of an uppercase hexadecimal digit character, `None` for any
/// other character.
fn hex_char_value(c: char) -> (r: Option<u8>)
    ensures
        r == hex_digit_value(c),
{
    if c == '0' {
        Some(0u8)
    } else if c == '1' {
        Some(1u8)
    } else if c == '2' {
        Some(2u8)
    } else if c == '3' {
        Some(3u8)
    } else if c == '4' {
        Some(4u8)
    } else if c == '5' {
        Some(5u8)
    } else if c == '6' {
        Some(6u8)
    } else if c == '7' {
        Some(7u8)
    } else if c == '8' {
        Some(8u8)
    } else if c == '9' {
        Some(9u8)
    } else if c == 'A' {
        Some(10u8)
    } else if c == 'B' {
        Some(11u8)
    } else if c == 'C' {
        Some(12u8)
    } else if c == 'D' {
        Some(13u8)
    } else if c == 'E' {
        Some(14u8)
    } else if c == 'F' {
        Some(15u8)
    } else {
        None
    }
}

/// Parses text of space-separated uppercase hexadecimal byte pairs back into
/// the bytes it names; `None` where the text is not exactly of that shape.
pub fn hex_to_bytes(s: &str) -> (r: Option<Vec<u8>>)
    ensures
        r is Some ==> parse_hex(s@) == Some(r.unwrap()@),
        r is None ==> parse_hex(s@) is None,
{
    let len = s.unicode_len();
    if len == 0 {
        let out: Vec<u8> = Vec::new();
        proof {
            assert(out@ =~= Seq::<u8>::empty());
        }
        return Some(out);
    }
    if len < 2 {
        return None;
    }
    let mut out: Vec<u8> = Vec::new();
    let mut i: usize = 0;
    proof {
        assert(s@.skip(0) =~= s@);
        if parse_hex(s@) is Some {
            assert(out@ + parse_hex(s@).unwrap() =~= parse_hex(s@).unwrap());
        }
    }
    loop
        invariant
            len == s@.len(),
            i + 2 <= len,
            parse_hex(s@) == prepend_parsed(out@, parse_hex(s@.skip(i as int))),
        decreases len - i,
    {
        let ghost tail = s@.skip(i as int);
        proof {
            assert(tail.len() == len - i);
        }
        let c0 = s.get_char(i);
        let c1 = s.get_char(i + 1);
        proof {
            assert(tail[0] == c0);
            assert(tail[1] == c1);
        }
        let h = hex_char_value(c0);
        let l = hex_char_value(c1);
        if h.is_none() || l.is_none() {
            proof {
                assert(parse_hex(tail) is None);
            }
            return None;
        }
        let hv = h.unwrap();
        let lv = l.unwrap();
        let byte: u8 = hv * 16 + lv;
        let ghost out_before = out@;
        out.push(byte);
        if i + 2 == len {
            proof {
                assert(tail.len() == 2);
                assert(parse_hex(tail) == Some(seq![byte]));
                assert(out_before + seq![byte] =~= out@);
            }
            return Some(out);
        }
        // More text follows the pair: it must be a separator and at least one
        // further pair, else the text is malformed.
        if len - i < 5 {
            proof {
                assert(parse_hex(tail) is None);
            }
            return None;
        }
        let c2 = s.get_char(i + 2);
        if c2 != ' ' {
            proof {
                assert(tail[2] != ' ');
                assert(parse_hex(tail) is None);
            }
            return None;
        }
        proof {
            assert(tail.len() >= 5 && tail[2] == ' ');
            assert(tail.skip(3) =~= s@.skip(i + 3));
            assert(parse_hex(tail) == prepend_parsed(seq![byte], parse_hex(s@.skip(i + 3))));
            if parse_hex(s@.skip(i + 3)) is Some {
                let rest = parse_hex(s@.skip(i + 3)).unwrap();
                assert(out_before + (seq![byte] + rest) =~= out@ + rest);
            }
        }
        i = i + 3;
    }
}

} // verus!
