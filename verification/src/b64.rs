//! Base64 as a format: the standard alphabet, groups of three bytes, and padding.

use vstd::prelude::*;

verus! {

/// The character of the standard alphabet that stands for `v`, which is below 64.
pub open spec fn b64_char(v: int) -> char {
    if v < 26 {
        ('A' as int + v) as char
    } else if v < 52 {
        ('a' as int + v - 26) as char
    } else if v < 62 {
        ('0' as int + v - 52) as char
    } else if v == 62 {
        '+'
    } else {
        '/'
    }
}

/// The four characters that stand for three bytes: their 24 bits, six at a time.
pub open spec fn b64_group(a: u8, b: u8, c: u8) -> Seq<char> {
    let bits = a as int * 65536 + b as int * 256 + c as int;
    seq![
        b64_char(bits / 262144),
        b64_char(bits / 4096 % 64),
        b64_char(bits / 64 % 64),
        b64_char(bits % 64),
    ]
}

/// The base64 text of `bytes`: group by group; one or two bytes at the end make a group with
/// zeros, of which the characters without any of their bits are replaced by padding.
pub open spec fn b64_encoded(bytes: Seq<u8>) -> Seq<char>
    decreases bytes.len(),
{
    if bytes.len() == 0 {
        seq![]
    } else if bytes.len() == 1 {
        b64_group(bytes[0], 0, 0).take(2) + seq!['=', '=']
    } else if bytes.len() == 2 {
        b64_group(bytes[0], bytes[1], 0).take(3) + seq!['=']
    } else {
        b64_group(bytes[0], bytes[1], bytes[2]) + b64_encoded(bytes.skip(3))
    }
}

/// `enc` is the base64 text of some bytes.
pub open spec fn is_b64_text(enc: Seq<char>) -> bool {
    exists|bytes: Seq<u8>| #[trigger] b64_encoded(bytes) == enc
}

/// The bytes whose base64 text is `enc`; `None` where there are none.
pub open spec fn b64_decoded(enc: Seq<char>) -> Option<Seq<u8>> {
    if is_b64_text(enc) {
        Some(choose|bytes: Seq<u8>| #[trigger] b64_encoded(bytes) == enc)
    } else {
        None
    }
}

proof fn lemma_char_injective(v: int, w: int)
    requires
        0 <= v < 64,
        0 <= w < 64,
    ensures
        b64_char(v) != '=',
        b64_char(v) == b64_char(w) ==> v == w,
{
}

proof fn lemma_sextets(bits: int)
    requires
        0 <= bits < 16777216,
    ensures
        0 <= bits / 262144 < 64,
        bits == (bits / 262144) * 262144 + (bits / 4096 % 64) * 4096 + (bits / 64 % 64) * 64 + bits
            % 64,
{
    let high = bits / 64;
    assert(bits == high * 64 + bits % 64);
    let higher = high / 64;
    assert(high == higher * 64 + high % 64);
    assert(higher == bits / 4096);
    assert(higher == (higher / 64) * 64 + higher % 64);
    assert(higher / 64 == bits / 262144);
}

/// A group stands for no other bytes, even where only the first characters of it are compared.
proof fn lemma_group_injective(a: u8, b: u8, c: u8, x: u8, y: u8, z: u8)
    ensures
        forall|i: int| 0 <= i < 4 ==> #[trigger] b64_group(a, b, c)[i] != '=',
        b64_group(a, b, c) == b64_group(x, y, z) ==> a == x && b == y && c == z,
        b64_group(a, b, 0).take(3) == b64_group(x, y, 0).take(3) ==> a == x && b == y,
        b64_group(a, 0, 0).take(2) == b64_group(x, 0, 0).take(2) ==> a == x,
{
    lemma_group_prefix(a, b, c, x, y, z, 4);
    lemma_group_prefix(a, b, 0, x, y, 0, 3);
    lemma_group_prefix(a, 0, 0, x, 0, 0, 2);
    if b64_group(a, b, c) == b64_group(x, y, z) {
        assert(b64_group(a, b, c).take(4) == b64_group(x, y, z).take(4));
    }
}

proof fn lemma_group_prefix(a: u8, b: u8, c: u8, x: u8, y: u8, z: u8, n: int)
    requires
        2 <= n <= 4,
        n < 4 ==> c == 0 && z == 0,
        n < 3 ==> b == 0 && y == 0,
    ensures
        forall|i: int| 0 <= i < 4 ==> #[trigger] b64_group(a, b, c)[i] != '=',
        b64_group(a, b, c).take(n) == b64_group(x, y, z).take(n) ==> a == x && b == y && c == z,
{
    let p = a as int * 65536 + b as int * 256 + c as int;
    let q = x as int * 65536 + y as int * 256 + z as int;
    let g = b64_group(a, b, c);
    let h = b64_group(x, y, z);
    lemma_sextets(p);
    lemma_sextets(q);
    lemma_char_injective(p / 262144, q / 262144);
    lemma_char_injective(p / 4096 % 64, q / 4096 % 64);
    lemma_char_injective(p / 64 % 64, q / 64 % 64);
    lemma_char_injective(p % 64, q % 64);
    if g.take(n) == h.take(n) {
        assert(forall|i: int| 0 <= i < n ==> g[i] == g.take(n)[i] && h[i] == h.take(n)[i]);
        assert(g[0] == h[0] && g[1] == h[1]);
        if n >= 3 {
            assert(g[2] == h[2]);
        }
        if n == 4 {
            assert(g[3] == h[3]);
        }
        assert(p == q);
    }
}

/// Different bytes have different base64 texts.
pub proof fn law_b64_is_injective(a: Seq<u8>, b: Seq<u8>)
    requires
        b64_encoded(a) == b64_encoded(b),
    ensures
        a == b,
    decreases a.len(),
{
    let s = b64_encoded(a);
    let at = |bytes: Seq<u8>, i: int| if i < bytes.len() { bytes[i] } else { 0u8 };
    let (a0, a1, a2) = (at(a, 0), at(a, 1), at(a, 2));
    let (b0, b1, b2) = (at(b, 0), at(b, 1), at(b, 2));
    lemma_group_injective(a0, a1, a2, b0, b1, b2);
    lemma_group_injective(b0, b1, b2, a0, a1, a2);
    if a.len() == 0 || b.len() == 0 {
        assert(s.len() == 0);
    } else {
        let g = b64_group(a0, a1, a2);
        let h = b64_group(b0, b1, b2);
        assert(a.len() >= 3 <==> s[3] != '=') by {
            if a.len() >= 3 {
                assert(s[3] == g[3]);
            }
        }
        assert(b.len() >= 3 <==> s[3] != '=') by {
            if b.len() >= 3 {
                assert(s[3] == h[3]);
            }
        }
        assert(a.len() >= 2 <==> s[2] != '=') by {
            if a.len() >= 2 {
                assert(s[2] == g[2]);
            }
        }
        assert(b.len() >= 2 <==> s[2] != '=') by {
            if b.len() >= 2 {
                assert(s[2] == h[2]);
            }
        }
        if a.len() >= 3 {
            assert(s.take(4) =~= g);
            assert(s.take(4) =~= h);
            assert(s.skip(4) =~= b64_encoded(a.skip(3)));
            assert(s.skip(4) =~= b64_encoded(b.skip(3)));
            law_b64_is_injective(a.skip(3), b.skip(3));
            assert(a =~= seq![a0, a1, a2] + a.skip(3));
            assert(b =~= seq![b0, b1, b2] + b.skip(3));
        } else if a.len() == 2 {
            assert(s.take(3) =~= g.take(3));
            assert(s.take(3) =~= h.take(3));
            assert(a =~= b);
        } else {
            assert(s.take(2) =~= g.take(2));
            assert(s.take(2) =~= h.take(2));
            assert(a =~= b);
        }
    }
}

/// What was encoded is decoded to what it was.
pub proof fn law_b64_round_trip(bytes: Seq<u8>)
    ensures
        b64_decoded(b64_encoded(bytes)) == Some(bytes),
{
    let enc = b64_encoded(bytes);
    assert(is_b64_text(enc));
    law_b64_is_injective(b64_decoded(enc)->0, bytes);
}

/// A base64 text has four characters for every three bytes, and four for one or two that are left.
pub proof fn law_b64_length(bytes: Seq<u8>)
    ensures
        b64_encoded(bytes).len() == (bytes.len() + 2) / 3 * 4,
    decreases bytes.len(),
{
    if bytes.len() >= 3 {
        law_b64_length(bytes.skip(3));
    }
}

/// Whole groups of three bytes are encoded by themselves: behind them the text goes on as if they
/// were not there.
pub proof fn law_b64_joins(a: Seq<u8>, b: Seq<u8>)
    requires
        a.len() % 3 == 0,
    ensures
        b64_encoded(a + b) == b64_encoded(a) + b64_encoded(b),
    decreases a.len(),
{
    if a.len() == 0 {
        assert(a + b =~= b);
        assert(b64_encoded(a) + b64_encoded(b) =~= b64_encoded(b));
    } else {
        law_b64_joins(a.skip(3), b);
        assert((a + b).skip(3) =~= a.skip(3) + b);
        assert(b64_encoded(a + b) =~= b64_encoded(a) + b64_encoded(b));
    }
}

} // verus!
