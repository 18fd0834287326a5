//! Standard base64 (with `=` padding) for gateway payloads, and truncation
//! of long tool results.

use vstd::prelude::*;
use crate::text::{chars_of, push_char, string_of};
use vstd::string::StringSliceAdditionalSpecFns;

verus! {

broadcast use vstd::string::group_string_axioms;

/// The base64 alphabet: `A`-`Z`, `a`-`z`, `0`-`9`, `+`, `/`.
pub open spec fn b64_char(i: int) -> char {
    if i < 26 {
        (65 + i) as char
    } else if i < 52 {
        (97 + (i - 26)) as char
    } else if i < 62 {
        (48 + (i - 52)) as char
    } else if i == 62 {
        '+'
    } else {
        '/'
    }
}

/// The position of a character in the base64 alphabet.
pub open spec fn b64_index(c: char) -> Option<int> {
    let u = c as u32;
    if 65 <= u <= 90 {
        Some(u - 65)
    } else if 97 <= u <= 122 {
        Some(u - 97 + 26)
    } else if 48 <= u <= 57 {
        Some(u - 48 + 52)
    } else if c == '+' {
        Some(62)
    } else if c == '/' {
        Some(63)
    } else {
        None
    }
}

/// The four sextets of a 24-bit group.
pub open spec fn group_sextets(t: int) -> Seq<int> {
    seq![t / 262144, (t / 4096) % 64, (t / 64) % 64, t % 64]
}

/// The sextets that encode some bytes: four per three bytes; a last lone
/// byte gives two, a last pair three.
pub open spec fn sextets(b: Seq<u8>) -> Seq<int>
    decreases b.len(),
{
    if b.len() == 0 {
        Seq::empty()
    } else if b.len() == 1 {
        group_sextets(b[0] * 65536).take(2)
    } else if b.len() == 2 {
        group_sextets(b[0] * 65536 + b[1] * 256).take(3)
    } else {
        group_sextets(b[0] * 65536 + b[1] * 256 + b[2]) + sextets(b.skip(3))
    }
}

/// The padding after the sextet characters: none for whole groups of
/// three bytes, `==` after one trailing byte, `=` after two.
pub open spec fn b64_padding(n: nat) -> Seq<char> {
    if n % 3 == 1 {
        seq!['=', '=']
    } else if n % 3 == 2 {
        seq!['=']
    } else {
        Seq::empty()
    }
}

/// The base64 text of some bytes.
pub open spec fn b64_encode_spec(b: Seq<u8>) -> Seq<char> {
    sextets(b).map_values(|i: int| b64_char(i)) + b64_padding(b.len())
}

/// `s` without its trailing `=` characters.
pub open spec fn trim_end_padding(s: Seq<char>) -> Seq<char>
    decreases s.len(),
{
    if s.len() > 0 && s.last() == '=' {
        trim_end_padding(s.drop_last())
    } else {
        s
    }
}

/// The bytes that a run of sextets carries: three per group of four; a last
/// three give two bytes, a last two one byte, a last single sextet none.
pub open spec fn sextet_bytes(v: Seq<int>) -> Seq<u8>
    decreases v.len(),
{
    if v.len() >= 4 {
        let t = v[0] * 262144 + v[1] * 4096 + v[2] * 64 + v[3];
        seq![(t / 65536) as u8, ((t / 256) % 256) as u8, (t % 256) as u8] + sextet_bytes(v.skip(4))
    } else if v.len() == 3 {
        let t = v[0] * 4096 + v[1] * 64 + v[2];
        seq![(t / 1024) as u8, ((t / 4) % 256) as u8]
    } else if v.len() == 2 {
        seq![((v[0] * 64 + v[1]) / 16) as u8]
    } else {
        Seq::empty()
    }
}

/// Whether every character is in the base64 alphabet.
pub open spec fn all_b64(s: Seq<char>) -> bool {
    forall|i: int| 0 <= i < s.len() ==> (#[trigger] b64_index(s[i])) is Some
}

/// What decoding gives: the trailing padding is dropped; a character
/// outside the alphabet is an error; otherwise the bytes the sextets carry.
pub open spec fn b64_decode_spec(s: Seq<char>) -> Result<Seq<u8>, Seq<char>> {
    let t = trim_end_padding(s);
    if all_b64(t) {
        Ok(sextet_bytes(t.map_values(|c: char| b64_index(c)->0)))
    } else {
        Err("invalid base64 character"@)
    }
}

fn b64_char_of(i: u32) -> (c: char)
    requires
        i < 64,
    ensures
        c == b64_char(i as int),
{
    if i < 26 {
        ((65 + i) as u8) as char
    } else if i < 52 {
        ((97 + (i - 26)) as u8) as char
    } else if i < 62 {
        ((48 + (i - 52)) as u8) as char
    } else if i == 62 {
        '+'
    } else {
        '/'
    }
}

fn b64_index_of(c: char) -> (r: Option<u32>)
    ensures
        match r {
            Some(v) => b64_index(c) == Some(v as int) && v < 64,
            None => b64_index(c) is None,
        },
{
    let u = c as u32;
    if 65 <= u && u <= 90 {
        Some(u - 65)
    } else if 97 <= u && u <= 122 {
        Some(u - 97 + 26)
    } else if 48 <= u && u <= 57 {
        Some(u - 48 + 52)
    } else if c == '+' {
        Some(62)
    } else if c == '/' {
        Some(63)
    } else {
        None
    }
}

proof fn lemma_triple_bits(b0: u32, b1: u32, b2: u32)
    requires
        b0 < 256,
        b1 < 256,
        b2 < 256,
    ensures
        ({
            let t = (b0 << 16u32) | (b1 << 8u32) | b2;
            &&& t == b0 * 65536 + b1 * 256 + b2
            &&& (t >> 18u32) & 0x3F == t / 262144
            &&& (t >> 12u32) & 0x3F == (t / 4096) % 64
            &&& (t >> 6u32) & 0x3F == (t / 64) % 64
            &&& t & 0x3F == t % 64
            &&& t / 262144 < 64
        }),
{
    assert(((b0 << 16u32) | (b1 << 8u32) | b2) == b0 * 65536 + b1 * 256 + b2) by (bit_vector)
        requires
            b0 < 256,
            b1 < 256,
            b2 < 256,
    ;
    let t = (b0 << 16u32) | (b1 << 8u32) | b2;
    assert(t < 16777216);
    assert((t >> 18u32) & 0x3F == t / 262144 && t / 262144 < 64) by (bit_vector)
        requires
            t < 16777216,
    ;
    assert((t >> 12u32) & 0x3F == (t / 4096) % 64) by (bit_vector);
    assert((t >> 6u32) & 0x3F == (t / 64) % 64) by (bit_vector);
    assert(t & 0x3F == t % 64) by (bit_vector);
}

/// Encode bytes as standard base64 with `=` padding.
pub fn base64_encode(input: &[u8]) -> (r: String)
    ensures
        r@ == b64_encode_spec(input@),
{
    let mut out = String::new();
    let mut i: usize = 0;
    proof {
        lemma_encode_chunks(input@);
    }
    assert(input@.skip(0) == input@);
    while i < input.len()
        invariant
            i <= input.len(),
            out@ + b64_text(input@.skip(i as int)) == b64_text(input@),
        decreases input.len() - i,
    {
        let n = input.len() - i;
        let b0 = input[i] as u32;
        let b1 = if n > 1 { input[i + 1] as u32 } else { 0 };
        let b2 = if n > 2 { input[i + 2] as u32 } else { 0 };
        proof {
            lemma_triple_bits(b0, b1, b2);
        }
        let triple = (b0 << 16u32) | (b1 << 8u32) | b2;
        let ghost before = out@;
        push_char(&mut out, b64_char_of((triple >> 18u32) & 0x3F));
        push_char(&mut out, b64_char_of((triple >> 12u32) & 0x3F));
        if n > 1 {
            push_char(&mut out, b64_char_of((triple >> 6u32) & 0x3F));
        } else {
            push_char(&mut out, '=');
        }
        if n > 2 {
            push_char(&mut out, b64_char_of(triple & 0x3F));
        } else {
            push_char(&mut out, '=');
        }
        let ghost rest = input@.skip(i as int);
        assert(rest[0] == b0);
        assert(n > 1 ==> rest[1] == b1);
        assert(n > 2 ==> rest[2] == b2);
        assert(out@ == before + chunk_text(rest));
        if n > 3 {
            assert(rest.skip(3) == input@.skip(i + 3));
            assert(b64_text(rest) == chunk_text(rest) + b64_text(rest.skip(3)));
            i = i + 3;
        } else {
            assert(b64_text(rest) == chunk_text(rest));
            assert(input@.skip(input.len() as int) =~= Seq::<u8>::empty());
            i = input.len();
        }
    }
    assert(input@.skip(i as int) =~= Seq::<u8>::empty());
    assert(out@ + Seq::<char>::empty() == out@);
    out
}

/// The four characters written for the first (up to three) bytes.
pub open spec fn chunk_text(b: Seq<u8>) -> Seq<char> {
    let n = b.len();
    let b1: int = if n > 1 { b[1] as int } else { 0 };
    let b2: int = if n > 2 { b[2] as int } else { 0 };
    let g = group_sextets(b[0] * 65536 + b1 * 256 + b2);
    seq![
        b64_char(g[0]),
        b64_char(g[1]),
        if n > 1 { b64_char(g[2]) } else { '=' },
        if n > 2 { b64_char(g[3]) } else { '=' },
    ]
}

/// The base64 text, chunk by chunk.
pub open spec fn b64_text(b: Seq<u8>) -> Seq<char>
    decreases b.len(),
{
    if b.len() == 0 {
        Seq::empty()
    } else if b.len() <= 3 {
        chunk_text(b)
    } else {
        chunk_text(b) + b64_text(b.skip(3))
    }
}

/// Chunk by chunk, the text is the sextet characters and the padding.
proof fn lemma_encode_chunks(b: Seq<u8>)
    ensures
        b64_text(b) == b64_encode_spec(b),
    decreases b.len(),
{
    if b.len() == 0 {
        assert(b64_encode_spec(b) =~= Seq::<char>::empty());
    } else if b.len() == 1 {
        let g = group_sextets(b[0] * 65536);
        assert(sextets(b) == g.take(2));
        assert(b64_encode_spec(b) =~= seq![b64_char(g[0]), b64_char(g[1]), '=', '=']);
    } else if b.len() == 2 {
        let g = group_sextets(b[0] * 65536 + b[1] * 256);
        assert(sextets(b) == g.take(3));
        assert(b64_encode_spec(b) =~= seq![b64_char(g[0]), b64_char(g[1]), b64_char(g[2]), '=']);
    } else if b.len() == 3 {
        let g = group_sextets(b[0] * 65536 + b[1] * 256 + b[2]);
        assert(sextets(b.skip(3)) =~= Seq::<int>::empty());
        assert(sextets(b) =~= g);
        assert(b64_encode_spec(b) =~= seq![b64_char(g[0]), b64_char(g[1]), b64_char(g[2]), b64_char(g[3])]);
    } else {
        lemma_encode_chunks(b.skip(3));
        let g = group_sextets(b[0] * 65536 + b[1] * 256 + b[2]);
        assert(sextets(b) == g + sextets(b.skip(3)));
        assert(b.skip(3).len() % 3 == b.len() % 3);
        assert(sextets(b).map_values(|i: int| b64_char(i)) =~= g.map_values(|i: int| b64_char(i)) + sextets(b.skip(3)).map_values(|i: int| b64_char(i)));
        assert(chunk_text(b) =~= g.map_values(|i: int| b64_char(i)));
        assert(b64_encode_spec(b) =~= chunk_text(b) + b64_encode_spec(b.skip(3)));
    }
}

/// Encode bytes as standard base64 (the same encoding as `base64_encode`).
pub fn base64_encode_simple(input: &[u8]) -> (r: String)
    ensures
        r@ == b64_encode_spec(input@),
{
    base64_encode(input)
}

/// Bytes carried by whole groups followed by more sextets.
proof fn lemma_sextet_bytes_concat(a: Seq<int>, b: Seq<int>)
    requires
        a.len() % 4 == 0,
    ensures
        sextet_bytes(a + b) == sextet_bytes(a) + sextet_bytes(b),
    decreases a.len(),
{
    if a.len() == 0 {
        assert(a + b =~= b);
        assert(sextet_bytes(a) =~= Seq::<u8>::empty());
        assert(sextet_bytes(a) + sextet_bytes(b) =~= sextet_bytes(b));
    } else {
        let ab = a + b;
        assert(ab.skip(4) =~= a.skip(4) + b);
        lemma_sextet_bytes_concat(a.skip(4), b);
        assert(ab[0] == a[0] && ab[1] == a[1] && ab[2] == a[2] && ab[3] == a[3]);
    }
}

/// Decoder state after some sextets: the bits not yet in a byte, and how
/// many there are.
pub open spec fn pending_ok(vals: Seq<int>, buf: u32, bits: u32) -> bool {
    let i = vals.len();
    let r = i % 4;
    if r == 0 {
        bits == 0 && buf == 0
    } else if r == 1 {
        bits == 6 && buf == vals[i - 1]
    } else if r == 2 {
        bits == 4 && buf == (vals[i - 2] * 64 + vals[i - 1]) % 16
    } else {
        bits == 2 && buf == (vals[i - 3] * 4096 + vals[i - 2] * 64 + vals[i - 1]) % 4
    }
}

/// The values of a run of alphabet characters.
pub open spec fn b64_values(s: Seq<char>) -> Seq<int> {
    s.map_values(|c: char| b64_index(c)->0)
}

proof fn lemma_tail_split(vals: Seq<int>)
    ensures
        ({
            let k = vals.len() - vals.len() % 4;
            &&& vals == vals.take(k) + vals.skip(k)
            &&& vals.take(k).len() % 4 == 0
            &&& sextet_bytes(vals) == sextet_bytes(vals.take(k)) + sextet_bytes(vals.skip(k))
        }),
{
    let k = vals.len() - vals.len() % 4;
    assert(vals =~= vals.take(k) + vals.skip(k));
    lemma_sextet_bytes_concat(vals.take(k), vals.skip(k));
}

/// What the decoder emits and keeps after taking one more sextet `x`.
pub open spec fn decode_step(buf: u32, bits: u32, x: u32) -> (Seq<u8>, u32, u32) {
    let nb = (buf << 6u32) | x;
    let nbits = bits + 6;
    if nbits >= 8 {
        let k = (nbits - 8) as u32;
        (seq![(nb >> k) as u8], nb & (((1u32 << k) - 1) as u32), k)
    } else {
        (Seq::<u8>::empty(), nb, nbits as u32)
    }
}

proof fn lemma_step_0(vals: Seq<int>, x: int)
    requires
        0 <= x < 64,
        vals.len() % 4 == 0,
    ensures
        sextet_bytes(vals.push(x)) == sextet_bytes(vals),
        pending_ok(vals.push(x), decode_step(0, 0, x as u32).1, decode_step(0, 0, x as u32).2),
        decode_step(0, 0, x as u32).0 == Seq::<u8>::empty(),
{
    let xu = x as u32;
    assert((0u32 << 6u32) | xu == xu) by (bit_vector);
    let w = vals.push(x);
    lemma_sextet_bytes_concat(vals, seq![x]);
    assert(w =~= vals + seq![x]);
    assert(sextet_bytes(seq![x]) =~= Seq::<u8>::empty());
    assert(sextet_bytes(vals) + Seq::<u8>::empty() =~= sextet_bytes(vals));
}

proof fn lemma_step_1(vals: Seq<int>, x: int)
    requires
        0 <= x < 64,
        vals.len() % 4 == 1,
        0 <= vals.last() < 64,
    ensures
        ({
            let a = vals.last();
            let st = decode_step(a as u32, 6, x as u32);
            &&& sextet_bytes(vals.push(x)) == sextet_bytes(vals) + st.0
            &&& pending_ok(vals.push(x), st.1, st.2)
        }),
{
    let a = vals.last();
    let au = a as u32;
    let xu = x as u32;
    let nb = (au << 6u32) | xu;
    assert(nb == au * 64 + xu && nb >> 4u32 == nb / 16 && nb & 15u32 == nb % 16 && ((1u32 << 4u32) - 1) as u32 == 15u32) by (bit_vector)
        requires
            au < 64,
            xu < 64,
            nb == (au << 6u32) | xu,
    ;
    let k = (vals.len() - 1) as int;
    let pre = vals.take(k);
    assert(vals =~= pre + seq![a]);
    assert(vals.push(x) =~= pre + seq![a, x]);
    lemma_sextet_bytes_concat(pre, seq![a]);
    lemma_sextet_bytes_concat(pre, seq![a, x]);
    assert(sextet_bytes(seq![a]) =~= Seq::<u8>::empty());
    assert(sextet_bytes(seq![a, x]) =~= seq![((a * 64 + x) / 16) as u8]);
    assert(sextet_bytes(pre) + Seq::<u8>::empty() =~= sextet_bytes(pre));
}

proof fn lemma_step_2(vals: Seq<int>, x: int, buf: u32)
    requires
        0 <= x < 64,
        vals.len() % 4 == 2,
        0 <= vals[vals.len() - 2] < 64,
        0 <= vals[vals.len() - 1] < 64,
        buf == (vals[vals.len() - 2] * 64 + vals[vals.len() - 1]) % 16,
    ensures
        ({
            let st = decode_step(buf, 4, x as u32);
            &&& sextet_bytes(vals.push(x)) == sextet_bytes(vals) + st.0
            &&& pending_ok(vals.push(x), st.1, st.2)
        }),
{
    let a = vals[vals.len() - 2];
    let b = vals[vals.len() - 1];
    let xu = x as u32;
    let nb = (buf << 6u32) | xu;
    assert(nb == buf * 64 + xu && nb >> 2u32 == nb / 4 && nb & 3u32 == nb % 4 && ((1u32 << 2u32) - 1) as u32 == 3u32) by (bit_vector)
        requires
            buf < 16,
            xu < 64,
            nb == (buf << 6u32) | xu,
    ;
    let t = a * 4096 + b * 64 + x;
    assert((((a * 64 + b) % 16) * 64 + x) / 4 == (t / 4) % 256 && (((a * 64 + b) % 16) * 64 + x) % 4 == t % 4 && (a * 64 + b) / 16 == t / 1024) by (nonlinear_arith)
        requires
            0 <= a < 64,
            0 <= b < 64,
            0 <= x < 64,
            t == a * 4096 + b * 64 + x,
    ;
    let k = (vals.len() - 2) as int;
    let pre = vals.take(k);
    assert(vals =~= pre + seq![a, b]);
    assert(vals.push(x) =~= pre + seq![a, b, x]);
    lemma_sextet_bytes_concat(pre, seq![a, b]);
    lemma_sextet_bytes_concat(pre, seq![a, b, x]);
    assert(sextet_bytes(seq![a, b]) =~= seq![((a * 64 + b) / 16) as u8]);
    assert(sextet_bytes(seq![a, b, x]) =~= seq![(t / 1024) as u8, ((t / 4) % 256) as u8]);
}

proof fn lemma_step_3(vals: Seq<int>, x: int, buf: u32)
    requires
        0 <= x < 64,
        vals.len() % 4 == 3,
        0 <= vals[vals.len() - 3] < 64,
        0 <= vals[vals.len() - 2] < 64,
        0 <= vals[vals.len() - 1] < 64,
        buf == (vals[vals.len() - 3] * 4096 + vals[vals.len() - 2] * 64 + vals[vals.len() - 1]) % 4,
    ensures
        ({
            let st = decode_step(buf, 2, x as u32);
            &&& sextet_bytes(vals.push(x)) == sextet_bytes(vals) + st.0
            &&& pending_ok(vals.push(x), st.1, st.2)
        }),
{
    let a = vals[vals.len() - 3];
    let b = vals[vals.len() - 2];
    let c = vals[vals.len() - 1];
    let xu = x as u32;
    let nb = (buf << 6u32) | xu;
    assert(nb == buf * 64 + xu && nb >> 0u32 == nb && nb & 0u32 == 0u32 && ((1u32 << 0u32) - 1) as u32 == 0u32) by (bit_vector)
        requires
            buf < 4,
            xu < 64,
            nb == (buf << 6u32) | xu,
    ;
    let t = a * 4096 + b * 64 + c;
    let tt = a * 262144 + b * 4096 + c * 64 + x;
    assert(tt / 65536 == t / 1024 && (tt / 256) % 256 == (t / 4) % 256 && tt % 256 == (t % 4) * 64 + x) by (nonlinear_arith)
        requires
            0 <= a < 64,
            0 <= b < 64,
            0 <= c < 64,
            0 <= x < 64,
            t == a * 4096 + b * 64 + c,
            tt == a * 262144 + b * 4096 + c * 64 + x,
    ;
    let k = (vals.len() - 3) as int;
    let pre = vals.take(k);
    assert(vals =~= pre + seq![a, b, c]);
    assert(vals.push(x) =~= pre + seq![a, b, c, x]);
    lemma_sextet_bytes_concat(pre, seq![a, b, c]);
    lemma_sextet_bytes_concat(pre, seq![a, b, c, x]);
    assert(seq![a, b, c, x].skip(4) =~= Seq::<int>::empty());
    assert(sextet_bytes(Seq::<int>::empty()) =~= Seq::<u8>::empty());
    assert(sextet_bytes(seq![a, b, c, x]) == seq![(tt / 65536) as u8, ((tt / 256) % 256) as u8, (tt % 256) as u8] + sextet_bytes(seq![a, b, c, x].skip(4)));
    assert(sextet_bytes(seq![a, b, c]) =~= seq![(t / 1024) as u8, ((t / 4) % 256) as u8]);
    assert(sextet_bytes(seq![a, b, c, x]) =~= seq![(tt / 65536) as u8, ((tt / 256) % 256) as u8, (tt % 256) as u8]);
}

/// One decoding step keeps the decoder state in step with the sextets.
proof fn lemma_decode_step(vals: Seq<int>, x: int, buf: u32, bits: u32)
    requires
        0 <= x < 64,
        forall|j: int| 0 <= j < vals.len() ==> 0 <= #[trigger] vals[j] < 64,
        pending_ok(vals, buf, bits),
    ensures
        sextet_bytes(vals.push(x)) == sextet_bytes(vals) + decode_step(buf, bits, x as u32).0,
        pending_ok(vals.push(x), decode_step(buf, bits, x as u32).1, decode_step(buf, bits, x as u32).2),
        bits == 0 || bits == 2 || bits == 4 || bits == 6,
{
    let r = vals.len() % 4;
    if r == 0 {
        lemma_step_0(vals, x);
    } else if r == 1 {
        lemma_step_1(vals, x);
    } else if r == 2 {
        lemma_step_2(vals, x, buf);
    } else {
        lemma_step_3(vals, x, buf);
    }
}

/// Decode standard base64; trailing `=` padding is ignored, and any other
/// character outside the alphabet is an error.
pub fn base64_decode_simple(input: &str) -> (r: Result<Vec<u8>, String>)
    ensures
        match r {
            Ok(v) => b64_decode_spec(input@) == Ok::<Seq<u8>, Seq<char>>(v@),
            Err(e) => b64_decode_spec(input@) == Err::<Seq<u8>, Seq<char>>(e@),
        },
{
    let v = chars_of(input);
    let mut end = v.len();
    assert(v@.take(end as int) == v@);
    while end > 0 && v[end - 1] == '='
        invariant
            end <= v.len(),
            v@ == input@,
            trim_end_padding(v@) == trim_end_padding(v@.take(end as int)),
        decreases end,
    {
        assert(v@.take(end as int).drop_last() == v@.take(end - 1));
        end = end - 1;
    }
    let ghost t = v@.take(end as int);
    assert(trim_end_padding(t) == t);
    let mut out: Vec<u8> = Vec::new();
    let mut buf: u32 = 0;
    let mut bits: u32 = 0;
    let mut i: usize = 0;
    assert(b64_values(t.take(0)) =~= Seq::<int>::empty());
    assert(sextet_bytes(Seq::<int>::empty()) =~= Seq::<u8>::empty());
    while i < end
        invariant
            i <= end <= v.len(),
            t == v@.take(end as int),
            v@ == input@,
            trim_end_padding(input@) == t,
            all_b64(t.take(i as int)),
            forall|j: int| 0 <= j < i ==> 0 <= #[trigger] b64_values(t.take(i as int))[j] < 64,
            out@ == sextet_bytes(b64_values(t.take(i as int))),
            pending_ok(b64_values(t.take(i as int)), buf, bits),
        decreases end - i,
    {
        let c = v[i];
        assert(t[i as int] == c);
        match b64_index_of(c) {
            None => {
                assert(!all_b64(t));
                return Err(string_of("invalid base64 character"));
            },
            Some(val) => {
                let ghost vals = b64_values(t.take(i as int));
                proof {
                    lemma_decode_step(vals, val as int, buf, bits);
                }
                let ghost st = decode_step(buf, bits, val);
                assert(b64_values(t.take(i + 1)) =~= vals.push(val as int));
                buf = (buf << 6u32) | val;
                bits = bits + 6;
                if bits >= 8 {
                    bits = bits - 8;
                    assert(1u32 << bits >= 1) by (bit_vector)
                        requires
                            bits <= 4,
                    ;
                    out.push((buf >> bits) as u8);
                    buf = buf & ((1u32 << bits) - 1);
                }
                assert(out@ =~= sextet_bytes(vals) + st.0);
                assert(all_b64(t.take(i + 1))) by {
                    assert forall|j: int| 0 <= j < i + 1 implies (#[trigger] b64_index(t.take(i + 1)[j])) is Some by {
                        if j < i {
                            assert(t.take(i + 1)[j] == t.take(i as int)[j]);
                        }
                    }
                }
            },
        }
        i = i + 1;
    }
    assert(t.take(end as int) == t);
    Ok(out)
}

proof fn lemma_b64_char_index(i: int)
    requires
        0 <= i < 64,
    ensures
        b64_index(b64_char(i)) == Some(i),
        b64_char(i) != '=',
{
    if i < 26 {
        assert(((65 + i) as char) as u32 == 65 + i);
    } else if i < 52 {
        assert(((97 + (i - 26)) as char) as u32 == 97 + (i - 26));
    } else if i < 62 {
        assert(((48 + (i - 52)) as char) as u32 == 48 + (i - 52));
    }
}

/// Every sextet is below 64.
proof fn lemma_sextets_range(b: Seq<u8>)
    ensures
        forall|j: int| 0 <= j < sextets(b).len() ==> 0 <= #[trigger] sextets(b)[j] < 64,
    decreases b.len(),
{
    if b.len() >= 3 {
        lemma_sextets_range(b.skip(3));
        let t = b[0] * 65536 + b[1] * 256 + b[2];
        assert(t < 16777216);
        let g = group_sextets(t);
        assert forall|j: int| 0 <= j < sextets(b).len() implies 0 <= #[trigger] sextets(b)[j] < 64 by {
            if j >= 4 {
                assert(sextets(b)[j] == sextets(b.skip(3))[j - 4]);
            }
        }
    }
}

/// The sextets of some bytes carry those bytes back.
proof fn lemma_sextet_roundtrip(b: Seq<u8>)
    ensures
        sextet_bytes(sextets(b)) == b,
    decreases b.len(),
{
    if b.len() == 0 {
        assert(sextet_bytes(Seq::<int>::empty()) =~= b);
    } else if b.len() == 1 {
        let b0 = b[0] as int;
        let t = b0 * 65536;
        assert((((t / 262144) * 64 + (t / 4096) % 64) / 16) == b0) by (nonlinear_arith)
            requires
                0 <= b0 < 256,
                t == b0 * 65536,
        ;
        assert(sextet_bytes(sextets(b)) =~= b);
    } else if b.len() == 2 {
        let b0 = b[0] as int;
        let b1 = b[1] as int;
        let t = b0 * 65536 + b1 * 256;
        let u = (t / 262144) * 4096 + ((t / 4096) % 64) * 64 + (t / 64) % 64;
        assert(u / 1024 == b0 && (u / 4) % 256 == b1) by (nonlinear_arith)
            requires
                0 <= b0 < 256,
                0 <= b1 < 256,
                t == b0 * 65536 + b1 * 256,
                u == (t / 262144) * 4096 + ((t / 4096) % 64) * 64 + (t / 64) % 64,
        ;
        assert(sextet_bytes(sextets(b)) =~= b);
    } else {
        lemma_sextet_roundtrip(b.skip(3));
        let b0 = b[0] as int;
        let b1 = b[1] as int;
        let b2 = b[2] as int;
        let t = b0 * 65536 + b1 * 256 + b2;
        let g = group_sextets(t);
        let u = g[0] * 262144 + g[1] * 4096 + g[2] * 64 + g[3];
        assert(u == t) by (nonlinear_arith)
            requires
                0 <= t < 16777216,
                u == (t / 262144) * 262144 + ((t / 4096) % 64) * 4096 + ((t / 64) % 64) * 64 + t % 64,
        ;
        assert(t / 65536 == b0 && (t / 256) % 256 == b1 && t % 256 == b2) by (nonlinear_arith)
            requires
                0 <= b0 < 256,
                0 <= b1 < 256,
                0 <= b2 < 256,
                t == b0 * 65536 + b1 * 256 + b2,
        ;
        lemma_sextet_bytes_concat(g, sextets(b.skip(3)));
        assert(sextets(b) == g + sextets(b.skip(3)));
        assert(g.skip(4) =~= Seq::<int>::empty());
        assert(sextet_bytes(Seq::<int>::empty()) =~= Seq::<u8>::empty());
        assert(sextet_bytes(g) =~= seq![b0 as u8, b1 as u8, b2 as u8]);
        assert(b =~= seq![b[0], b[1], b[2]] + b.skip(3));
    }
}

/// Trailing padding after a text that does not end in `=` is dropped.
proof fn lemma_trim_padding(x: Seq<char>, n: nat)
    requires
        x.len() == 0 || x.last() != '=',
        n <= 2,
    ensures
        trim_end_padding(x + Seq::new(n, |i: int| '=')) == x,
    decreases n,
{
    let p = Seq::new(n, |i: int| '=');
    if n > 0 {
        let q = Seq::new((n - 1) as nat, |i: int| '=');
        assert((x + p).drop_last() =~= x + q);
        lemma_trim_padding(x, (n - 1) as nat);
    } else {
        assert(x + p =~= x);
    }
}

/// Decoding the base64 text of some bytes gives the bytes back.
pub proof fn lemma_base64_roundtrip(b: Seq<u8>)
    ensures
        b64_decode_spec(b64_encode_spec(b)) == Ok::<Seq<u8>, Seq<char>>(b),
{
    let sx = sextets(b);
    let x = sx.map_values(|i: int| b64_char(i));
    lemma_sextets_range(b);
    assert forall|j: int| 0 <= j < x.len() implies b64_index(x[j]) == Some(sx[j]) && x[j] != '=' by {
        lemma_b64_char_index(sx[j]);
    }
    let n: nat = if b.len() % 3 == 1 { 2 } else if b.len() % 3 == 2 { 1 } else { 0 };
    assert(b64_padding(b.len()) =~= Seq::new(n, |i: int| '='));
    if x.len() > 0 {
        assert(x.last() == x[x.len() - 1]);
    } else {
        assert(b.len() == 0 ==> n == 0);
        if b.len() > 0 {
            assert(sextets(b).len() > 0);
        }
    }
    lemma_trim_padding(x, n);
    assert(all_b64(x));
    assert(x.map_values(|c: char| b64_index(c)->0) =~= sx);
    lemma_sextet_roundtrip(b);
}

/// `s`, cut after `max_len` bytes with `...` appended when it is longer.
pub open spec fn truncated_spec(s: Seq<char>, max_len: nat) -> Seq<char> {
    if vstd::utf8::encode_utf8(s).len() <= max_len {
        s
    } else {
        vstd::utf8::decode_utf8(vstd::utf8::encode_utf8(s).subrange(0, max_len as int)) + "..."@
    }
}

/// Truncate `s` to `max_len` bytes, marking the cut with `...`.
pub fn truncate_tool_result(s: &str, max_len: usize) -> (r: String)
    requires
        s.len() <= max_len || vstd::utf8::is_char_boundary(s.spec_bytes(), max_len as int),
    ensures
        r@ == truncated_spec(s@, max_len as nat),
{
    let bytes = s.as_bytes();
    if bytes.len() <= max_len {
        string_of(s)
    } else {
        let (head, _tail) = s.split_at(max_len);
        proof {
            vstd::utf8::encode_utf8_decode_utf8(head@);
        }
        let mut r = string_of(head);
        r.append("...");
        r
    }
}

} // verus!
