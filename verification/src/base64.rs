//! Standard Base64 (RFC 4648 alphabet, '=' padding) over bytes collected by writes.

use vstd::prelude::*;
use crate::text::push_char;

verus! {

/// The Base64 symbol of a 6-bit value: 'A'..='Z' for 0..26, 'a'..='z' for
/// 26..52, '0'..='9' for 52..62, '+' for 62 and '/' for 63.
pub open spec fn b64_symbol(v: int) -> char {
    if v < 26 {
        (v + 65) as char
    } else if v < 52 {
        (v - 26 + 97) as char
    } else if v < 62 {
        (v - 52 + 48) as char
    } else if v == 62 {
        '+'
    } else {
        '/'
    }
}

/// The four output characters for one group of `n` input bytes (`1 <= n <= 3`);
/// missing bytes count as zero and their output positions are '='.
pub open spec fn encode_group(b0: u8, b1: u8, b2: u8, n: nat) -> Seq<char> {
    seq![
        b64_symbol((b0 / 4) as int),
        b64_symbol((b0 % 4) * 16 + b1 / 16),
        if n > 1 { b64_symbol((b1 % 16) * 4 + b2 / 64) } else { '=' },
        if n > 2 { b64_symbol((b2 % 64) as int) } else { '=' },
    ]
}

/// Number of input bytes in the first group of `data`.
pub open spec fn group_len(data: Seq<u8>) -> nat {
    if data.len() >= 3 {
        3
    } else {
        data.len()
    }
}

/// The Base64 text of `data`: one group of four characters per three input
/// bytes, the last group padded with '='.
pub open spec fn base64_encode(data: Seq<u8>) -> Seq<char>
    decreases data.len(),
{
    if data.len() == 0 {
        seq![]
    } else {
        let b1: u8 = if data.len() > 1 { data[1] } else { 0 };
        let b2: u8 = if data.len() > 2 { data[2] } else { 0 };
        encode_group(data[0], b1, b2, group_len(data)) + base64_encode(
            data.subrange(group_len(data) as int, data.len() as int),
        )
    }
}

/// The symbol of a 6-bit value.
fn symbol(v: u8) -> (c: char)
    requires
        v < 64,
    ensures
        c == b64_symbol(v as int),
{
    if v < 26 {
        (v + 65) as char
    } else if v < 52 {
        (v - 26 + 97) as char
    } else if v < 62 {
        (v - 52 + 48) as char
    } else if v == 62 {
        '+'
    } else {
        '/'
    }
}

/// `std::io::Error`, the error type of the writer interface; the encoder never
/// produces one.
#[verifier::external_type_specification]
#[verifier::external_body]
pub struct ExIoError(std::io::Error);

/// An encoder that collects bytes and turns them into Base64 text at the end.
pub struct Base64Encoder {
    data: Vec<u8>,
}

impl View for Base64Encoder {
    type V = Seq<u8>;

    /// The bytes written so far.
    closed spec fn view(&self) -> Seq<u8> {
        self.data@
    }
}

/// A new, empty encoder.
pub fn base64_encoder() -> (e: Base64Encoder)
    ensures
        e@ == Seq::<u8>::empty(),
{
    Base64Encoder::new()
}

impl Base64Encoder {
    /// A new, empty encoder.
    pub fn new() -> (e: Self)
        ensures
            e@ == Seq::<u8>::empty(),
    {
        Base64Encoder { data: Vec::new() }
    }

    fn append(&mut self, buf: &[u8])
        ensures
            final(self)@ == old(self)@ + buf@,
    {
        let mut i: usize = 0;
        while i < buf.len()
            invariant
                i <= buf.len(),
                self.data@ == old(self)@ + buf@.subrange(0, i as int),
            decreases buf.len() - i,
        {
            self.data.push(buf[i]);
            i = i + 1;
            assert(self.data@ =~= old(self)@ + buf@.subrange(0, i as int));
        }
        assert(buf@.subrange(0, buf.len() as int) =~= buf@);
    }

    /// Appends all of `buf`; reports every byte as written.
    pub fn write(&mut self, buf: &[u8]) -> (res: Result<usize, std::io::Error>)
        ensures
            final(self)@ == old(self)@ + buf@,
            res matches Ok(n) && n == buf.len(),
    {
        self.append(buf);
        Ok(buf.len())
    }

    /// Appends all of `buf`; never fails.
    pub fn write_all(&mut self, buf: &[u8]) -> (res: Result<(), std::io::Error>)
        ensures
            final(self)@ == old(self)@ + buf@,
            res is Ok,
    {
        self.append(buf);
        Ok(())
    }

    /// Nothing is buffered outside the encoder, so flushing does nothing.
    pub fn flush(&mut self) -> (res: Result<(), std::io::Error>)
        ensures
            final(self)@ == old(self)@,
            res is Ok,
    {
        Ok(())
    }

    /// The Base64 text of all bytes written.
    pub fn finish(self) -> (res: String)
        ensures
            res@ == base64_encode(self@),
    {
        let data = self.data;
        let len = data.len();
        let mut res = String::new();
        let mut i: usize = 0;
        assert(data@.subrange(0, len as int) =~= data@);
        while i < len
            invariant
                len == data@.len(),
                i <= len,
                base64_encode(data@) == res@ + base64_encode(data@.subrange(i as int, len as int)),
            decreases len - i,
        {
            let rest = len - i;
            let b0 = data[i];
            let b1: u8 = if rest > 1 { data[i + 1] } else { 0 };
            let b2: u8 = if rest > 2 { data[i + 2] } else { 0 };
            let n: usize = if rest >= 3 { 3 } else { rest };
            let ghost tail = data@.subrange(i as int, len as int);
            let ghost before = res@;
            push_char(&mut res, symbol(b0 / 4));
            push_char(&mut res, symbol((b0 % 4) * 16 + b1 / 16));
            if rest > 1 {
                push_char(&mut res, symbol((b1 % 16) * 4 + b2 / 64));
            } else {
                push_char(&mut res, '=');
            }
            if rest > 2 {
                push_char(&mut res, symbol(b2 % 64));
            } else {
                push_char(&mut res, '=');
            }
            proof {
                assert(tail.subrange(n as int, tail.len() as int) =~= data@.subrange(
                    (i + n) as int,
                    len as int,
                ));
                assert(res@ =~= before + encode_group(b0, b1, b2, n as nat));
            }
            i = i + n;
        }
        res
    }
}

/// Every group of input bytes becomes four characters, the last group padded.
pub proof fn lemma_encoded_len(data: Seq<u8>)
    ensures
        base64_encode(data).len() == 4 * ((data.len() + 2) / 3),
    decreases data.len(),
{
    if data.len() > 0 {
        lemma_encoded_len(data.subrange(group_len(data) as int, data.len() as int));
    }
}

/// Encoding is compositional at group boundaries: when the first part has a
/// length divisible by three, encoding the concatenation is concatenating the
/// encodings.
pub proof fn lemma_encode_concat(a: Seq<u8>, b: Seq<u8>)
    requires
        a.len() % 3 == 0,
    ensures
        base64_encode(a + b) == base64_encode(a) + base64_encode(b),
    decreases a.len(),
{
    if a.len() == 0 {
        assert(a + b =~= b);
        assert(base64_encode(a) + base64_encode(b) =~= base64_encode(b));
    } else {
        let rest = a.subrange(3, a.len() as int);
        lemma_encode_concat(rest, b);
        assert((a + b).subrange(3, (a + b).len() as int) =~= rest + b);
        assert((a + b)[0] == a[0] && (a + b)[1] == a[1] && (a + b)[2] == a[2]);
        assert(base64_encode(a + b) =~= encode_group(a[0], a[1], a[2], 3) + base64_encode(rest
            + b));
        assert(base64_encode(a) =~= encode_group(a[0], a[1], a[2], 3) + base64_encode(rest));
    }
}

/// A character of the Base64 alphabet.
pub open spec fn is_b64_symbol(c: char) -> bool {
    ||| 65 <= c as u32 <= 90
    ||| 97 <= c as u32 <= 122
    ||| 48 <= c as u32 <= 57
    ||| c == '+'
    ||| c == '/'
}

/// How many '=' end the text of `n` input bytes.
pub open spec fn padding_len(n: nat) -> nat {
    if n % 3 == 0 {
        0
    } else {
        (3 - n % 3) as nat
    }
}

proof fn lemma_symbol_in_alphabet(v: int)
    requires
        0 <= v < 64,
    ensures
        is_b64_symbol(b64_symbol(v)),
{
}

/// The Base64 text is alphabet characters followed by the padding: exactly
/// the last `padding_len` characters are '=' and all others are symbols.
pub proof fn lemma_encoded_alphabet(data: Seq<u8>)
    ensures
        forall|i: int|
            0 <= i < base64_encode(data).len() ==> if i >= base64_encode(data).len()
                - padding_len(data.len()) {
                #[trigger] base64_encode(data)[i] == '='
            } else {
                is_b64_symbol(base64_encode(data)[i])
            },
    decreases data.len(),
{
    lemma_encoded_len(data);
    if data.len() > 0 {
        let g = group_len(data);
        let rest = data.subrange(g as int, data.len() as int);
        lemma_encoded_alphabet(rest);
        lemma_encoded_len(rest);
        let b1: u8 = if data.len() > 1 { data[1] } else { 0 };
        let b2: u8 = if data.len() > 2 { data[2] } else { 0 };
        let head = encode_group(data[0], b1, b2, g);
        lemma_symbol_in_alphabet((data[0] / 4) as int);
        lemma_symbol_in_alphabet((data[0] % 4) * 16 + b1 / 16);
        lemma_symbol_in_alphabet((b1 % 16) * 4 + b2 / 64);
        lemma_symbol_in_alphabet((b2 % 64) as int);
        let e = base64_encode(data);
        assert(e == head + base64_encode(rest));
        if data.len() >= 3 {
            assert(padding_len(rest.len()) == padding_len(data.len()));
        } else {
            assert(rest.len() == 0);
        }
        assert forall|i: int| 0 <= i < e.len() implies if i >= e.len() - padding_len(data.len()) {
            #[trigger] e[i] == '='
        } else {
            is_b64_symbol(e[i])
        } by {
            if i >= 4 {
                assert(e[i] == base64_encode(rest)[i - 4]);
            }
        }
    }
}

/// The 6-bit value of a Base64 symbol (the inverse of `b64_symbol`; other
/// characters count as 0).
pub open spec fn b64_value(c: char) -> int {
    let x = c as u32;
    if 65 <= x <= 90 {
        x - 65
    } else if 97 <= x <= 122 {
        x - 97 + 26
    } else if 48 <= x <= 57 {
        x - 48 + 52
    } else if c == '+' {
        62
    } else if c == '/' {
        63
    } else {
        0
    }
}

/// The bytes of one group of four characters: three, or fewer when the
/// group ends in '=' padding.
pub open spec fn decode_group(c0: char, c1: char, c2: char, c3: char) -> Seq<u8> {
    let v0 = b64_value(c0);
    let v1 = b64_value(c1);
    let v2 = b64_value(c2);
    let v3 = b64_value(c3);
    let b0 = (v0 * 4 + v1 / 16) as u8;
    let b1 = ((v1 % 16) * 16 + v2 / 4) as u8;
    let b2 = ((v2 % 4) * 64 + v3) as u8;
    if c2 == '=' {
        seq![b0]
    } else if c3 == '=' {
        seq![b0, b1]
    } else {
        seq![b0, b1, b2]
    }
}

/// Standard padded Base64 decoding, group by group of four characters.
pub open spec fn base64_decode(t: Seq<char>) -> Seq<u8>
    decreases t.len(),
{
    if t.len() < 4 {
        seq![]
    } else {
        decode_group(t[0], t[1], t[2], t[3]) + base64_decode(t.subrange(4, t.len() as int))
    }
}

proof fn lemma_symbol_value(v: int)
    requires
        0 <= v < 64,
    ensures
        b64_value(b64_symbol(v)) == v,
        b64_symbol(v) != '=',
{
}

proof fn lemma_decode_group(b0: u8, b1: u8, b2: u8, n: nat)
    requires
        1 <= n <= 3,
    ensures
        ({
            let g = encode_group(b0, b1, b2, n);
            decode_group(g[0], g[1], g[2], g[3]) == seq![b0, b1, b2].subrange(0, n as int)
        }),
{
    let v0 = (b0 / 4) as int;
    let v1 = (b0 % 4) * 16 + b1 / 16;
    let v2 = (b1 % 16) * 4 + b2 / 64;
    let v3 = (b2 % 64) as int;
    lemma_symbol_value(v0);
    lemma_symbol_value(v1);
    lemma_symbol_value(v2);
    lemma_symbol_value(v3);
    assert(v0 * 4 + v1 / 16 == b0);
    assert((v1 % 16) * 16 + v2 / 4 == b1);
    assert((v2 % 4) * 64 + v3 == b2);
    let g = encode_group(b0, b1, b2, n);
    assert(decode_group(g[0], g[1], g[2], g[3]) =~= seq![b0, b1, b2].subrange(0, n as int));
}

/// Decoding the Base64 text of `data` gives `data` back.
pub proof fn lemma_decode_encode(data: Seq<u8>)
    ensures
        base64_decode(base64_encode(data)) == data,
    decreases data.len(),
{
    if data.len() > 0 {
        let g = group_len(data);
        let rest = data.subrange(g as int, data.len() as int);
        lemma_decode_encode(rest);
        let b1: u8 = if data.len() > 1 { data[1] } else { 0 };
        let b2: u8 = if data.len() > 2 { data[2] } else { 0 };
        let head = encode_group(data[0], b1, b2, g);
        lemma_decode_group(data[0], b1, b2, g);
        let e = base64_encode(data);
        assert(e == head + base64_encode(rest));
        assert(e.subrange(4, e.len() as int) =~= base64_encode(rest));
        assert(e[0] == head[0] && e[1] == head[1] && e[2] == head[2] && e[3] == head[3]);
        assert(seq![data[0], b1, b2].subrange(0, g as int) + rest =~= data);
    } else {
        assert(base64_encode(data) =~= Seq::<char>::empty());
        assert(data =~= Seq::<u8>::empty());
    }
}

/// Different data never have the same Base64 text.
pub proof fn lemma_encode_injective(a: Seq<u8>, b: Seq<u8>)
    requires
        base64_encode(a) == base64_encode(b),
    ensures
        a == b,
{
    lemma_decode_encode(a);
    lemma_decode_encode(b);
}

} // verus!
