//! The form-urlencoded request body: percent-encoding of the UTF-8 bytes of
//! each key and value, keys and values joined by `=`, pairs by `&`.

use vstd::prelude::*;
use vstd::string::StrSliceExecFns;
use vstd::utf8::encode_utf8;

use crate::text::push_char;

verus! {

/// Whether a byte is percent-encoded: everything but ASCII letters, digits,
/// `-`, `.`, `_` and `~`.
pub open spec fn spec_should_encode(b: u8) -> bool {
    !((97 <= b <= 122) || (65 <= b <= 90) || (48 <= b <= 57) || b == 45 || b == 46 || b == 95
        || b == 126)
}

/// The uppercase hexadecimal digit character for one digit value.
pub open spec fn hex_digit(d: u8) -> char
    recommends
        d < 16,
{
    if d < 10 {
        ((d + 48) as u8) as char
    } else {
        ((d + 55) as u8) as char
    }
}

/// The characters one byte contributes: itself, or a percent escape.
pub open spec fn encode_byte(b: u8) -> Seq<char> {
    if spec_should_encode(b) {
        seq!['%', hex_digit(b / 16), hex_digit(b % 16)]
    } else {
        seq![b as char]
    }
}

/// The characters a byte sequence encodes to.
pub open spec fn encode_bytes(s: Seq<u8>) -> Seq<char>
    decreases s.len(),
{
    if s.len() == 0 {
        Seq::empty()
    } else {
        encode_byte(s[0]) + encode_bytes(s.drop_first())
    }
}

/// One pair appended to a buffer: a joining `&` when the buffer is nonempty,
/// then the encoded key, `=`, and the encoded value.
pub open spec fn encode_pair(buf: Seq<char>, key: Seq<char>, value: Seq<char>) -> Seq<char> {
    (if buf.len() > 0 {
        buf.push('&')
    } else {
        buf
    }) + encode_bytes(encode_utf8(key)) + seq!['='] + encode_bytes(encode_utf8(value))
}

/// A pair list appended to a buffer, front to back.
pub open spec fn extend_encoded(buf: Seq<char>, pairs: Seq<(String, String)>) -> Seq<char>
    decreases pairs.len(),
{
    if pairs.len() == 0 {
        buf
    } else {
        extend_encoded(encode_pair(buf, pairs[0].0@, pairs[0].1@), pairs.drop_first())
    }
}

/// Encoding one more byte at the end of a sequence appends that byte's
/// characters.
proof fn lemma_encode_bytes_snoc(s: Seq<u8>, b: u8)
    ensures
        encode_bytes(s.push(b)) == encode_bytes(s) + encode_byte(b),
    decreases s.len(),
{
    if s.len() == 0 {
        assert(s.push(b).drop_first() =~= s);
        assert(encode_bytes(s.push(b)) =~= encode_bytes(s) + encode_byte(b));
    } else {
        assert(s.push(b).drop_first() =~= s.drop_first().push(b));
        lemma_encode_bytes_snoc(s.drop_first(), b);
        assert(encode_bytes(s.push(b)) =~= encode_bytes(s) + encode_byte(b));
    }
}

/// Appends the percent-encoding of one byte.
fn push_encoded_byte(buf: &mut String, b: u8)
    ensures
        final(buf)@ == old(buf)@ + encode_byte(b),
{
    if should_encode(b) {
        push_char(buf, '%');
        let hi: u8 = b / 16;
        let lo: u8 = b % 16;
        push_char(
            buf,
            if hi < 10 {
                (hi + 48) as char
            } else {
                (hi + 55) as char
            },
        );
        push_char(
            buf,
            if lo < 10 {
                (lo + 48) as char
            } else {
                (lo + 55) as char
            },
        );
        proof {
            assert(buf@ =~= old(buf)@ + encode_byte(b));
        }
    } else {
        push_char(buf, b as char);
        proof {
            assert(buf@ =~= old(buf)@ + encode_byte(b));
        }
    }
}

/// Appends the percent-encoding of a whole string.
fn push_encoded_str(buf: &mut String, s: &str)
    ensures
        final(buf)@ == old(buf)@ + encode_bytes(encode_utf8(s@)),
{
    let bytes = s.as_bytes_vec();
    let n = bytes.len();
    let mut i: usize = 0;
    proof {
        assert(buf@ =~= buf@ + encode_bytes(bytes@.take(0)));
    }
    while i < n
        invariant
            i <= n,
            n == bytes@.len(),
            bytes@ == encode_utf8(s@),
            buf@ == old(buf)@ + encode_bytes(bytes@.take(i as int)),
        decreases n - i,
    {
        push_encoded_byte(buf, bytes[i]);
        proof {
            assert(bytes@.take(i + 1) =~= bytes@.take(i as int).push(bytes@[i as int]));
            lemma_encode_bytes_snoc(bytes@.take(i as int), bytes@[i as int]);
        }
        i += 1;
    }
    proof {
        assert(bytes@.take(n as int) =~= bytes@);
    }
}

/// Whether a byte is percent-encoded rather than written as itself.
pub fn should_encode(byte: u8) -> (r: bool)
    ensures
        r == spec_should_encode(byte),
{
    !((97 <= byte && byte <= 122) || (65 <= byte && byte <= 90) || (48 <= byte && byte <= 57)
        || byte == 45 || byte == 46 || byte == 95 || byte == 126)
}

/// The two uppercase hexadecimal digits of one byte.
pub fn hex(byte: u8) -> (s: String)
    ensures
        s@ == seq![hex_digit(byte / 16), hex_digit(byte % 16)],
{
    let mut s = String::new();
    let hi: u8 = byte / 16;
    let lo: u8 = byte % 16;
    push_char(
        &mut s,
        if hi < 10 {
            (hi + 48) as char
        } else {
            (hi + 55) as char
        },
    );
    push_char(
        &mut s,
        if lo < 10 {
            (lo + 48) as char
        } else {
            (lo + 55) as char
        },
    );
    proof {
        assert(s@ =~= seq![hex_digit(byte / 16), hex_digit(byte % 16)]);
    }
    s
}

/// A form-urlencoded body under construction.
pub struct FastFormSerializer {
    buffer: String,
}

impl FastFormSerializer {
    /// What the serializer has written so far.
    pub closed spec fn buffered(self) -> Seq<char> {
        self.buffer@
    }

    /// Starts an empty body; the pairs only size the buffer.
    pub fn new(pairs: &Vec<(String, String)>) -> (s: Self)
        ensures
            s.buffered() == Seq::<char>::empty(),
    {
        let _ = pairs;
        FastFormSerializer { buffer: String::new() }
    }

    /// Appends every pair, front to back, each percent-encoded and joined to
    /// what the buffer already holds.
    pub fn extend_pairs(&mut self, pairs: &Vec<(String, String)>)
        ensures
            final(self).buffered() == extend_encoded(old(self).buffered(), pairs@),
    {
        let n = pairs.len();
        let mut i: usize = 0;
        proof {
            assert(pairs@.skip(0) =~= pairs@);
        }
        while i < n
            invariant
                i <= n,
                n == pairs@.len(),
                extend_encoded(self.buffered(), pairs@.skip(i as int)) == extend_encoded(
                    old(self).buffered(),
                    pairs@,
                ),
            decreases n - i,
        {
            let ghost before = self.buffer@;
            if !self.buffer.as_str().is_empty() {
                push_char(&mut self.buffer, '&');
            }
            push_encoded_str(&mut self.buffer, pairs[i].0.as_str());
            push_char(&mut self.buffer, '=');
            push_encoded_str(&mut self.buffer, pairs[i].1.as_str());
            proof {
                assert(self.buffer@ =~= encode_pair(before, pairs@[i as int].0@, pairs@[
                    i as int].1@));
                assert(pairs@.skip(i as int).drop_first() =~= pairs@.skip(i + 1));
                assert(pairs@.skip(i as int)[0] == pairs@[i as int]);
            }
            i += 1;
        }
        proof {
            assert(pairs@.skip(n as int) =~= Seq::<(String, String)>::empty());
        }
    }

    /// Hands the body out and leaves the serializer empty.
    pub fn finish(&mut self) -> (body: String)
        ensures
            body@ == old(self).buffered(),
            final(self).buffered() == Seq::<char>::empty(),
    {
        let body = self.buffer.clone();
        self.buffer = String::new();
        body
    }
}

} // verus!
