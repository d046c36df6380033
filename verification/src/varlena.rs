//! Variable-length values: a length word followed by the payload bytes.
//!
//! The server stores the total size of a value (length word included) shifted
//! left by two bits in the length word. For a value that is neither compressed
//! nor moved out of line, the payload therefore holds `len / 4 - 4` bytes.

use vstd::prelude::*;
use vstd::string::*;
use vstd::utf8::*;

verus! {

/// Size in bytes of the length word in front of the payload.
pub const VARHDRSZ: usize = 4;

/// Largest payload, in bytes, whose total size still fits the 30 bits that the
/// length word has for it.
pub const MAX_PAYLOAD: usize = 0x3FFF_FFFB;

/// A variable-length value as the server lays it out: the length word and the
/// payload that follows it.
#[derive(Debug)]
pub struct Varlena {
    pub len: u32,
    pub data: Vec<u8>,
}

/// Why a buffer could not be decoded.
#[derive(Debug, Clone, Copy, PartialEq, Eq, Structural)]
pub enum DecodeError {
    /// The length word and the bytes held do not agree: the value is not in
    /// the plain, fully resident form.
    NotSimple,
    /// The payload is not valid UTF-8.
    InvalidUtf8,
}

/// The length word of a plain value with `n` payload bytes.
pub open spec fn length_word(n: int) -> int {
    4 * (n + 4)
}

/// The number of payload bytes that a length word announces.
pub open spec fn payload_len(len: u32) -> int {
    len as int / 4 - 4
}

/// `core::str::from_utf8` of std: when the bytes are valid UTF-8 the result is
/// the string slice made of exactly these bytes, otherwise there is none.
#[verifier::external_body]
fn str_from_utf8(bytes: &[u8]) -> (r: Option<&str>)
    ensures
        r is Some <==> valid_utf8(bytes@),
        r is Some ==> r->0.spec_bytes() == bytes@,
{
    match core::str::from_utf8(bytes) {
        Ok(s) => Some(s),
        Err(_) => None,
    }
}

impl Varlena {
    /// The buffer is in the plain form: the length word announces exactly the
    /// payload that is held.
    pub open spec fn is_simple(&self) -> bool {
        &&& self.len / 4 >= 4
        &&& self.data@.len() == payload_len(self.len)
    }

    /// The buffer is the plain encoding of `payload`.
    pub open spec fn holds(&self, payload: Seq<u8>) -> bool {
        &&& self.len == length_word(payload.len() as int)
        &&& self.data@ == payload
    }

    /// Wraps `payload` in the plain form.
    pub fn from_bytes(payload: Vec<u8>) -> (v: Varlena)
        requires
            payload@.len() <= MAX_PAYLOAD,
        ensures
            v.holds(payload@),
            v.is_simple(),
    {
        let n: usize = payload.len();
        let total: u32 = (n + VARHDRSZ) as u32;
        Varlena { len: total * 4, data: payload }
    }

    /// Encodes a string as a plain buffer whose payload is its UTF-8 bytes.
    pub fn from_str(value: &str) -> (v: Varlena)
        requires
            value.spec_bytes().len() <= MAX_PAYLOAD,
        ensures
            v.holds(value.spec_bytes()),
            v.is_simple(),
            v.decodable(),
            v.decoded() == value@,
    {
        proof {
            encode_utf8_valid_utf8(value@);
            encode_utf8_decode_utf8(value@);
        }
        Varlena::from_bytes(value.as_bytes_vec())
    }

    /// Whether the length word agrees with the bytes held.
    pub fn check_simple(&self) -> (b: bool)
        ensures
            b == self.is_simple(),
    {
        let words: u32 = self.len / 4;
        words >= 4 && self.data.len() == (words - 4) as usize
    }

    /// Decodes the payload, taking its bytes out of the buffer, after checking
    /// that the buffer is plain and the payload valid UTF-8. A buffer that is
    /// refused is left as it was.
    pub fn decode(&mut self) -> (r: Result<String, DecodeError>)
        ensures
            r is Ok <==> old(self).decodable(),
            r is Ok ==> r->Ok_0@ == old(self).decoded()
                && encode_utf8(r->Ok_0@) == old(self).data@
                && final(self).len == old(self).len
                && final(self).data@.len() == 0,
            r is Err ==> *final(self) == *old(self),
            r == Err::<String, DecodeError>(DecodeError::NotSimple) <==> !old(self).is_simple(),
            r == Err::<String, DecodeError>(DecodeError::InvalidUtf8) <==> old(self).is_simple()
                && !valid_utf8(old(self).data@),
    {
        if !self.check_simple() {
            return Err(DecodeError::NotSimple);
        }
        let decoded: Option<String> = match str_from_utf8(self.data.as_slice()) {
            Some(s) => {
                proof {
                    encode_utf8_decode_utf8(s@);
                }
                Some(s.to_owned())
            },
            None => None,
        };
        match decoded {
            Some(s) => {
                self.data = Vec::new();
                Ok(s)
            },
            None => Err(DecodeError::InvalidUtf8),
        }
    }
}

/// Conversion of a server value into a native string.
pub trait PgConvert {
    /// The value is in a form that `to_string` can decode.
    spec fn decodable(&self) -> bool;

    /// The characters that `to_string` yields.
    spec fn decoded(&self) -> Seq<char>;

    /// Decodes the value into an owned string.
    fn to_string(&mut self) -> (s: String)
        requires
            old(self).decodable(),
        ensures
            s@ == old(self).decoded(),
    ;
}

impl PgConvert for Varlena {
    open spec fn decodable(&self) -> bool {
        self.is_simple() && valid_utf8(self.data@)
    }

    open spec fn decoded(&self) -> Seq<char> {
        decode_utf8(self.data@)
    }

    /// Reads the `len / 4 - 4` payload bytes as a string and hands them over
    /// to it: the buffer keeps its length word and holds no bytes afterwards.
    fn to_string(&mut self) -> (s: String)
        ensures
            encode_utf8(s@) == old(self).data@,
            encode_utf8(s@).len() == payload_len(old(self).len),
            final(self).len == old(self).len,
            final(self).data@.len() == 0,
    {
        match self.decode() {
            Ok(s) => s,
            Err(_) => vstd::pervasive::unreached(),
        }
    }
}

/// A string that was wrapped as a plain buffer can be decoded, and decodes
/// to the same characters and the same bytes.
pub proof fn lemma_wrap_then_decode(value: Seq<char>, buf: Varlena)
    requires
        buf.holds(encode_utf8(value)),
    ensures
        buf.is_simple(),
        buf.decodable(),
        buf.decoded() == value,
        encode_utf8(buf.decoded()) == encode_utf8(value),
        payload_len(buf.len) == encode_utf8(value).len(),
{
    encode_utf8_valid_utf8(value);
    encode_utf8_decode_utf8(value);
}

/// A buffer that can be decoded yields a string of `len / 4 - 4` bytes: the
/// bytes of its payload.
pub proof fn lemma_decoded_length(buf: Varlena)
    requires
        buf.decodable(),
    ensures
        encode_utf8(buf.decoded()) == buf.data@,
        encode_utf8(buf.decoded()).len() == payload_len(buf.len),
{
    decode_utf8_encode_utf8(buf.data@);
}

/// The `text` type of SQL.
#[derive(Debug)]
pub struct Text {
    pub p: Varlena,
}

/// The blank-padded `char(n)` type of SQL.
#[derive(Debug)]
pub struct BpChar {
    pub p: Varlena,
}

/// The `varchar(n)` type of SQL.
#[derive(Debug)]
pub struct VarChar {
    pub p: Varlena,
}

/// The `bytea` type of SQL.
#[derive(Debug)]
pub struct Bytea {
    pub p: Varlena,
}

} // verus!
