//! Backslash-escape decoding and encoding for raw byte fields.
//!
//! A raw field travels escaped: `\\` stands for one backslash and `\xHH`
//! (two hex digits) for an arbitrary byte, so that a field may contain the
//! terminator byte that delimits it on the wire. Decoding rejects any other
//! use of a backslash.

use vstd::prelude::*;

use crate::errors::ErrorKind;
use crate::errors::IngestError;

verus! {

/// The backslash byte, the escape introducer.
pub const BACKSLASH: u8 = 0x5c;

/// The value of one hex digit byte, or `None` if the byte is no hex digit.
pub open spec fn hex_val(b: u8) -> Option<u8> {
    if 0x30 <= b && b <= 0x39 {
        Some((b - 0x30) as u8)
    } else if 0x61 <= b && b <= 0x66 {
        Some((b - 0x61 + 10) as u8)
    } else if 0x41 <= b && b <= 0x46 {
        Some((b - 0x41 + 10) as u8)
    } else {
        None
    }
}

/// The lowercase hex digit byte for a value below 16.
pub open spec fn hex_digit(v: u8) -> u8
    recommends
        v < 16,
{
    if v < 10 {
        (0x30 + v) as u8
    } else {
        (0x61 + (v - 10)) as u8
    }
}

/// Decodes a backslash-escaped byte sequence; `None` on a malformed escape.
pub open spec fn unescape_spec(s: Seq<u8>) -> Option<Seq<u8>>
    decreases s.len(),
{
    if s.len() == 0 {
        Some(Seq::empty())
    } else if s[0] == BACKSLASH {
        if s.len() >= 2 && s[1] == BACKSLASH {
            match unescape_spec(s.skip(2)) {
                Some(r) => Some(seq![BACKSLASH] + r),
                None => None,
            }
        } else if s.len() >= 4 && s[1] == 0x78 && hex_val(s[2]) is Some && hex_val(s[3]) is Some {
            match unescape_spec(s.skip(4)) {
                Some(r) => Some(
                    seq![(hex_val(s[2]).unwrap() * 16 + hex_val(s[3]).unwrap()) as u8] + r,
                ),
                None => None,
            }
        } else {
            None
        }
    } else {
        match unescape_spec(s.skip(1)) {
            Some(r) => Some(seq![s[0]] + r),
            None => None,
        }
    }
}

/// Encodes a byte sequence so that the result holds neither a bare
/// backslash nor the protected byte: a backslash becomes `\\` and the
/// protected byte becomes `\xHH`.
pub open spec fn escape_spec(s: Seq<u8>, protected: u8) -> Seq<u8>
    decreases s.len(),
{
    if s.len() == 0 {
        Seq::empty()
    } else {
        let head = if s[0] == BACKSLASH {
            seq![BACKSLASH, BACKSLASH]
        } else if s[0] == protected {
            seq![BACKSLASH, 0x78u8, hex_digit(s[0] / 16), hex_digit(s[0] % 16)]
        } else {
            seq![s[0]]
        };
        head + escape_spec(s.skip(1), protected)
    }
}

/// A hex digit pair written by `escape_spec` decodes to the byte it encodes.
proof fn lemma_hex_digit_roundtrip(b: u8)
    ensures
        hex_val(hex_digit(b / 16)) == Some((b / 16) as u8),
        hex_val(hex_digit(b % 16)) == Some((b % 16) as u8),
        hex_val(hex_digit(b / 16)).unwrap() * 16 + hex_val(hex_digit(b % 16)).unwrap() == b,
{
}

/// Decoding inverts encoding: for every byte sequence and protected byte,
/// `unescape_spec` recovers the original from `escape_spec`'s output.
pub proof fn lemma_unescape_escape(s: Seq<u8>, protected: u8)
    ensures
        unescape_spec(escape_spec(s, protected)) == Some(s),
    decreases s.len(),
{
    if s.len() == 0 {
        assert(unescape_spec(escape_spec(s, protected)) == Some(Seq::<u8>::empty()));
        assert(s =~= Seq::<u8>::empty());
    } else {
        lemma_unescape_escape(s.skip(1), protected);
        let tail = escape_spec(s.skip(1), protected);
        if s[0] == BACKSLASH {
            let e = seq![BACKSLASH, BACKSLASH] + tail;
            assert(escape_spec(s, protected) == e);
            assert(e.skip(2) =~= tail);
            assert(unescape_spec(e) == Some(seq![BACKSLASH] + s.skip(1)));
            assert(seq![BACKSLASH] + s.skip(1) =~= s);
        } else if s[0] == protected {
            let e = seq![BACKSLASH, 0x78u8, hex_digit(s[0] / 16), hex_digit(s[0] % 16)] + tail;
            assert(escape_spec(s, protected) == e);
            assert(e.skip(4) =~= tail);
            lemma_hex_digit_roundtrip(s[0]);
            assert(e[0] == BACKSLASH && e[1] == 0x78u8);
            assert(unescape_spec(e) == Some(seq![s[0]] + s.skip(1)));
            assert(seq![s[0]] + s.skip(1) =~= s);
        } else {
            let e = seq![s[0]] + tail;
            assert(escape_spec(s, protected) == e);
            assert(e.skip(1) =~= tail);
            assert(e[0] != BACKSLASH);
            assert(unescape_spec(e) == Some(seq![s[0]] + s.skip(1)));
            assert(seq![s[0]] + s.skip(1) =~= s);
        }
    }
}

/// A terminator byte that the escape alphabet never emits: not a backslash,
/// not the letter `x`, and not a hex digit. The default terminator `:`
/// qualifies.
pub open spec fn escapable_terminator(t: u8) -> bool {
    t != BACKSLASH && t != 0x78 && hex_val(t) is None
}

/// Encoding never emits the protected byte, provided the escape alphabet
/// itself cannot spell it.
pub proof fn lemma_escape_avoids_protected(s: Seq<u8>, protected: u8)
    requires
        escapable_terminator(protected),
    ensures
        !escape_spec(s, protected).contains(protected),
    decreases s.len(),
{
    if s.len() == 0 {
    } else {
        lemma_escape_avoids_protected(s.skip(1), protected);
        let tail = escape_spec(s.skip(1), protected);
        let e = escape_spec(s, protected);
        if s[0] == BACKSLASH {
            assert(e == seq![BACKSLASH, BACKSLASH] + tail);
        } else if s[0] == protected {
            lemma_hex_digit_roundtrip(s[0]);
            assert(hex_digit(s[0] / 16) != protected && hex_digit(s[0] % 16) != protected) by {
                assert(hex_val(protected) is None);
            }
            assert(e == seq![BACKSLASH, 0x78u8, hex_digit(s[0] / 16), hex_digit(s[0] % 16)]
                + tail);
        } else {
            assert(e == seq![s[0]] + tail);
        }
        assert forall|i: int| 0 <= i < e.len() implies e[i] != protected by {
            let head_len = e.len() - tail.len();
            if i >= head_len {
                assert(e[i] == tail[i - head_len]);
                assert(!tail.contains(protected));
            }
        }
    }
}

/// Decodes one hex digit byte; `None` if the byte is no hex digit.
fn hex_val_exec(b: u8) -> (r: Option<u8>)
    ensures
        r == hex_val(b),
{
    if 0x30 <= b && b <= 0x39 {
        Some(b - 0x30)
    } else if 0x61 <= b && b <= 0x66 {
        Some(b - 0x61 + 10)
    } else if 0x41 <= b && b <= 0x46 {
        Some(b - 0x41 + 10)
    } else {
        None
    }
}

/// Decodes a backslash-escaped byte sequence, rejecting malformed escapes
/// with an encoding error.
pub fn unescape(input: &[u8]) -> (r: Result<Vec<u8>, IngestError>)
    ensures
        match r {
            Ok(out) => unescape_spec(input@) == Some(out@),
            Err(e) => unescape_spec(input@) is None && e.kind == ErrorKind::Encoding,
        },
{
    let mut out: Vec<u8> = Vec::new();
    let mut i: usize = 0;
    proof {
        assert(input@.skip(0) =~= input@);
        if unescape_spec(input@) is Some {
            assert(out@ + unescape_spec(input@).unwrap() =~= unescape_spec(input@).unwrap());
        }
    }
    while i < input.len()
        invariant
            i <= input.len(),
            unescape_spec(input@) == match unescape_spec(input@.skip(i as int)) {
                Some(r) => Some(out@ + r),
                None => None::<Seq<u8>>,
            },
        decreases input.len() - i,
    {
        let b = input[i];
        if b == BACKSLASH {
            if input.len() - i > 1 && input[i + 1] == BACKSLASH {
                proof {
                    assert(input@.skip(i as int).skip(2) =~= input@.skip(i + 2));
                }
                out.push(BACKSLASH);
                i = i + 2;
            } else if input.len() - i > 3 && input[i + 1] == 0x78 {
                let hi = hex_val_exec(input[i + 2]);
                let lo = hex_val_exec(input[i + 3]);
                match (hi, lo) {
                    (Some(h), Some(l)) => {
                        proof {
                            assert(input@.skip(i as int).skip(4) =~= input@.skip(i + 4));
                        }
                        out.push(h * 16 + l);
                        i = i + 4;
                    },
                    _ => {
                        return Err(
                            IngestError::new(
                                ErrorKind::Encoding,
                                String::from_str("invalid escape sequence"),
                            ),
                        );
                    },
                }
            } else {
                return Err(
                    IngestError::new(
                        ErrorKind::Encoding,
                        String::from_str("invalid escape sequence"),
                    ),
                );
            }
        } else {
            proof {
                assert(input@.skip(i as int).skip(1) =~= input@.skip(i + 1));
            }
            out.push(b);
            i = i + 1;
        }
    }
    proof {
        assert(input@.skip(input.len() as int) =~= Seq::<u8>::empty());
    }
    Ok(out)
}

/// Encodes a byte sequence for the wire, escaping backslashes and the
/// protected byte per `escape_spec`.
pub fn escape(input: &[u8], protected: u8) -> (r: Vec<u8>)
    ensures
        r@ == escape_spec(input@, protected),
{
    let mut out: Vec<u8> = Vec::new();
    let mut i: usize = 0;
    proof {
        assert(input@.skip(0) =~= input@);
        assert(out@ + escape_spec(input@, protected) =~= escape_spec(input@, protected));
    }
    while i < input.len()
        invariant
            i <= input.len(),
            escape_spec(input@, protected) == out@ + escape_spec(
                input@.skip(i as int),
                protected,
            ),
        decreases input.len() - i,
    {
        let b = input[i];
        proof {
            assert(input@.skip(i as int).skip(1) =~= input@.skip(i + 1));
        }
        if b == BACKSLASH {
            out.push(BACKSLASH);
            out.push(BACKSLASH);
        } else if b == protected {
            out.push(BACKSLASH);
            out.push(0x78);
            let hi = b / 16;
            let lo = b % 16;
            out.push(if hi < 10 { 0x30 + hi } else { 0x61 + (hi - 10) });
            out.push(if lo < 10 { 0x30 + lo } else { 0x61 + (lo - 10) });
        } else {
            out.push(b);
        }
        i = i + 1;
        proof {
            assert(escape_spec(input@, protected) == out@ + escape_spec(
                input@.skip(i as int),
                protected,
            ));
        }
    }
    proof {
        assert(input@.skip(input.len() as int) =~= Seq::<u8>::empty());
        assert(out@ + escape_spec(input@.skip(input.len() as int), protected) =~= out@);
    }
    out
}

} // verus!
