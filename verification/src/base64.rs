//! Base64 decoding of PEM certificate bodies. A PEM body is the base64 text
//! between the BEGIN and END markers: base64 characters broken into lines,
//! with optional `=` padding at the end. Decoding is specified exactly:
//! line breaks are stripped, trailing padding is stripped, and the remaining
//! characters are decoded in groups of four (a final group of two or three
//! characters yields one or two bytes).

use vstd::prelude::*;

verus! {

/// The 6-bit value of a base64 character, or -1 if the character is not in
/// the base64 alphabet.
pub open spec fn b64_val(c: u8) -> int {
    if 65 <= c <= 90 {
        c - 65
    } else if 97 <= c <= 122 {
        c - 71
    } else if 48 <= c <= 57 {
        c + 4
    } else if c == 43 {
        62
    } else if c == 47 {
        63
    } else {
        -1
    }
}

/// A carriage return or line feed, the characters that break a PEM body
/// into lines.
pub open spec fn is_line_break(c: u8) -> bool {
    c == 10 || c == 13
}

/// The sequence with all line breaks removed.
pub open spec fn strip_line_breaks(s: Seq<u8>) -> Seq<u8>
    decreases s.len(),
{
    if s.len() == 0 {
        Seq::empty()
    } else if is_line_break(s[0]) {
        strip_line_breaks(s.skip(1))
    } else {
        seq![s[0]] + strip_line_breaks(s.skip(1))
    }
}

/// The sequence with all trailing `=` padding characters removed.
pub open spec fn strip_padding(s: Seq<u8>) -> Seq<u8>
    decreases s.len(),
{
    if s.len() > 0 && s.last() == 61 {
        strip_padding(s.drop_last())
    } else {
        s
    }
}

/// The first byte decoded from a group: all of the first character's six
/// bits and the top two bits of the second.
pub open spec fn b64_byte0(c0: u8, c1: u8) -> u8 {
    (b64_val(c0) * 4 + b64_val(c1) / 16) as u8
}

/// The second byte decoded from a group: the low four bits of the second
/// character and the top four bits of the third.
pub open spec fn b64_byte1(c1: u8, c2: u8) -> u8 {
    ((b64_val(c1) % 16) * 16 + b64_val(c2) / 4) as u8
}

/// The third byte decoded from a group: the low two bits of the third
/// character and all six bits of the fourth.
pub open spec fn b64_byte2(c2: u8, c3: u8) -> u8 {
    ((b64_val(c2) % 4) * 64 + b64_val(c3)) as u8
}

/// The bytes encoded by a sequence of base64 characters (with line breaks
/// and padding already stripped), or `None` if the sequence contains a
/// character outside the alphabet or is one character too short or long.
pub open spec fn b64_decode(s: Seq<u8>) -> Option<Seq<u8>>
    decreases s.len(),
{
    if s.len() == 0 {
        Some(Seq::empty())
    } else if s.len() == 1 {
        None
    } else if s.len() == 2 {
        if b64_val(s[0]) >= 0 && b64_val(s[1]) >= 0 {
            Some(seq![b64_byte0(s[0], s[1])])
        } else {
            None
        }
    } else if s.len() == 3 {
        if b64_val(s[0]) >= 0 && b64_val(s[1]) >= 0 && b64_val(s[2]) >= 0 {
            Some(seq![b64_byte0(s[0], s[1]), b64_byte1(s[1], s[2])])
        } else {
            None
        }
    } else {
        if b64_val(s[0]) >= 0 && b64_val(s[1]) >= 0 && b64_val(s[2]) >= 0 && b64_val(s[3]) >= 0 {
            match b64_decode(s.skip(4)) {
                Some(rest) => Some(
                    seq![
                        b64_byte0(s[0], s[1]),
                        b64_byte1(s[1], s[2]),
                        b64_byte2(s[2], s[3]),
                    ] + rest,
                ),
                None => None,
            }
        } else {
            None
        }
    }
}

/// What decoding a whole PEM body means: strip line breaks, strip trailing
/// padding, decode.
pub open spec fn pem_body_decode(s: Seq<u8>) -> Option<Seq<u8>> {
    b64_decode(strip_padding(strip_line_breaks(s)))
}

/// Prepends `p` to the contents of `o`, keeping `None` as `None`.
pub open spec fn prepend_decoded(p: Seq<u8>, o: Option<Seq<u8>>) -> Option<Seq<u8>> {
    match o {
        Some(r) => Some(p + r),
        None => None,
    }
}

/// The 6-bit value of a base64 character, as a checked lookup.
fn b64_val_exec(c: u8) -> (r: Option<u8>)
    ensures
        match r {
            Some(v) => b64_val(c) == v as int && v < 64,
            None => b64_val(c) < 0,
        },
{
    if 65 <= c && c <= 90 {
        Some(c - 65)
    } else if 97 <= c && c <= 122 {
        Some(c - 71)
    } else if 48 <= c && c <= 57 {
        Some(c + 4)
    } else if c == 43 {
        Some(62)
    } else if c == 47 {
        Some(63)
    } else {
        None
    }
}

/// Removes line breaks and trailing padding from a PEM body, so that only
/// the base64 characters proper remain.
fn clean_pem_body(s: &[u8]) -> (r: Vec<u8>)
    ensures
        r@ == strip_padding(strip_line_breaks(s@)),
{
    let len = s.len();
    let mut out: Vec<u8> = Vec::new();
    proof {
        assert(s@.skip(0) =~= s@);
        assert(out@ + strip_line_breaks(s@) =~= strip_line_breaks(s@));
    }
    let mut i: usize = 0;
    while i < len
        invariant
            i <= len,
            len == s@.len(),
            out@ + strip_line_breaks(s@.skip(i as int)) == strip_line_breaks(s@),
        decreases len - i,
    {
        let c = s[i];
        proof {
            assert(s@.skip(i as int)[0] == s@[i as int]);
            assert(s@.skip(i as int).skip(1) =~= s@.skip(i + 1));
        }
        if !(c == 10 || c == 13) {
            let ghost prev = out@;
            out.push(c);
            proof {
                assert(out@ =~= prev + seq![c]);
                assert(out@ + strip_line_breaks(s@.skip(i + 1)) =~= prev + strip_line_breaks(
                    s@.skip(i as int),
                ));
            }
        }
        i += 1;
    }
    proof {
        assert(strip_line_breaks(s@.skip(len as int)) =~= Seq::empty());
        assert(out@ =~= strip_line_breaks(s@));
    }
    while out.len() > 0 && out[out.len() - 1] == 61
        invariant
            strip_padding(out@) == strip_padding(strip_line_breaks(s@)),
        decreases out@.len(),
    {
        let ghost prev = out@;
        out.pop();
        proof {
            assert(out@ =~= prev.drop_last());
        }
    }
    proof {
        assert(strip_padding(out@) == out@);
    }
    out
}

/// Decodes a PEM certificate body: the text between the BEGIN and END
/// markers, line breaks and trailing padding included. Returns `None` when
/// the body is not well-formed base64.
pub fn decode_pem_body(s: &[u8]) -> (r: Option<Vec<u8>>)
    ensures
        match r {
            Some(v) => pem_body_decode(s@) == Some(v@),
            None => pem_body_decode(s@) is None,
        },
{
    let cleaned = clean_pem_body(s);
    let len = cleaned.len();
    let mut out: Vec<u8> = Vec::new();
    proof {
        assert(cleaned@.skip(0) =~= cleaned@);
        assert(prepend_decoded(out@, b64_decode(cleaned@)) == b64_decode(cleaned@)) by {
            if b64_decode(cleaned@) is Some {
                assert(out@ + b64_decode(cleaned@)->Some_0 =~= b64_decode(cleaned@)->Some_0);
            }
        }
    }
    let mut i: usize = 0;
    while len - i >= 4
        invariant
            i <= len,
            len == cleaned@.len(),
            cleaned@ == strip_padding(strip_line_breaks(s@)),
            prepend_decoded(out@, b64_decode(cleaned@.skip(i as int))) == b64_decode(cleaned@),
        decreases len - i,
    {
        let ghost tail = cleaned@.skip(i as int);
        proof {
            assert(tail.len() >= 4);
            assert(tail[0] == cleaned@[i as int]);
            assert(tail[1] == cleaned@[i + 1]);
            assert(tail[2] == cleaned@[i + 2]);
            assert(tail[3] == cleaned@[i + 3]);
            assert(tail.skip(4) =~= cleaned@.skip(i + 4));
        }
        let v0 = b64_val_exec(cleaned[i]);
        let v1 = b64_val_exec(cleaned[i + 1]);
        let v2 = b64_val_exec(cleaned[i + 2]);
        let v3 = b64_val_exec(cleaned[i + 3]);
        match (v0, v1, v2, v3) {
            (Some(a), Some(b), Some(c), Some(d)) => {
                let ghost prev = out@;
                out.push(a * 4 + b / 16);
                out.push((b % 16) * 16 + c / 4);
                out.push((c % 4) * 64 + d);
                proof {
                    assert(out@ =~= prev + seq![
                        b64_byte0(tail[0], tail[1]),
                        b64_byte1(tail[1], tail[2]),
                        b64_byte2(tail[2], tail[3]),
                    ]);
                    if b64_decode(cleaned@.skip(i + 4)) is Some {
                        assert(out@ + b64_decode(cleaned@.skip(i + 4))->Some_0 =~= prev
                            + b64_decode(tail)->Some_0);
                    }
                }
            },
            _ => {
                proof {
                    assert(b64_decode(tail) is None);
                }
                return None;
            },
        }
        i += 4;
    }
    let remaining = len - i;
    if remaining == 0 {
        proof {
            assert(cleaned@.skip(i as int) =~= Seq::<u8>::empty());
            assert(out@ + Seq::<u8>::empty() =~= out@);
        }
        Some(out)
    } else if remaining == 1 {
        None
    } else {
        let ghost tail = cleaned@.skip(i as int);
        proof {
            assert(tail[0] == cleaned@[i as int]);
            assert(tail[1] == cleaned@[i + 1]);
            if remaining == 3 {
                assert(tail[2] == cleaned@[i + 2]);
            }
        }
        let v0 = b64_val_exec(cleaned[i]);
        let v1 = b64_val_exec(cleaned[i + 1]);
        match (v0, v1) {
            (Some(a), Some(b)) => {
                let ghost prev = out@;
                out.push(a * 4 + b / 16);
                if remaining == 2 {
                    proof {
                        assert(out@ + Seq::<u8>::empty() =~= prev + seq![
                            b64_byte0(tail[0], tail[1]),
                        ]);
                    }
                    Some(out)
                } else {
                    match b64_val_exec(cleaned[i + 2]) {
                        Some(c) => {
                            out.push((b % 16) * 16 + c / 4);
                            proof {
                                assert(out@ + Seq::<u8>::empty() =~= prev + seq![
                                    b64_byte0(tail[0], tail[1]),
                                    b64_byte1(tail[1], tail[2]),
                                ]);
                            }
                            Some(out)
                        },
                        None => None,
                    }
                }
            },
            _ => None,
        }
    }
}

} // verus!
