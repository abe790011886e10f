//! Little-endian integer reads, subsequence search, and hex rendering over
//! byte slices. These are the primitive operations the quote parser is built
//! from; each is specified exactly over the mathematical view of its inputs.

use vstd::prelude::*;

verus! {

/// The value of the two little-endian bytes at offset `i`.
pub open spec fn u16_le(b: Seq<u8>, i: int) -> int {
    b[i] + 0x100 * b[i + 1]
}

/// The value of the four little-endian bytes at offset `i`.
pub open spec fn u32_le(b: Seq<u8>, i: int) -> int {
    b[i] + 0x100 * b[i + 1] + 0x1_0000 * b[i + 2] + 0x100_0000 * b[i + 3]
}

/// Reads an unsigned 16-bit little-endian value at offset `i`.
pub fn read_u16_le(b: &[u8], i: usize) -> (r: u16)
    requires
        i + 2 <= b@.len(),
    ensures
        r as int == u16_le(b@, i as int),
{
    b[i] as u16 + 0x100 * (b[i + 1] as u16)
}

/// Reads an unsigned 32-bit little-endian value at offset `i`.
pub fn read_u32_le(b: &[u8], i: usize) -> (r: u32)
    requires
        i + 4 <= b@.len(),
    ensures
        r as int == u32_le(b@, i as int),
{
    b[i] as u32 + 0x100 * (b[i + 1] as u32) + 0x1_0000 * (b[i + 2] as u32)
        + 0x100_0000 * (b[i + 3] as u32)
}

/// `needle` occurs in `hay` starting at index `i`.
pub open spec fn match_at(hay: Seq<u8>, needle: Seq<u8>, i: int) -> bool {
    &&& 0 <= i
    &&& i + needle.len() <= hay.len()
    &&& hay.subrange(i, i + needle.len() as int) == needle
}

/// The least index at or after `from` where `needle` occurs in `hay`, or
/// `None` if there is no such occurrence. An empty needle is treated as
/// occurring nowhere.
pub open spec fn first_match(hay: Seq<u8>, needle: Seq<u8>, from: int) -> Option<int>
    decreases hay.len() - from,
{
    if needle.len() == 0 || from + needle.len() > hay.len() {
        None
    } else if match_at(hay, needle, from) {
        Some(from)
    } else {
        first_match(hay, needle, from + 1)
    }
}

/// `first_match` indeed names the least occurrence at or after `from`.
pub proof fn lemma_first_match(hay: Seq<u8>, needle: Seq<u8>, from: int)
    requires
        needle.len() >= 1,
    ensures
        match first_match(hay, needle, from) {
            Some(i) => {
                &&& from <= i
                &&& match_at(hay, needle, i)
                &&& forall|j: int| from <= j < i ==> !match_at(hay, needle, j)
            },
            None => forall|j: int| from <= j ==> !match_at(hay, needle, j),
        },
    decreases hay.len() - from,
{
    if from + needle.len() > hay.len() {
        assert forall|j: int| from <= j implies !match_at(hay, needle, j) by {
            assert(j + needle.len() > hay.len());
        }
    } else if match_at(hay, needle, from) {
    } else {
        lemma_first_match(hay, needle, from + 1);
    }
}

/// Whether `needle` occurs in `hay` starting exactly at index `i`.
fn matches_at(hay: &[u8], needle: &[u8], i: usize) -> (r: bool)
    requires
        i + needle@.len() <= hay@.len(),
    ensures
        r == match_at(hay@, needle@, i as int),
{
    let h = hay.len();
    let n = needle.len();
    let mut j: usize = 0;
    while j < n
        invariant
            j <= n,
            h == hay@.len(),
            n == needle@.len(),
            i + n <= h,
            forall|k: int| 0 <= k < j ==> hay@[i + k] == needle@[k],
        decreases n - j,
    {
        if hay[i + j] != needle[j] {
            proof {
                assert(hay@.subrange(i as int, i + n) != needle@) by {
                    assert(hay@.subrange(i as int, i + n)[j as int] == hay@[i + j]);
                }
            }
            return false;
        }
        j += 1;
    }
    proof {
        assert(hay@.subrange(i as int, i + n) =~= needle@);
    }
    true
}

/// Returns the least index at or after `from` where `needle` occurs in
/// `hay`, or `None` if there is no occurrence.
pub fn find_sub(hay: &[u8], needle: &[u8], from: usize) -> (r: Option<usize>)
    requires
        needle@.len() >= 1,
    ensures
        match r {
            Some(i) => from <= i && i + needle@.len() <= hay@.len() && first_match(
                hay@,
                needle@,
                from as int,
            ) == Some(i as int),
            None => first_match(hay@, needle@, from as int) is None,
        },
{
    let h = hay.len();
    let n = needle.len();
    if h < n || from > h - n {
        proof {
            assert forall|j: int| from <= j implies !match_at(hay@, needle@, j) by {
                assert(j + needle@.len() > hay@.len());
            }
            lemma_first_match(hay@, needle@, from as int);
        }
        return None;
    }
    let mut i: usize = from;
    while i <= h - n
        invariant
            from <= i,
            n >= 1,
            n <= h,
            h == hay@.len(),
            n == needle@.len(),
            forall|j: int| from <= j < i ==> !match_at(hay@, needle@, j),
        decreases h - n - i + 1,
    {
        if matches_at(hay, needle, i) {
            proof {
                lemma_first_match(hay@, needle@, from as int);
            }
            return Some(i);
        }
        i += 1;
    }
    proof {
        assert forall|j: int| from <= j implies !match_at(hay@, needle@, j) by {
            if j < i {
            } else {
                assert(j + needle@.len() > hay@.len());
            }
        }
        lemma_first_match(hay@, needle@, from as int);
    }
    None
}

/// The lower-case hex digit for the nibble `n`.
pub open spec fn hex_char(n: int) -> char {
    if n < 10 {
        ((n + 48) as u8) as char
    } else {
        ((n + 87) as u8) as char
    }
}

/// The lower-case hex rendering of a byte sequence, two digits per byte.
pub open spec fn hex_of(b: Seq<u8>) -> Seq<char>
    decreases b.len(),
{
    if b.len() == 0 {
        Seq::empty()
    } else {
        seq![hex_char(b[0] as int / 16), hex_char(b[0] as int % 16)] + hex_of(b.skip(1))
    }
}

/// Renders a byte sequence as a lower-case hex string.
pub fn bytes_to_hex(b: &[u8]) -> (r: String)
    ensures
        r@ == hex_of(b@),
{
    let table = "0123456789abcdef";
    proof {
        reveal_strlit("0123456789abcdef");
    }
    let len = b.len();
    let mut out = String::new();
    proof {
        assert(b@.skip(0) =~= b@);
        assert(out@ + hex_of(b@) =~= hex_of(b@));
    }
    let mut i: usize = 0;
    while i < len
        invariant
            i <= len,
            len == b@.len(),
            table@ =~= "0123456789abcdef"@,
            table.is_ascii(),
            table@.len() == 16,
            forall|n: int| 0 <= n < 16 ==> table@[n] == hex_char(n),
            out@ + hex_of(b@.skip(i as int)) == hex_of(b@),
        decreases len - i,
    {
        let hi = (b[i] / 16) as usize;
        let lo = (b[i] % 16) as usize;
        let ghost prev = out@;
        out.append(table.substring_ascii(hi, hi + 1));
        out.append(table.substring_ascii(lo, lo + 1));
        proof {
            assert(out@ =~= prev + seq![hex_char(hi as int), hex_char(lo as int)]);
            assert(b@.skip(i as int).skip(1) =~= b@.skip(i + 1));
            assert(b@.skip(i as int)[0] == b@[i as int]);
            assert(out@ + hex_of(b@.skip(i + 1)) =~= prev + hex_of(b@.skip(i as int)));
        }
        i += 1;
    }
    proof {
        assert(hex_of(b@.skip(len as int)) =~= Seq::empty());
        assert(out@ =~= hex_of(b@));
    }
    out
}

} // verus!
