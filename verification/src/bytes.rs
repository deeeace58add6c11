//! Fixed-width big-endian integer encoding, used by the wire codec for
//! length prefixes and by typed message encodings.

use vstd::prelude::*;

verus! {

/// The eight bytes of `x` in big-endian order.
pub open spec fn u64_be_bytes(x: u64) -> Seq<u8> {
    seq![
        ((x >> 56) & 0xff) as u8,
        ((x >> 48) & 0xff) as u8,
        ((x >> 40) & 0xff) as u8,
        ((x >> 32) & 0xff) as u8,
        ((x >> 24) & 0xff) as u8,
        ((x >> 16) & 0xff) as u8,
        ((x >> 8) & 0xff) as u8,
        (x & 0xff) as u8,
    ]
}

/// The value read back from eight big-endian bytes.
pub open spec fn u64_from_be(b: Seq<u8>) -> u64
    recommends
        b.len() == 8,
{
    (((b[0] as u64) << 56) | ((b[1] as u64) << 48) | ((b[2] as u64) << 40) | ((b[3] as u64) << 32)
        | ((b[4] as u64) << 24) | ((b[5] as u64) << 16) | ((b[6] as u64) << 8) | (b[7] as u64)) as u64
}

/// Reading back the big-endian bytes of `x` yields `x` again.
pub proof fn lemma_u64_be_round_trip(x: u64)
    ensures
        u64_from_be(u64_be_bytes(x)) == x,
{
    let b = u64_be_bytes(x);
    assert(b[0] == ((x >> 56) & 0xff) as u8);
    assert(b[1] == ((x >> 48) & 0xff) as u8);
    assert(b[2] == ((x >> 40) & 0xff) as u8);
    assert(b[3] == ((x >> 32) & 0xff) as u8);
    assert(b[4] == ((x >> 24) & 0xff) as u8);
    assert(b[5] == ((x >> 16) & 0xff) as u8);
    assert(b[6] == ((x >> 8) & 0xff) as u8);
    assert(b[7] == (x & 0xff) as u8);
    assert(((((((x >> 56) & 0xff) as u8) as u64) << 56)
        | (((((x >> 48) & 0xff) as u8) as u64) << 48)
        | (((((x >> 40) & 0xff) as u8) as u64) << 40)
        | (((((x >> 32) & 0xff) as u8) as u64) << 32)
        | (((((x >> 24) & 0xff) as u8) as u64) << 24)
        | (((((x >> 16) & 0xff) as u8) as u64) << 16)
        | (((((x >> 8) & 0xff) as u8) as u64) << 8)
        | (((x & 0xff) as u8) as u64)) as u64 == x) by (bit_vector);
}

/// Appends the eight big-endian bytes of `x` to `out`.
pub fn write_u64_be(out: &mut Vec<u8>, x: u64)
    ensures
        final(out)@ == old(out)@ + u64_be_bytes(x),
{
    let b0: u8 = ((x >> 56) & 0xff) as u8;
    let b1: u8 = ((x >> 48) & 0xff) as u8;
    let b2: u8 = ((x >> 40) & 0xff) as u8;
    let b3: u8 = ((x >> 32) & 0xff) as u8;
    let b4: u8 = ((x >> 24) & 0xff) as u8;
    let b5: u8 = ((x >> 16) & 0xff) as u8;
    let b6: u8 = ((x >> 8) & 0xff) as u8;
    let b7: u8 = (x & 0xff) as u8;
    out.push(b0);
    out.push(b1);
    out.push(b2);
    out.push(b3);
    out.push(b4);
    out.push(b5);
    out.push(b6);
    out.push(b7);
    proof {
        assert(final(out)@ =~= old(out)@ + u64_be_bytes(x));
    }
}

/// Reads a value from the eight bytes of `b` starting at `pos`.
pub fn read_u64_be(b: &Vec<u8>, pos: usize) -> (r: u64)
    requires
        pos + 8 <= b@.len(),
    ensures
        r == u64_from_be(b@.subrange(pos as int, pos as int + 8)),
{
    let len = b.len();
    let r: u64 = ((b[pos] as u64) << 56) | ((b[pos + 1] as u64) << 48) | ((b[pos + 2] as u64) << 40)
        | ((b[pos + 3] as u64) << 32) | ((b[pos + 4] as u64) << 24) | ((b[pos + 5] as u64) << 16)
        | ((b[pos + 6] as u64) << 8) | (b[pos + 7] as u64);
    proof {
        let s = b@.subrange(pos as int, pos as int + 8);
        assert(s[0] == b@[pos as int]);
        assert(s[1] == b@[pos as int + 1]);
        assert(s[2] == b@[pos as int + 2]);
        assert(s[3] == b@[pos as int + 3]);
        assert(s[4] == b@[pos as int + 4]);
        assert(s[5] == b@[pos as int + 5]);
        assert(s[6] == b@[pos as int + 6]);
        assert(s[7] == b@[pos as int + 7]);
    }
    r
}

/// Copies a byte slice into a fresh vector.
pub fn to_vec(b: &[u8]) -> (r: Vec<u8>)
    ensures
        r@ == b@,
{
    let mut r: Vec<u8> = Vec::new();
    let mut i: usize = 0;
    while i < b.len()
        invariant
            i <= b@.len(),
            r@ == b@.subrange(0, i as int),
        decreases b@.len() - i,
    {
        r.push(b[i]);
        proof {
            assert(r@ =~= b@.subrange(0, i + 1));
        }
        i = i + 1;
    }
    proof {
        assert(r@ =~= b@);
    }
    r
}

/// Compares two byte slices for equality of contents.
pub fn bytes_eq(a: &[u8], b: &[u8]) -> (r: bool)
    ensures
        r == (a@ == b@),
{
    if a.len() != b.len() {
        proof {
            assert(a@.len() != b@.len());
        }
        return false;
    }
    let mut i: usize = 0;
    while i < a.len()
        invariant
            i <= a@.len(),
            a@.len() == b@.len(),
            forall|j: int| 0 <= j < i ==> a@[j] == b@[j],
        decreases a@.len() - i,
    {
        if a[i] != b[i] {
            proof {
                assert(a@[i as int] != b@[i as int]);
            }
            return false;
        }
        i = i + 1;
    }
    proof {
        assert(a@ =~= b@);
    }
    true
}

} // verus!
