use vstd::prelude::*;

verus! {

/// A field element of the settlement chain, carried by the pipeline as its
/// 32-byte big-endian encoding. The chain clients own the field arithmetic;
/// the pipeline only builds, stores and forwards these values.
#[derive(Debug)]
pub struct Felt {
    /// Big-endian bytes; a well-formed value holds exactly 32 of them.
    pub be: Vec<u8>,
}

/// The 32-byte encoding of zero.
pub open spec fn zero_bytes() -> Seq<u8> {
    Seq::new(32, |i: int| 0u8)
}

/// The 8 big-endian bytes of a 64-bit value.
pub open spec fn u64_be_bytes(x: u64) -> Seq<u8> {
    seq![
        (x >> 56) as u8,
        ((x >> 48) & 0xff) as u8,
        ((x >> 40) & 0xff) as u8,
        ((x >> 32) & 0xff) as u8,
        ((x >> 24) & 0xff) as u8,
        ((x >> 16) & 0xff) as u8,
        ((x >> 8) & 0xff) as u8,
        (x & 0xff) as u8,
    ]
}

/// The 32-byte field encoding of a 64-bit value: 24 zero bytes, then the
/// value itself in big-endian order.
pub open spec fn felt_bytes_of_u64(x: u64) -> Seq<u8> {
    Seq::new(24, |i: int| 0u8) + u64_be_bytes(x)
}

impl Felt {
    pub open spec fn wf(self) -> bool {
        self.be@.len() == 32
    }

    pub open spec fn bytes(self) -> Seq<u8> {
        self.be@
    }

    pub open spec fn is_zero(self) -> bool {
        self.bytes() == zero_bytes()
    }

    /// The field value zero.
    pub fn zero() -> (r: Felt)
        ensures
            r.wf(),
            r.is_zero(),
    {
        let mut be: Vec<u8> = Vec::new();
        let mut i: usize = 0;
        while i < 32
            invariant
                i <= 32,
                be@.len() == i,
                forall|j: int| 0 <= j < i ==> be@[j] == 0u8,
            decreases 32 - i,
        {
            be.push(0u8);
            i = i + 1;
        }
        let r = Felt { be };
        proof {
            assert(r.bytes() =~= zero_bytes());
        }
        r
    }

    /// A 64-bit value as a field element.
    pub fn from_u64(x: u64) -> (r: Felt)
        ensures
            r.wf(),
            r.bytes() == felt_bytes_of_u64(x),
    {
        let mut be: Vec<u8> = Vec::new();
        let mut i: usize = 0;
        while i < 24
            invariant
                i <= 24,
                be@.len() == i,
                forall|j: int| 0 <= j < i ==> be@[j] == 0u8,
            decreases 24 - i,
        {
            be.push(0u8);
            i = i + 1;
        }
        assert(x >> 56 <= 0xff) by (bit_vector);
        assert((x >> 48) & 0xff <= 0xff) by (bit_vector);
        assert((x >> 40) & 0xff <= 0xff) by (bit_vector);
        assert((x >> 32) & 0xff <= 0xff) by (bit_vector);
        assert((x >> 24) & 0xff <= 0xff) by (bit_vector);
        assert((x >> 16) & 0xff <= 0xff) by (bit_vector);
        assert((x >> 8) & 0xff <= 0xff) by (bit_vector);
        assert(x & 0xff <= 0xff) by (bit_vector);
        be.push((x >> 56) as u8);
        be.push(((x >> 48) & 0xff) as u8);
        be.push(((x >> 40) & 0xff) as u8);
        be.push(((x >> 32) & 0xff) as u8);
        be.push(((x >> 24) & 0xff) as u8);
        be.push(((x >> 16) & 0xff) as u8);
        be.push(((x >> 8) & 0xff) as u8);
        be.push((x & 0xff) as u8);
        let r = Felt { be };
        proof {
            assert(r.bytes() =~= felt_bytes_of_u64(x));
        }
        r
    }

    /// Whether the value fits in 64 bits: all bytes above the low 8 are zero.
    pub fn fits_u64(&self) -> (b: bool)
        requires
            self.wf(),
        ensures
            b == (forall|j: int| 0 <= j < 24 ==> self.bytes()[j] == 0u8),
    {
        let mut i: usize = 0;
        while i < 24
            invariant
                self.wf(),
                i <= 24,
                forall|j: int| 0 <= j < i ==> self.bytes()[j] == 0u8,
            decreases 24 - i,
        {
            if self.be[i] != 0u8 {
                proof {
                    assert(self.bytes()[i as int] != 0u8);
                }
                return false;
            }
            i = i + 1;
        }
        true
    }

    /// The 64-bit value a small field element encodes.
    pub fn as_u64(&self) -> (x: u64)
        requires
            self.wf(),
            forall|j: int| 0 <= j < 24 ==> self.bytes()[j] == 0u8,
        ensures
            self.bytes() == felt_bytes_of_u64(x),
    {
        let b0 = self.be[24];
        let b1 = self.be[25];
        let b2 = self.be[26];
        let b3 = self.be[27];
        let b4 = self.be[28];
        let b5 = self.be[29];
        let b6 = self.be[30];
        let b7 = self.be[31];
        let x: u64 = ((b0 as u64) << 56) | ((b1 as u64) << 48) | ((b2 as u64) << 40)
            | ((b3 as u64) << 32) | ((b4 as u64) << 24) | ((b5 as u64) << 16)
            | ((b6 as u64) << 8) | (b7 as u64);
        assert((x >> 56) as u8 == b0 && ((x >> 48) & 0xff) as u8 == b1
            && ((x >> 40) & 0xff) as u8 == b2 && ((x >> 32) & 0xff) as u8 == b3
            && ((x >> 24) & 0xff) as u8 == b4 && ((x >> 16) & 0xff) as u8 == b5
            && ((x >> 8) & 0xff) as u8 == b6 && (x & 0xff) as u8 == b7) by (bit_vector)
            requires
                x == ((b0 as u64) << 56) | ((b1 as u64) << 48) | ((b2 as u64) << 40)
                    | ((b3 as u64) << 32) | ((b4 as u64) << 24) | ((b5 as u64) << 16)
                    | ((b6 as u64) << 8) | (b7 as u64),
        ;
        proof {
            assert(self.bytes() =~= felt_bytes_of_u64(x));
        }
        x
    }

    /// An exact copy of the value.
    pub fn dup(&self) -> (r: Felt)
        ensures
            r.bytes() == self.bytes(),
    {
        Felt { be: copy_bytes(&self.be) }
    }
}

/// The settlement chain's short-string convention: the ASCII bytes of the
/// text, right-aligned in the 32-byte value.
pub open spec fn short_string_bytes(s: Seq<u8>) -> Seq<u8>
    recommends
        s.len() <= 31,
{
    Seq::new((32 - s.len()) as nat, |i: int| 0u8) + s
}

/// A short ASCII tag as a field element.
pub fn short_string_felt(s: &[u8]) -> (r: Felt)
    requires
        s@.len() <= 31,
    ensures
        r.wf(),
        r.bytes() == short_string_bytes(s@),
{
    let n = s.len();
    let mut be: Vec<u8> = Vec::new();
    let mut i: usize = 0;
    while i < 32 - n
        invariant
            n == s@.len() <= 31,
            i <= 32 - n,
            be@.len() == i,
            forall|j: int| 0 <= j < i ==> be@[j] == 0u8,
        decreases 32 - n - i,
    {
        be.push(0u8);
        i = i + 1;
    }
    let mut k: usize = 0;
    while k < n
        invariant
            n == s@.len() <= 31,
            k <= n,
            be@.len() == 32 - n + k,
            forall|j: int| 0 <= j < 32 - n ==> be@[j] == 0u8,
            forall|j: int| 0 <= j < k ==> be@[32 - n + j] == s@[j],
        decreases n - k,
    {
        be.push(*vstd::slice::slice_index_get(s, k));
        k = k + 1;
    }
    let r = Felt { be };
    proof {
        assert(r.bytes() =~= short_string_bytes(s@));
    }
    r
}

/// The byte encodings of a list of field elements.
pub open spec fn felts_view(s: Seq<Felt>) -> Seq<Seq<u8>> {
    Seq::new(s.len(), |i: int| s[i].be@)
}

/// An exact copy of a byte string.
pub fn copy_bytes(v: &Vec<u8>) -> (r: Vec<u8>)
    ensures
        r@ == v@,
{
    let mut r: Vec<u8> = Vec::new();
    let mut i: usize = 0;
    while i < v.len()
        invariant
            i <= v@.len(),
            r@ == v@.take(i as int),
        decreases v@.len() - i,
    {
        let b = v[i];
        r.push(b);
        proof {
            assert(r@ =~= v@.take(i + 1 as int));
        }
        i = i + 1;
    }
    proof {
        assert(r@ =~= v@);
    }
    r
}

/// An exact copy of a list of field elements.
pub fn copy_felts(v: &Vec<Felt>) -> (r: Vec<Felt>)
    ensures
        r@.len() == v@.len(),
        forall|i: int| 0 <= i < v@.len() ==> r@[i].bytes() == v@[i].bytes(),
{
    let mut r: Vec<Felt> = Vec::new();
    let mut i: usize = 0;
    while i < v.len()
        invariant
            i <= v@.len(),
            r@.len() == i,
            forall|j: int| 0 <= j < i ==> r@[j].bytes() == v@[j].bytes(),
        decreases v@.len() - i,
    {
        r.push(v[i].dup());
        i = i + 1;
    }
    r
}

} // verus!
