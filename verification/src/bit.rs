//! The label algebra: single secret bits and fixed-width secret bit strings,
//! as traits, together with one concrete verified encoding of each.

use vstd::prelude::*;

verus! {

/// Pointwise exclusive or of two bit strings of equal length.
pub open spec fn xor_bits(a: Seq<bool>, b: Seq<bool>) -> Seq<bool> {
    Seq::new(a.len(), |k: int| a[k] != b[k])
}

/// Pointwise conjunction of two bit strings of equal length.
pub open spec fn and_bits(a: Seq<bool>, b: Seq<bool>) -> Seq<bool> {
    Seq::new(a.len(), |k: int| a[k] && b[k])
}

/// Pointwise disjunction of two bit strings of equal length.
pub open spec fn or_bits(a: Seq<bool>, b: Seq<bool>) -> Seq<bool> {
    Seq::new(a.len(), |k: int| a[k] || b[k])
}

/// Pointwise complement of a bit string.
pub open spec fn not_bits(a: Seq<bool>) -> Seq<bool> {
    Seq::new(a.len(), |k: int| !a[k])
}

/// Masking with the same string twice gives the plaintext back:
/// `(m ^ a) ^ m == a` whenever the two strings have equal length.
pub proof fn lemma_xor_unmask(m: Seq<bool>, a: Seq<bool>)
    requires
        m.len() == a.len(),
    ensures
        xor_bits(xor_bits(m, a), m) == a,
{
    assert(xor_bits(xor_bits(m, a), m) =~= a);
}

/// A single secret bit with a branch-free boolean algebra over it.
///
/// `bval` is the logical value the bit carries; every operation is specified
/// against it.
pub trait Bit: Sized + Copy {
    /// The logical value this bit carries.
    spec fn bval(&self) -> bool;

    /// A bit holding the given constant.
    fn from_const_bit(bit: bool) -> (r: Self)
        ensures
            r.bval() == bit,
    ;

    /// Conjunction.
    fn and(&self, other: &Self) -> (r: Self)
        ensures
            r.bval() == (self.bval() && other.bval()),
    ;

    /// Disjunction.
    fn or(&self, other: &Self) -> (r: Self)
        ensures
            r.bval() == (self.bval() || other.bval()),
    ;

    /// Exclusive or.
    fn xor(&self, other: &Self) -> (r: Self)
        ensures
            r.bval() == (self.bval() != other.bval()),
    ;

    /// Complement.
    fn not(&self) -> (r: Self)
        ensures
            r.bval() == !self.bval(),
    ;

    /// Equality test, returned as a bit of the same algebra.
    fn eq(&self, other: &Self) -> (r: Self)
        ensures
            r.bval() == (self.bval() == other.bval()),
    ;

    /// Inequality test, returned as a bit of the same algebra.
    fn neq(&self, other: &Self) -> (r: Self)
        ensures
            r.bval() == (self.bval() != other.bval()),
    ;
}

/// A fixed-width secret bit string. `bits` is its content, least-significant
/// bit first; every operation is specified against it.
pub trait Bits: Sized {
    /// The single-bit type the string is made of.
    type Element: Bit;

    /// The bits of the string, least-significant bit first.
    spec fn bits(&self) -> Seq<bool>;

    /// The fixed-width encoding of a wire index that `from_index` produces.
    spec fn spec_index_bits(w: usize) -> Seq<bool>;

    /// A string of one bit holding the given constant.
    fn from_const_bit(bit: bool) -> (r: Self)
        ensures
            r.bits() == seq![bit],
    ;

    /// A string holding the given constants, in order.
    fn from_const_bits(bits: &[bool]) -> (r: Self)
        ensures
            r.bits() == bits@,
    ;

    /// The fixed-width encoding of a wire index.
    fn from_index(w: usize) -> (r: Self)
        ensures
            r.bits() == Self::spec_index_bits(w),
    ;

    /// The number of bits in the string.
    fn len(&self) -> (n: usize)
        ensures
            n == self.bits().len(),
    ;

    /// The bits of this string followed by the bits of `other`.
    fn concat(&self, other: &Self) -> (r: Self)
        ensures
            r.bits() == self.bits() + other.bits(),
    ;

    /// Pointwise conjunction of two strings of equal length.
    fn and(&self, other: &Self) -> (r: Self)
        requires
            self.bits().len() == other.bits().len(),
        ensures
            r.bits() == and_bits(self.bits(), other.bits()),
    ;

    /// Pointwise disjunction of two strings of equal length.
    fn or(&self, other: &Self) -> (r: Self)
        requires
            self.bits().len() == other.bits().len(),
        ensures
            r.bits() == or_bits(self.bits(), other.bits()),
    ;

    /// Pointwise exclusive or of two strings of equal length.
    fn xor(&self, other: &Self) -> (r: Self)
        requires
            self.bits().len() == other.bits().len(),
        ensures
            r.bits() == xor_bits(self.bits(), other.bits()),
    ;

    /// Pointwise complement.
    fn not(&self) -> (r: Self)
        ensures
            r.bits() == not_bits(self.bits()),
    ;

    /// Equality of contents.
    fn equals(&self, other: &Self) -> (r: bool)
        ensures
            r == (self.bits() == other.bits()),
    ;

    /// Branch-free selection: `other` if the select bit is set, else `self`.
    /// Implementations must not leak the select bit through timing.
    fn mux(&self, true_bits: &Self, select_bit: &Self::Element) -> (r: Self)
        requires
            self.bits().len() == true_bits.bits().len(),
        ensures
            r.bits() == if select_bit.bval() {
                true_bits.bits()
            } else {
                self.bits()
            },
    ;

    /// The least-significant bit.
    fn get_lsb(&self) -> (r: Self::Element)
        requires
            self.bits().len() > 0,
        ensures
            r.bval() == self.bits()[0],
    ;

    /// Replace the least-significant bit in place.
    fn modify_lsb(&mut self, value: Self::Element)
        requires
            old(self).bits().len() > 0,
        ensures
            final(self).bits() == old(self).bits().update(0, value.bval()),
    ;

    /// The string broken into its single bits, in order.
    fn to_elements(self) -> (r: Vec<Self::Element>)
        ensures
            r@.len() == self.bits().len(),
            forall|k: int| 0 <= k < r@.len() ==> (#[trigger] r@[k].bval()) == self.bits()[k],
    ;
}

/// A plain boolean carrying one secret bit.
#[derive(Clone, Copy)]
pub struct BoolBit {
    value: bool,
}

impl BoolBit {
    /// The carried boolean, for callers outside the algebra (such as a
    /// concrete hash or PRF implementation).
    pub fn value(&self) -> (r: bool)
        ensures
            r == self.bval(),
    {
        self.value
    }
}

impl Bit for BoolBit {
    closed spec fn bval(&self) -> bool {
        self.value
    }

    fn from_const_bit(bit: bool) -> (r: Self) {
        BoolBit { value: bit }
    }

    fn and(&self, other: &Self) -> (r: Self) {
        BoolBit { value: self.value && other.value }
    }

    fn or(&self, other: &Self) -> (r: Self) {
        BoolBit { value: self.value || other.value }
    }

    fn xor(&self, other: &Self) -> (r: Self) {
        BoolBit { value: self.value != other.value }
    }

    fn not(&self) -> (r: Self) {
        BoolBit { value: !self.value }
    }

    fn eq(&self, other: &Self) -> (r: Self) {
        BoolBit { value: self.value == other.value }
    }

    fn neq(&self, other: &Self) -> (r: Self) {
        BoolBit { value: self.value != other.value }
    }
}

/// A bit string stored as one boolean per bit, least-significant bit first.
///
/// Wire indices are encoded on 64 bits, so every index of the dense `0..N`
/// space has the same width and distinct indices give distinct encodings.
#[derive(Clone)]
pub struct BitString {
    bits: Vec<bool>,
}

impl Bits for BitString {
    type Element = BoolBit;

    closed spec fn bits(&self) -> Seq<bool> {
        self.bits@
    }

    open spec fn spec_index_bits(w: usize) -> Seq<bool> {
        Seq::new(64, |i: int| (((w as u64) >> (i as u64)) & 1) == 1)
    }

    fn from_const_bit(bit: bool) -> (r: Self) {
        let mut v: Vec<bool> = Vec::new();
        v.push(bit);
        proof {
            assert(v@ =~= seq![bit]);
        }
        BitString { bits: v }
    }

    fn from_const_bits(bits: &[bool]) -> (r: Self) {
        let mut v: Vec<bool> = Vec::new();
        let n: usize = bits.len();
        let mut k: usize = 0;
        while k < n
            invariant
                n == bits@.len(),
                k <= n,
                v@ =~= bits@.subrange(0, k as int),
            decreases n - k,
        {
            v.push(bits[k]);
            k += 1;
        }
        proof {
            assert(v@ =~= bits@);
        }
        BitString { bits: v }
    }

    fn from_index(w: usize) -> (r: Self) {
        let x: u64 = w as u64;
        let mut v: Vec<bool> = Vec::new();
        let mut k: u64 = 0;
        while k < 64
            invariant
                x == w as u64,
                k <= 64,
                v@.len() == k,
                forall|i: int|
                    0 <= i < k ==> v@[i] == ((((w as u64) >> (i as u64)) & 1) == 1),
            decreases 64 - k,
        {
            v.push(((x >> k) & 1) == 1);
            k += 1;
        }
        proof {
            assert(v@ =~= Self::spec_index_bits(w));
        }
        BitString { bits: v }
    }

    fn len(&self) -> (n: usize) {
        self.bits.len()
    }

    fn concat(&self, other: &Self) -> (r: Self) {
        let mut v: Vec<bool> = Vec::new();
        let n: usize = self.bits.len();
        let mut k: usize = 0;
        while k < n
            invariant
                n == self.bits@.len(),
                k <= n,
                v@ =~= self.bits@.subrange(0, k as int),
            decreases n - k,
        {
            v.push(self.bits[k]);
            k += 1;
        }
        let m: usize = other.bits.len();
        let mut j: usize = 0;
        while j < m
            invariant
                n == self.bits@.len(),
                m == other.bits@.len(),
                j <= m,
                v@ =~= self.bits@ + other.bits@.subrange(0, j as int),
            decreases m - j,
        {
            v.push(other.bits[j]);
            j += 1;
        }
        proof {
            assert(v@ =~= self.bits@ + other.bits@);
        }
        BitString { bits: v }
    }

    fn and(&self, other: &Self) -> (r: Self) {
        let mut v: Vec<bool> = Vec::new();
        let n: usize = self.bits.len();
        let mut k: usize = 0;
        while k < n
            invariant
                n == self.bits@.len(),
                n == other.bits@.len(),
                k <= n,
                v@.len() == k,
                forall|i: int| 0 <= i < k ==> v@[i] == (self.bits@[i] && other.bits@[i]),
            decreases n - k,
        {
            v.push(self.bits[k] && other.bits[k]);
            k += 1;
        }
        proof {
            assert(v@ =~= and_bits(self.bits@, other.bits@));
        }
        BitString { bits: v }
    }

    fn or(&self, other: &Self) -> (r: Self) {
        let mut v: Vec<bool> = Vec::new();
        let n: usize = self.bits.len();
        let mut k: usize = 0;
        while k < n
            invariant
                n == self.bits@.len(),
                n == other.bits@.len(),
                k <= n,
                v@.len() == k,
                forall|i: int| 0 <= i < k ==> v@[i] == (self.bits@[i] || other.bits@[i]),
            decreases n - k,
        {
            v.push(self.bits[k] || other.bits[k]);
            k += 1;
        }
        proof {
            assert(v@ =~= or_bits(self.bits@, other.bits@));
        }
        BitString { bits: v }
    }

    fn xor(&self, other: &Self) -> (r: Self) {
        let mut v: Vec<bool> = Vec::new();
        let n: usize = self.bits.len();
        let mut k: usize = 0;
        while k < n
            invariant
                n == self.bits@.len(),
                n == other.bits@.len(),
                k <= n,
                v@.len() == k,
                forall|i: int| 0 <= i < k ==> v@[i] == (self.bits@[i] != other.bits@[i]),
            decreases n - k,
        {
            v.push(self.bits[k] != other.bits[k]);
            k += 1;
        }
        proof {
            assert(v@ =~= xor_bits(self.bits@, other.bits@));
        }
        BitString { bits: v }
    }

    fn not(&self) -> (r: Self) {
        let mut v: Vec<bool> = Vec::new();
        let n: usize = self.bits.len();
        let mut k: usize = 0;
        while k < n
            invariant
                n == self.bits@.len(),
                k <= n,
                v@.len() == k,
                forall|i: int| 0 <= i < k ==> v@[i] == !self.bits@[i],
            decreases n - k,
        {
            v.push(!self.bits[k]);
            k += 1;
        }
        proof {
            assert(v@ =~= not_bits(self.bits@));
        }
        BitString { bits: v }
    }

    fn equals(&self, other: &Self) -> (r: bool) {
        let n: usize = self.bits.len();
        if n != other.bits.len() {
            return false;
        }
        let mut k: usize = 0;
        while k < n
            invariant
                n == self.bits@.len(),
                n == other.bits@.len(),
                k <= n,
                forall|i: int| 0 <= i < k ==> self.bits@[i] == other.bits@[i],
            decreases n - k,
        {
            if self.bits[k] != other.bits[k] {
                return false;
            }
            k += 1;
        }
        proof {
            assert(self.bits@ =~= other.bits@);
        }
        true
    }

    fn mux(&self, true_bits: &Self, select_bit: &Self::Element) -> (r: Self) {
        let s: bool = select_bit.value();
        let mut v: Vec<bool> = Vec::new();
        let n: usize = self.bits.len();
        let mut k: usize = 0;
        while k < n
            invariant
                n == self.bits@.len(),
                n == true_bits.bits@.len(),
                k <= n,
                v@.len() == k,
                s == select_bit.bval(),
                forall|i: int|
                    0 <= i < k ==> v@[i] == if s {
                        true_bits.bits@[i]
                    } else {
                        self.bits@[i]
                    },
            decreases n - k,
        {
            let a: bool = self.bits[k];
            let b: bool = true_bits.bits[k];
            v.push((a && !s) || (b && s));
            k += 1;
        }
        proof {
            if s {
                assert(v@ =~= true_bits.bits@);
            } else {
                assert(v@ =~= self.bits@);
            }
        }
        BitString { bits: v }
    }

    fn get_lsb(&self) -> (r: Self::Element) {
        BoolBit::from_const_bit(self.bits[0])
    }

    fn modify_lsb(&mut self, value: Self::Element) {
        let b: bool = value.value();
        self.bits.set(0, b);
    }

    fn to_elements(self) -> (r: Vec<Self::Element>) {
        let mut v: Vec<BoolBit> = Vec::new();
        let n: usize = self.bits.len();
        let mut k: usize = 0;
        while k < n
            invariant
                n == self.bits@.len(),
                k <= n,
                v@.len() == k,
                forall|i: int| 0 <= i < k ==> (#[trigger] v@[i].bval()) == self.bits@[i],
            decreases n - k,
        {
            v.push(BoolBit::from_const_bit(self.bits[k]));
            k += 1;
        }
        v
    }
}

} // verus!
