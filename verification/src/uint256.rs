//! Unsigned 256-bit integers in their canonical 32-byte big-endian form.

use vstd::prelude::*;

verus! {

/// 256 to the power `n`.
pub open spec fn pow256(n: nat) -> nat
    decreases n,
{
    if n == 0 {
        1
    } else {
        256 * pow256((n - 1) as nat)
    }
}

/// The number that a big-endian byte string denotes.
pub open spec fn be_value(bytes: Seq<u8>) -> nat
    decreases bytes.len(),
{
    if bytes.len() == 0 {
        0
    } else {
        be_value(bytes.drop_last()) * 256 + bytes.last() as nat
    }
}

/// A byte string of length `n` denotes a number below 256 to the `n`.
pub proof fn lemma_be_value_bound(bytes: Seq<u8>)
    ensures
        be_value(bytes) < pow256(bytes.len()),
    decreases bytes.len(),
{
    if bytes.len() > 0 {
        lemma_be_value_bound(bytes.drop_last());
    }
}

/// A byte put in front of a string of length `n` adds itself times 256 to
/// the `n`.
pub proof fn lemma_be_value_prepend(byte: u8, bytes: Seq<u8>)
    ensures
        be_value(seq![byte] + bytes) == byte * pow256(bytes.len()) + be_value(bytes),
    decreases bytes.len(),
{
    let whole = seq![byte] + bytes;
    if bytes.len() == 0 {
        assert(whole.drop_last() =~= Seq::<u8>::empty());
        assert(be_value(whole.drop_last()) == 0);
        assert(pow256(0) == 1);
    } else {
        let front = bytes.drop_last();
        lemma_be_value_prepend(byte, front);
        assert(whole.drop_last() =~= seq![byte] + front);
        assert(be_value(whole) == be_value(seq![byte] + front) * 256 + bytes.last());
        assert((byte * pow256(front.len()) + be_value(front)) * 256 == byte * pow256(bytes.len())
            + be_value(front) * 256) by (nonlinear_arith)
            requires
                pow256(bytes.len()) == 256 * pow256(front.len()),
        ;
    }
}

/// Zero bytes in front change nothing.
pub proof fn lemma_be_value_leading_zeros(bytes: Seq<u8>, n: int)
    requires
        0 <= n <= bytes.len(),
        forall|i: int| 0 <= i < n ==> bytes[i] == 0,
    ensures
        be_value(bytes) == be_value(bytes.skip(n)),
    decreases n,
{
    if n == 0 {
        assert(bytes.skip(0) =~= bytes);
    } else {
        lemma_be_value_leading_zeros(bytes, n - 1);
        lemma_be_value_prepend(0, bytes.skip(n));
        assert(bytes.skip(n - 1) =~= seq![0u8] + bytes.skip(n));
    }
}

/// Two byte strings of one length that denote the same number are the
/// same string.
pub proof fn lemma_be_value_injective(a: Seq<u8>, b: Seq<u8>)
    requires
        a.len() == b.len(),
        be_value(a) == be_value(b),
    ensures
        a == b,
    decreases a.len(),
{
    if a.len() > 0 {
        lemma_be_value_injective(a.drop_last(), b.drop_last());
        assert(a =~= a.drop_last().push(a.last()));
        assert(b =~= b.drop_last().push(b.last()));
    } else {
        assert(a =~= b);
    }
}

/// An unsigned 256-bit integer, held as 32 big-endian bytes.
#[derive(Clone, Copy, Debug, PartialEq, Eq)]
pub struct Uint256 {
    bytes: [u8; 32],
}

impl View for Uint256 {
    type V = nat;

    /// The number itself.
    open spec fn view(&self) -> nat {
        be_value(self.be_bytes())
    }
}

impl Uint256 {
    /// The 32 bytes of the number, most significant first.
    pub closed spec fn be_bytes(self) -> Seq<u8> {
        self.bytes@
    }

    /// Every number has exactly 32 bytes.
    pub broadcast proof fn lemma_be_bytes_len(self)
        ensures
            #[trigger] self.be_bytes().len() == 32,
    {
    }

    /// A number is its bytes: two with the same bytes are the same.
    pub proof fn lemma_be_bytes_injective(self, other: Self)
        requires
            self.be_bytes() == other.be_bytes(),
        ensures
            self == other,
    {
        assert(self.bytes == other.bytes);
    }

    /// Two that denote the same number are the same.
    pub proof fn lemma_view_injective(self, other: Self)
        requires
            self@ == other@,
        ensures
            self == other,
    {
        lemma_be_value_injective(self.be_bytes(), other.be_bytes());
        self.lemma_be_bytes_injective(other);
    }

    /// Builds the number from its 32 big-endian bytes.
    pub fn from_be_bytes(bytes: [u8; 32]) -> (r: Self)
        ensures
            r.be_bytes() == bytes@,
    {
        Uint256 { bytes }
    }

    /// The 32 big-endian bytes of the number.
    pub fn to_be_bytes(&self) -> (r: [u8; 32])
        ensures
            r@ == self.be_bytes(),
    {
        self.bytes
    }

    /// The number `value`.
    pub fn from_u128(value: u128) -> (r: Self)
        ensures
            r@ == value,
    {
        let mut bytes = [0u8; 32];
        let mut rest: u128 = value;
        let mut i: usize = 32;
        proof {
            assert(bytes@.skip(32) =~= Seq::<u8>::empty());
            assert(rest * pow256(0) == rest) by (nonlinear_arith)
                requires
                    pow256(0) == 1,
            ;
        }
        while i > 16
            invariant
                16 <= i <= 32,
                forall|j: int| 0 <= j < i ==> bytes@[j] == 0,
                value == rest * pow256((32 - i) as nat) + be_value(bytes@.skip(i as int)),
            decreases i,
        {
            let ghost before = bytes@;
            let ghost scale = pow256((32 - i) as nat);
            let byte: u8 = (rest % 256) as u8;
            i -= 1;
            bytes[i] = byte;
            proof {
                assert(bytes@.skip(i as int) =~= seq![byte] + before.skip(i + 1));
                lemma_be_value_prepend(byte, before.skip(i + 1));
                assert(rest * scale == (rest / 256) * (256 * scale) + byte * scale) by (nonlinear_arith)
                    requires
                        rest == (rest / 256) * 256 + byte,
                ;
            }
            rest = rest / 256;
        }
        proof {
            lemma_be_value_bound(bytes@.skip(16));
            reveal_with_fuel(pow256, 17);
            assert(pow256(16) == 0x1_0000_0000_0000_0000_0000_0000_0000_0000);
            assert(rest == 0) by (nonlinear_arith)
                requires
                    value == rest * pow256(16) + be_value(bytes@.skip(16)),
                    value < pow256(16),
            ;
            lemma_be_value_leading_zeros(bytes@, 16);
        }
        Uint256 { bytes }
    }
}

} // verus!
