//! The identifiers that the index is asked by, and their text forms.

use crate::table::Key;
use crate::text::{decimal, hex_backward, push_decimal, push_hex_backward};
use vstd::prelude::*;
use vstd::string::*;

verus! {

/// A transaction id: thirty-two bytes in the order in which a transaction
/// carries them. Its text shows them last byte first.
#[derive(Clone, Copy, Debug, PartialEq, Eq)]
pub struct Txid {
    pub bytes: [u8; 32],
}

/// An output of a transaction.
#[derive(Clone, Copy, Debug, PartialEq, Eq)]
pub struct OutPoint {
    pub txid: Txid,
    pub vout: u32,
}

/// A position inside an output.
#[derive(Clone, Copy, Debug, PartialEq, Eq)]
pub struct SatPoint {
    pub outpoint: OutPoint,
    pub offset: u64,
}

/// The stable id of an inscription: the transaction that revealed it and its
/// position among that transaction's inscriptions.
#[derive(Clone, Copy, Debug, PartialEq, Eq)]
pub struct InscriptionId {
    pub txid: Txid,
    pub index: u32,
}

impl Txid {
    /// Whether every byte is zero.
    pub open spec fn spec_is_zero(&self) -> bool {
        forall|i: int| 0 <= i < 32 ==> self.bytes[i] == 0
    }

    /// The id as sixty-four hexadecimal digits.
    pub open spec fn spec_text(&self) -> Seq<char> {
        hex_backward(self.bytes@)
    }

    /// The id whose bytes are all zero.
    pub open spec fn spec_all_zeros() -> Txid {
        Txid { bytes: vstd::array::spec_array_fill_for_copy_type::<u8, 32>(0u8) }
    }

    /// The id whose bytes are all zero.
    #[verifier::when_used_as_spec(spec_all_zeros)]
    pub fn all_zeros() -> (r: Txid)
        ensures
            r == Txid::all_zeros(),
            r.is_zero(),
    {
        Txid { bytes: [0u8;32] }
    }

    /// Whether every byte is zero.
    #[verifier::when_used_as_spec(spec_is_zero)]
    pub fn is_zero(&self) -> (r: bool)
        ensures
            r == self.is_zero(),
    {
        let mut i: usize = 0;
        while i < 32
            invariant
                i <= 32,
                forall|j: int| 0 <= j < i ==> self.bytes[j] == 0,
            decreases 32 - i,
        {
            if self.bytes[i] != 0 {
                return false;
            }
            i = i + 1;
        }
        true
    }

    /// Appends the id's text to `out`.
    pub fn push_text(&self, out: &mut String)
        ensures
            final(out)@ == old(out)@ + self.spec_text(),
    {
        push_hex_backward(out, self.bytes.as_slice());
    }
}

impl Key for Txid {
    fn same(&self, other: &Self) -> (r: bool) {
        let mut i: usize = 0;
        while i < 32
            invariant
                i <= 32,
                forall|j: int| 0 <= j < i ==> self.bytes[j] == other.bytes[j],
            decreases 32 - i,
        {
            if self.bytes[i] != other.bytes[i] {
                return false;
            }
            i = i + 1;
        }
        assert(self.bytes =~= other.bytes);
        true
    }
}

impl OutPoint {
    /// Whether this is the null outpoint: the zero id with the largest index.
    pub open spec fn spec_is_null(&self) -> bool {
        self.txid.is_zero() && self.vout == 0xffff_ffff
    }

    /// Whether this is the unbound outpoint: the zero id with index zero.
    pub open spec fn spec_is_unbound(&self) -> bool {
        self.txid.is_zero() && self.vout == 0
    }

    /// `txid:vout`.
    pub open spec fn spec_text(&self) -> Seq<char> {
        self.txid.spec_text() + seq![':'] + decimal(self.vout as nat)
    }

    /// The outpoint that stands for "no output".
    pub open spec fn spec_null() -> OutPoint {
        OutPoint { txid: Txid::all_zeros(), vout: 0xffff_ffff }
    }

    /// The outpoint that stands for "no output".
    #[verifier::when_used_as_spec(spec_null)]
    pub fn null() -> (r: OutPoint)
        ensures
            r == OutPoint::null(),
            r.is_null(),
    {
        OutPoint { txid: Txid::all_zeros(), vout: 0xffff_ffff }
    }

    /// Whether this is the null outpoint.
    #[verifier::when_used_as_spec(spec_is_null)]
    pub fn is_null(&self) -> (r: bool)
        ensures
            r == self.is_null(),
    {
        self.vout == 0xffff_ffff && self.txid.is_zero()
    }

    /// Whether this is the unbound outpoint.
    #[verifier::when_used_as_spec(spec_is_unbound)]
    pub fn is_unbound(&self) -> (r: bool)
        ensures
            r == self.is_unbound(),
    {
        self.vout == 0 && self.txid.is_zero()
    }

    /// Appends `txid:vout` to `out`.
    pub fn push_text(&self, out: &mut String)
        ensures
            final(out)@ == old(out)@ + self.spec_text(),
    {
        proof {
            reveal_strlit(":");
        }
        self.txid.push_text(out);
        out.append(":");
        push_decimal(out, self.vout as u64);
        assert(final(out)@ =~= old(out)@ + self.spec_text());
    }

    /// `txid:vout` as a string.
    pub fn text(&self) -> (r: String)
        ensures
            r@ == self.spec_text(),
    {
        let mut out = String::new();
        self.push_text(&mut out);
        assert(out@ =~= self.spec_text());
        out
    }
}

/// The outpoint of inscriptions that sit on no output.
pub open spec fn spec_unbound_outpoint() -> OutPoint {
    OutPoint { txid: Txid::all_zeros(), vout: 0 }
}

/// The outpoint of inscriptions that sit on no output.
#[verifier::when_used_as_spec(spec_unbound_outpoint)]
pub fn unbound_outpoint() -> (r: OutPoint)
    ensures
        r == unbound_outpoint(),
        r.is_unbound(),
{
    OutPoint { txid: Txid::all_zeros(), vout: 0 }
}

impl Key for OutPoint {
    fn same(&self, other: &Self) -> (r: bool) {
        self.vout == other.vout && self.txid.same(&other.txid)
    }
}

impl SatPoint {
    /// Whether this is the null satpoint: offset zero in the null outpoint.
    pub open spec fn spec_is_null(&self) -> bool {
        self.outpoint.is_null() && self.offset == 0
    }

    /// `txid:vout:offset`.
    pub open spec fn spec_text(&self) -> Seq<char> {
        self.outpoint.spec_text() + seq![':'] + decimal(self.offset as nat)
    }

    /// The satpoint that stands for "no known position".
    pub open spec fn spec_null() -> SatPoint {
        SatPoint { outpoint: OutPoint::null(), offset: 0 }
    }

    /// The satpoint that stands for "no known position".
    #[verifier::when_used_as_spec(spec_null)]
    pub fn null() -> (r: SatPoint)
        ensures
            r == SatPoint::null(),
            r.is_null(),
    {
        SatPoint { outpoint: OutPoint::null(), offset: 0 }
    }

    /// Whether this is the null satpoint.
    #[verifier::when_used_as_spec(spec_is_null)]
    pub fn is_null(&self) -> (r: bool)
        ensures
            r == self.is_null(),
    {
        self.offset == 0 && self.outpoint.is_null()
    }

    /// `txid:vout:offset` as a string.
    pub fn text(&self) -> (r: String)
        ensures
            r@ == self.spec_text(),
    {
        proof {
            reveal_strlit(":");
        }
        let mut out = String::new();
        self.outpoint.push_text(&mut out);
        out.append(":");
        push_decimal(&mut out, self.offset);
        assert(out@ =~= self.spec_text());
        out
    }
}

impl InscriptionId {
    /// `txid`, the letter `i`, and the index.
    pub open spec fn spec_text(&self) -> Seq<char> {
        self.txid.spec_text() + seq!['i'] + decimal(self.index as nat)
    }

    /// Appends the id's text to `out`.
    pub fn push_text(&self, out: &mut String)
        ensures
            final(out)@ == old(out)@ + self.spec_text(),
    {
        proof {
            reveal_strlit("i");
        }
        self.txid.push_text(out);
        out.append("i");
        push_decimal(out, self.index as u64);
        assert(final(out)@ =~= old(out)@ + self.spec_text());
    }

    /// The id's text as a string.
    pub fn text(&self) -> (r: String)
        ensures
            r@ == self.spec_text(),
    {
        let mut out = String::new();
        self.push_text(&mut out);
        assert(out@ =~= self.spec_text());
        out
    }
}

impl Key for InscriptionId {
    fn same(&self, other: &Self) -> (r: bool) {
        self.index == other.index && self.txid.same(&other.txid)
    }
}

} // verus!
