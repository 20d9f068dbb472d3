//! What the ledger crate's accessors report about a block, as plain values
//! and before any of this library's rules are applied: nothing is filtered,
//! and what an accessor could not resolve is recorded as absent.

use vstd::prelude::*;

verus! {

/// Copies a byte string.
pub fn copy_bytes(bytes: &Vec<u8>) -> (r: Vec<u8>)
    ensures
        r@ == bytes@,
{
    vstd::slice::slice_to_vec(bytes.as_slice())
}

/// The datum attached to an output.
#[derive(Clone, Debug, PartialEq, Eq)]
pub enum Datum {
    /// The 32-byte digest of datum content that is stored elsewhere.
    Hash(Vec<u8>),
    /// The datum itself, in the bytes in which the chain holds it.
    Data(Vec<u8>),
}

/// The mathematical value of a [`Datum`].
pub enum DatumView {
    Hash(Seq<u8>),
    Data(Seq<u8>),
}

impl View for Datum {
    type V = DatumView;

    open spec fn view(&self) -> DatumView {
        match *self {
            Datum::Hash(h) => DatumView::Hash(h@),
            Datum::Data(d) => DatumView::Data(d@),
        }
    }
}

/// The view of an optional datum.
pub open spec fn datum_option_view(d: Option<Datum>) -> Option<DatumView> {
    match d {
        Some(x) => Some(x@),
        None => None,
    }
}

/// Tag of a datum given by its hash.
pub const DATUM_TYPE_HASH: u8 = 1;

/// Tag of a datum given inline.
pub const DATUM_TYPE_DATA: u8 = 2;

impl Datum {
    /// The tag under which the datum crosses a boundary that has no tagged
    /// unions: [`DATUM_TYPE_HASH`] or [`DATUM_TYPE_DATA`].
    pub fn datum_type(&self) -> (r: u8)
        ensures
            r == (if self@ is Hash { DATUM_TYPE_HASH } else { DATUM_TYPE_DATA }),
    {
        match self {
            Datum::Hash(_) => DATUM_TYPE_HASH,
            Datum::Data(_) => DATUM_TYPE_DATA,
        }
    }

    /// The payload: the digest, or the inline bytes.
    pub fn data(&self) -> (r: &Vec<u8>)
        ensures
            self@ == DatumView::Hash(r@) || self@ == DatumView::Data(r@),
            self@ is Hash ==> self@ == DatumView::Hash(r@),
            self@ is Data ==> self@ == DatumView::Data(r@),
    {
        match self {
            Datum::Hash(h) => h,
            Datum::Data(d) => d,
        }
    }

    /// A copy of the datum.
    pub fn duplicate(&self) -> (r: Datum)
        ensures
            r@ == self@,
    {
        match self {
            Datum::Hash(h) => Datum::Hash(copy_bytes(h)),
            Datum::Data(d) => Datum::Data(copy_bytes(d)),
        }
    }
}

/// One asset entry under a policy.
#[derive(Clone, Debug, PartialEq, Eq)]
pub struct RawAsset {
    pub name: Vec<u8>,
    /// The quantity that the output holds; absent for an entry that records
    /// minting or burning only.
    pub output_coin: Option<u64>,
}

pub struct RawAssetView {
    pub name: Seq<u8>,
    pub output_coin: Option<u64>,
}

impl View for RawAsset {
    type V = RawAssetView;

    open spec fn view(&self) -> RawAssetView {
        RawAssetView { name: self.name@, output_coin: self.output_coin }
    }
}

/// The asset entries grouped under one policy.
#[derive(Clone, Debug, PartialEq, Eq)]
pub struct RawPolicyAssets {
    pub policy: Vec<u8>,
    /// Whether the group records what an output holds (and not a mint).
    pub is_output: bool,
    pub assets: Vec<RawAsset>,
}

pub struct RawPolicyAssetsView {
    pub policy: Seq<u8>,
    pub is_output: bool,
    pub assets: Seq<RawAssetView>,
}

/// The views of a list of asset entries.
pub open spec fn raw_assets_view(s: Seq<RawAsset>) -> Seq<RawAssetView> {
    Seq::new(s.len(), |i: int| s[i]@)
}

impl View for RawPolicyAssets {
    type V = RawPolicyAssetsView;

    open spec fn view(&self) -> RawPolicyAssetsView {
        RawPolicyAssetsView {
            policy: self.policy@,
            is_output: self.is_output,
            assets: raw_assets_view(self.assets@),
        }
    }
}

/// The views of a list of policy groups.
pub open spec fn raw_policies_view(s: Seq<RawPolicyAssets>) -> Seq<RawPolicyAssetsView> {
    Seq::new(s.len(), |i: int| s[i]@)
}

/// A transaction input.
#[derive(Clone, Debug, PartialEq, Eq)]
pub struct RawInput {
    /// The transaction id and output index that the input spends; absent
    /// where the input is of a kind that names no output.
    pub reference: Option<(Vec<u8>, u64)>,
}

pub struct RawInputView {
    pub reference: Option<(Seq<u8>, u64)>,
}

impl View for RawInput {
    type V = RawInputView;

    open spec fn view(&self) -> RawInputView {
        RawInputView {
            reference: match self.reference {
                Some(r) => Some((r.0@, r.1)),
                None => None,
            },
        }
    }
}

/// A transaction output.
#[derive(Clone, Debug, PartialEq, Eq)]
pub struct RawOutput {
    /// The address in bytes; absent where the output's address cannot be
    /// resolved.
    pub address: Option<Vec<u8>>,
    pub coin: u64,
    pub assets: Vec<RawPolicyAssets>,
    pub datum: Option<Datum>,
}

pub struct RawOutputView {
    pub address: Option<Seq<u8>>,
    pub coin: u64,
    pub assets: Seq<RawPolicyAssetsView>,
    pub datum: Option<DatumView>,
}

impl View for RawOutput {
    type V = RawOutputView;

    open spec fn view(&self) -> RawOutputView {
        RawOutputView {
            address: match self.address {
                Some(a) => Some(a@),
                None => None,
            },
            coin: self.coin,
            assets: raw_policies_view(self.assets@),
            datum: datum_option_view(self.datum),
        }
    }
}

/// A transaction.
#[derive(Clone, Debug, PartialEq, Eq)]
pub struct RawTx {
    pub id: Vec<u8>,
    pub inputs: Vec<RawInput>,
    pub outputs: Vec<RawOutput>,
}

pub struct RawTxView {
    pub id: Seq<u8>,
    pub inputs: Seq<RawInputView>,
    pub outputs: Seq<RawOutputView>,
}

/// The views of a list of inputs.
pub open spec fn raw_inputs_view(s: Seq<RawInput>) -> Seq<RawInputView> {
    Seq::new(s.len(), |i: int| s[i]@)
}

/// The views of a list of outputs.
pub open spec fn raw_outputs_view(s: Seq<RawOutput>) -> Seq<RawOutputView> {
    Seq::new(s.len(), |i: int| s[i]@)
}

impl View for RawTx {
    type V = RawTxView;

    open spec fn view(&self) -> RawTxView {
        RawTxView {
            id: self.id@,
            inputs: raw_inputs_view(self.inputs@),
            outputs: raw_outputs_view(self.outputs@),
        }
    }
}

/// A block.
#[derive(Clone, Debug, PartialEq, Eq)]
pub struct RawBlock {
    /// The absolute slot; absent where the header's epoch and slot are so
    /// large that the absolute slot cannot be computed.
    pub slot: Option<u64>,
    pub hash: Vec<u8>,
    pub number: u64,
    pub txs: Vec<RawTx>,
}

pub struct RawBlockView {
    pub slot: Option<u64>,
    pub hash: Seq<u8>,
    pub number: u64,
    pub txs: Seq<RawTxView>,
}

/// The views of a list of transactions.
pub open spec fn raw_txs_view(s: Seq<RawTx>) -> Seq<RawTxView> {
    Seq::new(s.len(), |i: int| s[i]@)
}

impl View for RawBlock {
    type V = RawBlockView;

    open spec fn view(&self) -> RawBlockView {
        RawBlockView {
            slot: self.slot,
            hash: self.hash@,
            number: self.number,
            txs: raw_txs_view(self.txs@),
        }
    }
}

} // verus!
