//! The boundary to the `pallas` ledger crates.
//!
//! Decoded blocks and their parts are values of `pallas` types; this library
//! carries them through without looking inside. For each accessor that the
//! library calls there is a name for what the accessor yields and a thin
//! function that makes the call. Nothing in this file is proved: the
//! contracts here are what the rest of the library takes on trust.

use crate::raw::{datum_option_view, Datum, DatumView};
use pallas::ledger::addresses::{Address, ByronAddress};
use pallas::ledger::primitives::byron::TxIn;
use pallas::ledger::primitives::conway::DatumOption;
use pallas::ledger::traverse::{MultiEraAsset, MultiEraBlock, MultiEraInput, MultiEraOutput,
    MultiEraPolicyAssets, MultiEraTx, MultiEraValue};
use vstd::prelude::*;

verus! {

/// `pallas::ledger::traverse::MultiEraBlock`: a decoded block of any era.
#[verifier::external_type_specification]
#[verifier::external_body]
pub struct ExMultiEraBlock<'b>(MultiEraBlock<'b>);

/// `pallas::ledger::traverse::MultiEraTx`: a transaction of a decoded block.
#[verifier::external_type_specification]
#[verifier::external_body]
pub struct ExMultiEraTx<'b>(MultiEraTx<'b>);

/// `pallas::ledger::traverse::MultiEraInput`: an input of a transaction.
#[verifier::external_type_specification]
#[verifier::external_body]
pub struct ExMultiEraInput<'b>(MultiEraInput<'b>);

/// `pallas::ledger::traverse::MultiEraOutput`: an output of a transaction.
#[verifier::external_type_specification]
#[verifier::external_body]
pub struct ExMultiEraOutput<'b>(MultiEraOutput<'b>);

/// `pallas::ledger::traverse::MultiEraValue`: the value of an output.
#[verifier::external_type_specification]
#[verifier::external_body]
pub struct ExMultiEraValue<'b>(MultiEraValue<'b>);

/// `pallas::ledger::traverse::MultiEraPolicyAssets`: the asset entries of a
/// value under one policy.
#[verifier::external_type_specification]
#[verifier::external_body]
pub struct ExMultiEraPolicyAssets<'b>(MultiEraPolicyAssets<'b>);

/// `pallas::ledger::traverse::MultiEraAsset`: one asset entry.
#[verifier::external_type_specification]
#[verifier::external_body]
pub struct ExMultiEraAsset<'b>(MultiEraAsset<'b>);

/// `pallas::ledger::addresses::Address`: a parsed address of any era.
#[verifier::external_type_specification]
#[verifier::external_body]
pub struct ExAddress(Address);

/// `pallas::ledger::addresses::ByronAddress`: a parsed Byron address.
#[verifier::external_type_specification]
#[verifier::external_body]
pub struct ExByronAddress(ByronAddress);

/// `pallas::ledger::traverse::Error`: why a block could not be decoded.
#[verifier::external_type_specification]
#[verifier::external_body]
pub struct ExTraverseError(pallas::ledger::traverse::Error);

/// `pallas::ledger::addresses::Error`: why bytes are no address, or an
/// address has no text.
#[verifier::external_type_specification]
#[verifier::external_body]
pub struct ExAddressError(pallas::ledger::addresses::Error);

/// The largest epoch, and the largest slot within an epoch, of a Byron
/// header for which the library asks for the absolute slot.
pub const BYRON_POSITION_LIMIT: u64 = 0xffff_ffff;

/// The block that `MultiEraBlock::decode` reads from the bytes, if it reads one.
pub uninterp spec fn decoded_block(bytes: Seq<u8>) -> Option<MultiEraBlock<'static>>;

/// The epoch and the slot within it in the header of a Byron main block;
/// none for an epoch boundary block and for a block of a later era.
pub uninterp spec fn byron_position(block: MultiEraBlock) -> Option<(u64, u64)>;

/// The epoch in the header of a Byron epoch boundary block; none for any
/// other block.
pub uninterp spec fn boundary_epoch(block: MultiEraBlock) -> Option<u64>;

/// What `MultiEraBlock::slot` returns.
pub uninterp spec fn block_slot(block: MultiEraBlock) -> u64;

/// What `MultiEraBlock::hash` returns.
pub uninterp spec fn block_hash(block: MultiEraBlock) -> Seq<u8>;

/// What `MultiEraBlock::number` returns.
pub uninterp spec fn block_number(block: MultiEraBlock) -> u64;

/// What `MultiEraBlock::txs` returns.
pub uninterp spec fn block_txs(block: MultiEraBlock) -> Seq<MultiEraTx<'static>>;

/// What `MultiEraTx::hash` returns.
pub uninterp spec fn tx_id(tx: MultiEraTx) -> Seq<u8>;

/// What `MultiEraTx::inputs` returns.
pub uninterp spec fn tx_inputs(tx: MultiEraTx) -> Seq<MultiEraInput<'static>>;

/// What `MultiEraTx::outputs` returns.
pub uninterp spec fn tx_outputs(tx: MultiEraTx) -> Seq<MultiEraOutput<'static>>;

/// Whether the input is anything but a Byron input of a kind other than
/// the one that names a transaction output.
pub uninterp spec fn input_has_reference(input: MultiEraInput) -> bool;

/// What `MultiEraInput::hash` returns.
pub uninterp spec fn input_tx_id(input: MultiEraInput) -> Seq<u8>;

/// What `MultiEraInput::index` returns.
pub uninterp spec fn input_index(input: MultiEraInput) -> u64;

/// What `MultiEraOutput::address` returns, where it returns an address.
pub uninterp spec fn output_address(output: MultiEraOutput) -> Option<Address>;

/// What `MultiEraOutput::value` returns.
pub uninterp spec fn output_value(output: MultiEraOutput) -> MultiEraValue<'static>;

/// What `MultiEraOutput::datum` returns: a hash by its bytes, inline data by
/// the bytes it was decoded from.
pub uninterp spec fn output_datum(output: MultiEraOutput) -> Option<DatumView>;

/// What `MultiEraValue::coin` returns.
pub uninterp spec fn value_coin(value: MultiEraValue) -> u64;

/// What `MultiEraValue::assets` returns.
pub uninterp spec fn value_assets(value: MultiEraValue) -> Seq<MultiEraPolicyAssets<'static>>;

/// What `MultiEraPolicyAssets::policy` returns.
pub uninterp spec fn policy_id(policy: MultiEraPolicyAssets) -> Seq<u8>;

/// What `MultiEraPolicyAssets::is_output` returns.
pub uninterp spec fn policy_is_output(policy: MultiEraPolicyAssets) -> bool;

/// What `MultiEraPolicyAssets::assets` returns.
pub uninterp spec fn policy_assets(policy: MultiEraPolicyAssets) -> Seq<MultiEraAsset<'static>>;

/// What `MultiEraAsset::name` returns.
pub uninterp spec fn asset_name(asset: MultiEraAsset) -> Seq<u8>;

/// What `MultiEraAsset::output_coin` returns.
pub uninterp spec fn asset_output_coin(asset: MultiEraAsset) -> Option<u64>;

/// What `Address::to_vec` returns.
pub uninterp spec fn address_bytes(address: Address) -> Seq<u8>;

/// The address that `Address::from_bytes` reads from the bytes, if it reads one.
pub uninterp spec fn parsed_address(bytes: Seq<u8>) -> Option<Address>;

/// What `Address::to_bech32` returns, where it returns a text.
pub uninterp spec fn address_bech32(address: Address) -> Option<Seq<char>>;

/// The address that `ByronAddress::from_bytes` reads from the bytes, if it
/// reads one.
pub uninterp spec fn parsed_byron_address(bytes: Seq<u8>) -> Option<ByronAddress>;

/// What `ByronAddress::to_base58` returns.
pub uninterp spec fn byron_base58(address: ByronAddress) -> Seq<char>;

/// Calls `MultiEraBlock::decode`, which probes the era tag and decodes the
/// block of that era, or reports why it cannot. The contract only names the
/// outcome.
#[verifier::external_body]
pub(crate) fn decode_block<'b>(bytes: &'b [u8]) -> (r: Result<
    MultiEraBlock<'b>,
    pallas::ledger::traverse::Error,
>)
    ensures
        match r {
            Ok(block) => decoded_block(bytes@) == Some(block),
            Err(_) => decoded_block(bytes@) is None,
        },
{
    MultiEraBlock::decode(bytes)
}

/// Reads, through `MultiEraBlock::header` and `MultiEraHeader::as_byron`,
/// the epoch and slot fields of a Byron main block's header.
#[verifier::external_body]
pub(crate) fn get_byron_position(block: &MultiEraBlock) -> (r: Option<(u64, u64)>)
    ensures
        r == byron_position(*block),
{
    block.header().as_byron().map(|h| (h.consensus_data.0.epoch, h.consensus_data.0.slot))
}

/// Reads, through `MultiEraBlock::header` and `MultiEraHeader::as_eb`, the
/// epoch field of an epoch boundary block's header.
#[verifier::external_body]
pub(crate) fn get_boundary_epoch(block: &MultiEraBlock) -> (r: Option<u64>)
    ensures
        r == boundary_epoch(*block),
{
    block.header().as_eb().map(|h| h.consensus_data.epoch_id)
}

/// Calls `MultiEraBlock::slot`. From Shelley on it returns the header's
/// slot. For the two kinds of Byron block it computes the absolute slot from
/// the header's epoch and slot in `u64` arithmetic with the main network's
/// epoch lengths, which stays in range while both are 32-bit values; the
/// precondition leaves the other headers out.
#[verifier::external_body]
pub(crate) fn get_block_slot(block: &MultiEraBlock) -> (r: u64)
    requires
        byron_position(*block) matches Some(p) ==> p.0 <= BYRON_POSITION_LIMIT && p.1
            <= BYRON_POSITION_LIMIT,
        boundary_epoch(*block) matches Some(e) ==> e <= BYRON_POSITION_LIMIT,
    ensures
        r == block_slot(*block),
{
    block.slot()
}

/// Calls `MultiEraBlock::hash`, which returns the 32-byte hash of the header.
#[verifier::external_body]
pub(crate) fn get_block_hash(block: &MultiEraBlock) -> (r: Vec<u8>)
    ensures
        r@ == block_hash(*block),
        r@.len() == 32,
{
    block.hash().to_vec()
}

/// Calls `MultiEraBlock::number`.
#[verifier::external_body]
pub(crate) fn get_block_number(block: &MultiEraBlock) -> (r: u64)
    ensures
        r == block_number(*block),
{
    block.number()
}

/// Calls `MultiEraBlock::txs`, which lists the block's transactions in
/// block order.
#[verifier::external_body]
pub(crate) fn get_block_txs<'a>(block: &'a MultiEraBlock) -> (r: Vec<MultiEraTx<'a>>)
    ensures
        r@ == block_txs(*block),
{
    block.txs()
}

/// Calls `MultiEraTx::hash`, which returns the 32-byte hash of the
/// transaction body as it was encoded.
#[verifier::external_body]
pub(crate) fn get_tx_id(tx: &MultiEraTx) -> (r: Vec<u8>)
    ensures
        r@ == tx_id(*tx),
        r@.len() == 32,
{
    tx.hash().to_vec()
}

/// Calls `MultiEraTx::inputs`, which lists the inputs in the order of the
/// transaction body.
#[verifier::external_body]
pub(crate) fn get_tx_inputs<'a>(tx: &'a MultiEraTx) -> (r: Vec<MultiEraInput<'a>>)
    ensures
        r@ == tx_inputs(*tx),
{
    tx.inputs()
}

/// Calls `MultiEraTx::outputs`, which lists the outputs in the order of the
/// transaction body.
#[verifier::external_body]
pub(crate) fn get_tx_outputs<'a>(tx: &'a MultiEraTx) -> (r: Vec<MultiEraOutput<'a>>)
    ensures
        r@ == tx_outputs(*tx),
{
    tx.outputs()
}

/// Tells, through `MultiEraInput::as_byron`, a Byron input of another kind
/// than the one that names a transaction output from all other inputs.
#[verifier::external_body]
pub(crate) fn get_input_has_reference(input: &MultiEraInput) -> (r: bool)
    ensures
        r == input_has_reference(*input),
{
    match input.as_byron() {
        Some(TxIn::Other(..)) => false,
        _ => true,
    }
}

/// Calls `MultiEraInput::hash`, which returns the 32-byte id of the
/// transaction whose output is spent. It does not return for a Byron input
/// of another kind; the precondition leaves those out.
#[verifier::external_body]
pub(crate) fn get_input_tx_id(input: &MultiEraInput) -> (r: Vec<u8>)
    requires
        input_has_reference(*input),
    ensures
        r@ == input_tx_id(*input),
        r@.len() == 32,
{
    input.hash().to_vec()
}

/// Calls `MultiEraInput::index`, under the same precondition as
/// [`get_input_tx_id`].
#[verifier::external_body]
pub(crate) fn get_input_index(input: &MultiEraInput) -> (r: u64)
    requires
        input_has_reference(*input),
    ensures
        r == input_index(*input),
{
    input.index()
}

/// Calls `MultiEraOutput::address`, which parses the output's address
/// bytes, or reports why they are no address.
#[verifier::external_body]
pub(crate) fn get_output_address(output: &MultiEraOutput) -> (r: Result<
    Address,
    pallas::ledger::addresses::Error,
>)
    ensures
        match r {
            Ok(address) => output_address(*output) == Some(address),
            Err(_) => output_address(*output) is None,
        },
{
    output.address()
}

/// Calls `MultiEraOutput::value`.
#[verifier::external_body]
pub(crate) fn get_output_value<'a>(output: &'a MultiEraOutput) -> (r: MultiEraValue<'a>)
    ensures
        r == output_value(*output),
{
    output.value()
}

/// Calls `MultiEraOutput::datum` and moves the payload out of either
/// variant: the 32 bytes of a datum hash, or, through `KeepRaw::raw_cbor`,
/// the bytes from which inline data was decoded.
#[verifier::external_body]
pub(crate) fn get_output_datum(output: &MultiEraOutput) -> (r: Option<Datum>)
    ensures
        datum_option_view(r) == output_datum(*output),
        r matches Some(Datum::Hash(h)) ==> h@.len() == 32,
{
    match output.datum() {
        Some(DatumOption::Hash(hash)) => Some(Datum::Hash(hash.to_vec())),
        Some(DatumOption::Data(data)) => Some(Datum::Data(data.raw_cbor().to_vec())),
        None => None,
    }
}

/// Calls `MultiEraValue::coin`.
#[verifier::external_body]
pub(crate) fn get_value_coin(value: &MultiEraValue) -> (r: u64)
    ensures
        r == value_coin(*value),
{
    value.coin()
}

/// Calls `MultiEraValue::assets`, which lists the policy groups of the
/// value; there is none where the value is of the base unit alone.
#[verifier::external_body]
pub(crate) fn get_value_assets<'a>(value: &'a MultiEraValue) -> (r: Vec<
    MultiEraPolicyAssets<'a>,
>)
    ensures
        r@ == value_assets(*value),
{
    value.assets()
}

/// Calls `MultiEraPolicyAssets::policy`, which returns the 28-byte policy id.
#[verifier::external_body]
pub(crate) fn get_policy_id(policy: &MultiEraPolicyAssets) -> (r: Vec<u8>)
    ensures
        r@ == policy_id(*policy),
        r@.len() == 28,
{
    policy.policy().to_vec()
}

/// Calls `MultiEraPolicyAssets::is_output`.
#[verifier::external_body]
pub(crate) fn get_policy_is_output(policy: &MultiEraPolicyAssets) -> (r: bool)
    ensures
        r == policy_is_output(*policy),
{
    policy.is_output()
}

/// Calls `MultiEraPolicyAssets::assets`.
#[verifier::external_body]
pub(crate) fn get_policy_assets<'a>(policy: &'a MultiEraPolicyAssets) -> (r: Vec<
    MultiEraAsset<'a>,
>)
    ensures
        r@ == policy_assets(*policy),
{
    policy.assets()
}

/// Calls `MultiEraAsset::name`.
#[verifier::external_body]
pub(crate) fn get_asset_name(asset: &MultiEraAsset) -> (r: Vec<u8>)
    ensures
        r@ == asset_name(*asset),
{
    asset.name().to_vec()
}

/// Calls `MultiEraAsset::output_coin`, which returns the quantity of an
/// output-side asset and nothing for a minted one.
#[verifier::external_body]
pub(crate) fn get_asset_output_coin(asset: &MultiEraAsset) -> (r: Option<u64>)
    ensures
        r == asset_output_coin(*asset),
{
    asset.output_coin()
}

/// Calls `Address::to_vec`, which encodes the address in bytes.
#[verifier::external_body]
pub(crate) fn get_address_bytes(address: &Address) -> (r: Vec<u8>)
    ensures
        r@ == address_bytes(*address),
{
    address.to_vec()
}

/// Calls `Address::from_bytes`, which parses an address of any era, or
/// reports why the bytes are none.
#[verifier::external_body]
pub(crate) fn parse_address(bytes: &[u8]) -> (r: Result<Address, pallas::ledger::addresses::Error>)
    ensures
        match r {
            Ok(address) => parsed_address(bytes@) == Some(address),
            Err(_) => parsed_address(bytes@) is None,
        },
{
    Address::from_bytes(bytes)
}

/// Calls `Address::to_bech32`, which gives the bech32 text of a Shelley or
/// stake address of a known network, and an error for any other address.
#[verifier::external_body]
pub(crate) fn encode_bech32(address: &Address) -> (r: Result<
    String,
    pallas::ledger::addresses::Error,
>)
    ensures
        match r {
            Ok(text) => address_bech32(*address) == Some(text@),
            Err(_) => address_bech32(*address) is None,
        },
{
    address.to_bech32()
}

/// Calls `ByronAddress::from_bytes`, which parses a Byron address, or
/// reports why the bytes are none.
#[verifier::external_body]
pub(crate) fn parse_byron_address(bytes: &[u8]) -> (r: Result<
    ByronAddress,
    pallas::ledger::addresses::Error,
>)
    ensures
        match r {
            Ok(address) => parsed_byron_address(bytes@) == Some(address),
            Err(_) => parsed_byron_address(bytes@) is None,
        },
{
    ByronAddress::from_bytes(bytes)
}

/// Calls `ByronAddress::to_base58`.
#[verifier::external_body]
pub(crate) fn encode_base58(address: &ByronAddress) -> (r: String)
    ensures
        r@ == byron_base58(*address),
{
    address.to_base58()
}

} // verus!
