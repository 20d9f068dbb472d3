//! Reading a decoded block into plain values: every accessor of the ledger
//! crate is called once per part, in chain order, and what it reports is
//! written down as it is.

use crate::ledger::{address_bytes, asset_name, asset_output_coin, block_hash, block_number,
    block_slot, block_txs, boundary_epoch, byron_position, decode_block, decoded_block,
    get_address_bytes, get_asset_name, get_asset_output_coin, get_block_hash, get_block_number,
    get_block_slot, get_block_txs, get_boundary_epoch, get_byron_position,
    get_input_has_reference, get_input_index, get_input_tx_id, get_output_address,
    get_output_datum, get_output_value, get_policy_assets, get_policy_id, get_policy_is_output,
    get_tx_id, get_tx_inputs, get_tx_outputs, get_value_assets, get_value_coin,
    input_has_reference, input_index, input_tx_id, output_address, output_datum, output_value,
    policy_assets, policy_id, policy_is_output, tx_id, tx_inputs, tx_outputs, value_assets,
    value_coin, BYRON_POSITION_LIMIT};
use crate::model::{block_outcome, block_result_view, lemma_empty_block_is_carried_over,
    lemma_parts_are_carried_over, Block, BlockView, DecodeError};
use crate::raw::{RawAsset, RawAssetView, RawBlock, RawBlockView, RawInput, RawInputView,
    RawOutput, RawOutputView, RawPolicyAssets, RawPolicyAssetsView, RawTx, RawTxView};
use pallas::ledger::traverse::{MultiEraAsset, MultiEraBlock, MultiEraInput, MultiEraOutput,
    MultiEraPolicyAssets, MultiEraTx};
use vstd::prelude::*;

verus! {

/// What the accessors report of an asset entry.
pub open spec fn raw_asset_model(asset: MultiEraAsset) -> RawAssetView {
    RawAssetView { name: asset_name(asset), output_coin: asset_output_coin(asset) }
}

/// What the accessors report of a policy group.
pub open spec fn raw_policy_model(policy: MultiEraPolicyAssets) -> RawPolicyAssetsView {
    RawPolicyAssetsView {
        policy: policy_id(policy),
        is_output: policy_is_output(policy),
        assets: Seq::new(
            policy_assets(policy).len(),
            |i: int| raw_asset_model(policy_assets(policy)[i]),
        ),
    }
}

/// What the accessors report of an input.
pub open spec fn raw_input_model(input: MultiEraInput) -> RawInputView {
    RawInputView {
        reference: if input_has_reference(input) {
            Some((input_tx_id(input), input_index(input)))
        } else {
            None
        },
    }
}

/// What the accessors report of an output.
pub open spec fn raw_output_model(output: MultiEraOutput) -> RawOutputView {
    RawOutputView {
        address: match output_address(output) {
            Some(address) => Some(address_bytes(address)),
            None => None,
        },
        coin: value_coin(output_value(output)),
        assets: Seq::new(
            value_assets(output_value(output)).len(),
            |i: int| raw_policy_model(value_assets(output_value(output))[i]),
        ),
        datum: output_datum(output),
    }
}

/// What the accessors report of a transaction.
pub open spec fn raw_tx_model(tx: MultiEraTx) -> RawTxView {
    RawTxView {
        id: tx_id(tx),
        inputs: Seq::new(tx_inputs(tx).len(), |i: int| raw_input_model(tx_inputs(tx)[i])),
        outputs: Seq::new(tx_outputs(tx).len(), |i: int| raw_output_model(tx_outputs(tx)[i])),
    }
}

/// Whether the block is of a later era than Byron, or its header's epoch
/// and slot are within [`BYRON_POSITION_LIMIT`].
pub open spec fn slot_in_range(block: MultiEraBlock) -> bool {
    &&& byron_position(block) matches Some(p) ==> p.0 <= BYRON_POSITION_LIMIT && p.1
        <= BYRON_POSITION_LIMIT
    &&& boundary_epoch(block) matches Some(e) ==> e <= BYRON_POSITION_LIMIT
}

/// What the accessors report of a block.
pub open spec fn raw_block_model(block: MultiEraBlock) -> RawBlockView {
    RawBlockView {
        slot: if slot_in_range(block) {
            Some(block_slot(block))
        } else {
            None
        },
        hash: block_hash(block),
        number: block_number(block),
        txs: Seq::new(block_txs(block).len(), |i: int| raw_tx_model(block_txs(block)[i])),
    }
}

/// What becomes of a byte string taken for a block: where no block can be
/// decoded from it, it is malformed; otherwise the rules of the model apply
/// to what the decoded block reports.
pub open spec fn decode_outcome(bytes: Seq<u8>) -> Result<BlockView, DecodeError> {
    match decoded_block(bytes) {
        None => Err(DecodeError::Malformed),
        Some(block) => block_outcome(raw_block_model(block)),
    }
}

/// A block that decodes and holds no transactions gives a block with an
/// empty sequence of transactions, not an error, wherever its slot can be
/// asked for.
pub proof fn lemma_empty_block_decodes(bytes: Seq<u8>)
    requires
        decoded_block(bytes) is Some,
        slot_in_range(decoded_block(bytes).unwrap()),
        block_txs(decoded_block(bytes).unwrap()).len() == 0,
    ensures
        decode_outcome(bytes) == Ok::<BlockView, DecodeError>(
            BlockView {
                slot: block_slot(decoded_block(bytes).unwrap()),
                hash: block_hash(decoded_block(bytes).unwrap()),
                number: block_number(decoded_block(bytes).unwrap()),
                transaction_bodies: Seq::empty(),
            },
        ),
{
    lemma_empty_block_is_carried_over(raw_block_model(decoded_block(bytes).unwrap()));
}

/// Where bytes decode to a block, every output has the datum that the
/// chain holds for it: a hash with the bytes of the digest, inline data
/// with the bytes in which it is encoded, and none where there is none.
pub proof fn lemma_datum_is_preserved(bytes: Seq<u8>, t: int, j: int)
    requires
        decode_outcome(bytes) is Ok,
        0 <= t < decode_outcome(bytes)->Ok_0.transaction_bodies.len(),
        0 <= j < decode_outcome(bytes)->Ok_0.transaction_bodies[t].outputs.len(),
    ensures
        decoded_block(bytes) is Some,
        t < block_txs(decoded_block(bytes).unwrap()).len(),
        j < tx_outputs(block_txs(decoded_block(bytes).unwrap())[t]).len(),
        decode_outcome(bytes)->Ok_0.transaction_bodies[t].outputs[j].datum == output_datum(
            tx_outputs(block_txs(decoded_block(bytes).unwrap())[t])[j],
        ),
{
    let raw = raw_block_model(decoded_block(bytes).unwrap());
    lemma_parts_are_carried_over(raw, t);
}

/// Reads an asset entry.
pub fn read_asset(asset: &MultiEraAsset) -> (r: RawAsset)
    ensures
        r@ == raw_asset_model(*asset),
{
    RawAsset { name: get_asset_name(asset), output_coin: get_asset_output_coin(asset) }
}

/// Reads a policy group with its asset entries.
pub fn read_policy(policy: &MultiEraPolicyAssets) -> (r: RawPolicyAssets)
    ensures
        r@ == raw_policy_model(*policy),
{
    let entries = get_policy_assets(policy);
    let mut assets: Vec<RawAsset> = Vec::new();
    let mut i: usize = 0;
    while i < entries.len()
        invariant
            i <= entries.len(),
            assets@.len() == i,
            forall|j: int| 0 <= j < i ==> (#[trigger] assets@[j])@ == raw_asset_model(entries@[j]),
        decreases entries.len() - i,
    {
        assets.push(read_asset(&entries[i]));
        i = i + 1;
    }
    let r = RawPolicyAssets {
        policy: get_policy_id(policy),
        is_output: get_policy_is_output(policy),
        assets,
    };
    proof {
        assert(r@.assets =~= raw_policy_model(*policy).assets);
    }
    r
}

/// Reads an input.
pub fn read_input(input: &MultiEraInput) -> (r: RawInput)
    ensures
        r@ == raw_input_model(*input),
{
    if get_input_has_reference(input) {
        RawInput { reference: Some((get_input_tx_id(input), get_input_index(input))) }
    } else {
        RawInput { reference: None }
    }
}

/// Reads an output with its value and datum.
pub fn read_output(output: &MultiEraOutput) -> (r: RawOutput)
    ensures
        r@ == raw_output_model(*output),
{
    let address = match get_output_address(output) {
        Ok(address) => Some(get_address_bytes(&address)),
        Err(_) => None,
    };
    let value = get_output_value(output);
    let groups = get_value_assets(&value);
    let mut assets: Vec<RawPolicyAssets> = Vec::new();
    let mut i: usize = 0;
    while i < groups.len()
        invariant
            i <= groups.len(),
            assets@.len() == i,
            forall|j: int| 0 <= j < i ==> (#[trigger] assets@[j])@ == raw_policy_model(groups@[j]),
        decreases groups.len() - i,
    {
        assets.push(read_policy(&groups[i]));
        i = i + 1;
    }
    let r = RawOutput {
        address,
        coin: get_value_coin(&value),
        assets,
        datum: get_output_datum(output),
    };
    proof {
        assert(r@.assets =~= raw_output_model(*output).assets);
    }
    r
}

/// Reads a transaction with its inputs and outputs.
pub fn read_tx(tx: &MultiEraTx) -> (r: RawTx)
    ensures
        r@ == raw_tx_model(*tx),
{
    let ins = get_tx_inputs(tx);
    let mut inputs: Vec<RawInput> = Vec::new();
    let mut i: usize = 0;
    while i < ins.len()
        invariant
            i <= ins.len(),
            inputs@.len() == i,
            forall|j: int| 0 <= j < i ==> (#[trigger] inputs@[j])@ == raw_input_model(ins@[j]),
        decreases ins.len() - i,
    {
        inputs.push(read_input(&ins[i]));
        i = i + 1;
    }
    let outs = get_tx_outputs(tx);
    let mut outputs: Vec<RawOutput> = Vec::new();
    let mut k: usize = 0;
    while k < outs.len()
        invariant
            k <= outs.len(),
            outputs@.len() == k,
            forall|j: int| 0 <= j < k ==> (#[trigger] outputs@[j])@ == raw_output_model(outs@[j]),
        decreases outs.len() - k,
    {
        outputs.push(read_output(&outs[k]));
        k = k + 1;
    }
    let r = RawTx { id: get_tx_id(tx), inputs, outputs };
    proof {
        assert(r@.inputs =~= raw_tx_model(*tx).inputs);
        assert(r@.outputs =~= raw_tx_model(*tx).outputs);
    }
    r
}

/// Whether the absolute slot of the block can be asked for.
fn check_slot_in_range(block: &MultiEraBlock) -> (r: bool)
    ensures
        r == slot_in_range(*block),
{
    let main_ok = match get_byron_position(block) {
        Some(p) => p.0 <= BYRON_POSITION_LIMIT && p.1 <= BYRON_POSITION_LIMIT,
        None => true,
    };
    let boundary_ok = match get_boundary_epoch(block) {
        Some(e) => e <= BYRON_POSITION_LIMIT,
        None => true,
    };
    main_ok && boundary_ok
}

/// Reads a block with its transactions.
pub fn read_block(block: &MultiEraBlock) -> (r: RawBlock)
    ensures
        r@ == raw_block_model(*block),
{
    let slot = if check_slot_in_range(block) {
        Some(get_block_slot(block))
    } else {
        None
    };
    let listed = get_block_txs(block);
    let mut txs: Vec<RawTx> = Vec::new();
    let mut i: usize = 0;
    while i < listed.len()
        invariant
            i <= listed.len(),
            txs@.len() == i,
            forall|j: int| 0 <= j < i ==> (#[trigger] txs@[j])@ == raw_tx_model(listed@[j]),
        decreases listed.len() - i,
    {
        txs.push(read_tx(&listed[i]));
        i = i + 1;
    }
    let r = RawBlock { slot, hash: get_block_hash(block), number: get_block_number(block), txs };
    proof {
        assert(r@.txs =~= raw_block_model(*block).txs);
    }
    r
}

impl Block {
    /// Decodes an era-tagged block, whatever its era.
    pub fn decode(bytes: &[u8]) -> (r: Result<Block, DecodeError>)
        ensures
            block_result_view(r) == decode_outcome(bytes@),
            r matches Ok(block) ==> block.wf(),
    {
        match decode_block(bytes) {
            Ok(block) => {
                let raw = read_block(&block);
                Block::from_raw(&raw)
            },
            Err(_) => Err(DecodeError::Malformed),
        }
    }
}

} // verus!
