//! The block model that the library hands out: blocks, transactions, inputs
//! and outputs, and the rules by which they are built from what was read.

use crate::raw::{copy_bytes, datum_option_view, raw_inputs_view, raw_outputs_view, Datum,
    DatumView, RawBlock, RawBlockView, RawInput, RawInputView, RawOutput, RawOutputView, RawTx,
    RawTxView};
use crate::value::{policy_holdings, Value, ValueView};
use vstd::prelude::*;

verus! {

/// Why a block could not be turned into the model.
#[derive(Clone, Copy, Debug, PartialEq, Eq)]
pub enum DecodeError {
    /// The bytes are not a block of any known era.
    Malformed,
    /// The header's epoch and slot are too large for an absolute slot.
    SlotOutOfRange,
    /// Input `input` of transaction `tx` names no transaction output.
    UnsupportedInput { tx: usize, input: usize },
    /// Output `output` of transaction `tx` has no resolvable address.
    UnresolvableAddress { tx: usize, output: usize },
}

/// The first position at which `flags` holds `true`, if there is one.
pub open spec fn first_true(flags: Seq<bool>) -> Option<int> {
    if forall|i: int| 0 <= i < flags.len() ==> !flags[i] {
        None
    } else {
        Some(
            choose|i: int|
                0 <= i < flags.len() && flags[i] && forall|j: int| 0 <= j < i ==> !flags[j],
        )
    }
}

/// A position that holds `true` after none that does is the first such.
pub proof fn lemma_first_true(flags: Seq<bool>, i: int)
    requires
        0 <= i < flags.len(),
        flags[i],
        forall|j: int| 0 <= j < i ==> !flags[j],
    ensures
        first_true(flags) == Some(i),
{
    let c = choose|c: int|
        0 <= c < flags.len() && flags[c] && forall|j: int| 0 <= j < c ==> !flags[j];
    assert(0 <= c < flags.len() && flags[c] && forall|j: int| 0 <= j < c ==> !flags[j]);
    if c < i {
        assert(!flags[c]);
    }
    if i < c {
        assert(!flags[i]);
    }
}

/// A reference to an output of an earlier transaction.
#[derive(Clone, Debug, PartialEq, Eq)]
pub struct TransactionInput {
    pub id: Vec<u8>,
    pub index: u64,
}

pub struct TransactionInputView {
    pub id: Seq<u8>,
    pub index: u64,
}

impl View for TransactionInput {
    type V = TransactionInputView;

    open spec fn view(&self) -> TransactionInputView {
        TransactionInputView { id: self.id@, index: self.index }
    }
}

/// The input that a raw input with a reference stands for.
pub open spec fn input_model(raw: RawInputView) -> TransactionInputView {
    TransactionInputView { id: raw.reference.unwrap().0, index: raw.reference.unwrap().1 }
}

impl TransactionInput {
    /// The input that `raw` stands for; none where `raw` names no output.
    pub fn from_raw(raw: &RawInput) -> (r: Option<TransactionInput>)
        ensures
            r is Some <==> raw@.reference is Some,
            r matches Some(input) ==> input@ == input_model(raw@),
    {
        match &raw.reference {
            Some(reference) => Some(
                TransactionInput { id: copy_bytes(&reference.0), index: reference.1 },
            ),
            None => None,
        }
    }
}

/// An output of a transaction.
#[derive(Clone, Debug)]
pub struct TransactionOutput {
    pub address: Vec<u8>,
    pub amount: Value,
    /// The position of the output in its transaction, from zero.
    pub index: usize,
    pub datum: Option<Datum>,
}

pub struct TransactionOutputView {
    pub address: Seq<u8>,
    pub amount: ValueView,
    pub index: usize,
    pub datum: Option<DatumView>,
}

impl View for TransactionOutput {
    type V = TransactionOutputView;

    open spec fn view(&self) -> TransactionOutputView {
        TransactionOutputView {
            address: self.address@,
            amount: self.amount@,
            index: self.index,
            datum: datum_option_view(self.datum),
        }
    }
}

/// The output that a raw output with an address stands for at position
/// `index`: its assets are the output-side holdings, its datum is untouched.
pub open spec fn output_model(raw: RawOutputView, index: int) -> TransactionOutputView {
    TransactionOutputView {
        address: raw.address.unwrap(),
        amount: ValueView { coin: raw.coin, multi_asset: policy_holdings(raw.assets) },
        index: index as usize,
        datum: raw.datum,
    }
}

impl TransactionOutput {
    /// The invariant of the value held.
    pub open spec fn wf(&self) -> bool {
        self.amount.wf()
    }

    /// The output that `raw` stands for at position `index`; none where
    /// `raw` has no address.
    pub fn from_raw(raw: &RawOutput, index: usize) -> (r: Option<TransactionOutput>)
        ensures
            r is Some <==> raw@.address is Some,
            r matches Some(output) ==> output.wf() && output@ == output_model(raw@, index as int),
    {
        match &raw.address {
            Some(address) => {
                let datum = match &raw.datum {
                    Some(d) => Some(d.duplicate()),
                    None => None,
                };
                Some(
                    TransactionOutput {
                        address: copy_bytes(address),
                        amount: Value::from_holdings(raw.coin, &raw.assets),
                        index,
                        datum,
                    },
                )
            },
            None => None,
        }
    }
}

/// A transaction: its id, its position in the block, and what it spends and
/// creates, in chain order.
#[derive(Clone, Debug)]
pub struct TransactionBody {
    pub id: Vec<u8>,
    pub inputs: Vec<TransactionInput>,
    pub outputs: Vec<TransactionOutput>,
    /// The position of the transaction in its block, from zero.
    pub index: usize,
}

pub struct TransactionBodyView {
    pub id: Seq<u8>,
    pub inputs: Seq<TransactionInputView>,
    pub outputs: Seq<TransactionOutputView>,
    pub index: usize,
}

/// The views of a list of inputs.
pub open spec fn inputs_view(s: Seq<TransactionInput>) -> Seq<TransactionInputView> {
    Seq::new(s.len(), |i: int| s[i]@)
}

/// The views of a list of outputs.
pub open spec fn outputs_view(s: Seq<TransactionOutput>) -> Seq<TransactionOutputView> {
    Seq::new(s.len(), |i: int| s[i]@)
}

impl View for TransactionBody {
    type V = TransactionBodyView;

    open spec fn view(&self) -> TransactionBodyView {
        TransactionBodyView {
            id: self.id@,
            inputs: inputs_view(self.inputs@),
            outputs: outputs_view(self.outputs@),
            index: self.index,
        }
    }
}

/// The first input that names no output, if there is one.
pub open spec fn first_unsupported_input(inputs: Seq<RawInputView>) -> Option<int> {
    first_true(Seq::new(inputs.len(), |i: int| inputs[i].reference is None))
}

/// The first output without an address, if there is one.
pub open spec fn first_unresolved_address(outputs: Seq<RawOutputView>) -> Option<int> {
    first_true(Seq::new(outputs.len(), |i: int| outputs[i].address is None))
}

/// What becomes of the raw transaction at position `index` of its block: the
/// first input without a reference fails it, then the first output without
/// an address; otherwise every input and output is carried over in order.
#[verifier::opaque]
pub open spec fn tx_outcome(raw: RawTxView, index: int) -> Result<
    TransactionBodyView,
    DecodeError,
> {
    match first_unsupported_input(raw.inputs) {
        Some(i) => Err(DecodeError::UnsupportedInput { tx: index as usize, input: i as usize }),
        None => match first_unresolved_address(raw.outputs) {
            Some(j) => Err(
                DecodeError::UnresolvableAddress { tx: index as usize, output: j as usize },
            ),
            None => Ok(
                TransactionBodyView {
                    id: raw.id,
                    inputs: Seq::new(raw.inputs.len(), |i: int| input_model(raw.inputs[i])),
                    outputs: Seq::new(raw.outputs.len(), |j: int| output_model(raw.outputs[j], j)),
                    index: index as usize,
                },
            ),
        },
    }
}

/// The view of a transaction or the error in its place.
pub open spec fn body_result_view(r: Result<TransactionBody, DecodeError>) -> Result<
    TransactionBodyView,
    DecodeError,
> {
    match r {
        Ok(body) => Ok(body@),
        Err(e) => Err(e),
    }
}

/// Carries over the inputs of a transaction; the error is the position of
/// the first input that names no output.
fn inputs_from_raw(raw: &Vec<RawInput>) -> (r: Result<Vec<TransactionInput>, usize>)
    ensures
        match r {
            Ok(inputs) => first_unsupported_input(raw_inputs_view(raw@)) is None
                && inputs_view(inputs@) == Seq::new(
                raw@.len(),
                |i: int| input_model(raw@[i]@),
            ),
            Err(i) => first_unsupported_input(raw_inputs_view(raw@)) == Some(i as int),
        },
{
    let ghost flags = Seq::new(raw@.len(), |i: int| raw_inputs_view(raw@)[i].reference is None);
    let mut inputs: Vec<TransactionInput> = Vec::new();
    let mut i: usize = 0;
    while i < raw.len()
        invariant
            i <= raw.len(),
            inputs@.len() == i,
            flags == Seq::new(
                raw@.len(),
                |i: int| raw_inputs_view(raw@)[i].reference is None,
            ),
            forall|j: int| 0 <= j < i ==> !flags[j],
            forall|j: int| 0 <= j < i ==> (#[trigger] inputs@[j])@ == input_model(raw@[j]@),
        decreases raw.len() - i,
    {
        match TransactionInput::from_raw(&raw[i]) {
            Some(input) => {
                inputs.push(input);
            },
            None => {
                proof {
                    lemma_first_true(flags, i as int);
                }
                return Err(i);
            },
        }
        i = i + 1;
    }
    proof {
        assert(inputs_view(inputs@) =~= Seq::new(raw@.len(), |i: int| input_model(raw@[i]@)));
    }
    Ok(inputs)
}

/// Carries over the outputs of a transaction; the error is the position of
/// the first output without an address.
fn outputs_from_raw(raw: &Vec<RawOutput>) -> (r: Result<Vec<TransactionOutput>, usize>)
    ensures
        match r {
            Ok(outputs) => first_unresolved_address(raw_outputs_view(raw@)) is None
                && (forall|j: int| 0 <= j < outputs@.len() ==> (#[trigger] outputs@[j]).wf())
                && outputs_view(outputs@) == Seq::new(
                raw@.len(),
                |j: int| output_model(raw@[j]@, j),
            ),
            Err(j) => first_unresolved_address(raw_outputs_view(raw@)) == Some(
                j as int,
            ),
        },
{
    let ghost flags = Seq::new(raw@.len(), |i: int| raw_outputs_view(raw@)[i].address is None);
    let mut outputs: Vec<TransactionOutput> = Vec::new();
    let mut i: usize = 0;
    while i < raw.len()
        invariant
            i <= raw.len(),
            outputs@.len() == i,
            flags == Seq::new(
                raw@.len(),
                |i: int| raw_outputs_view(raw@)[i].address is None,
            ),
            forall|j: int| 0 <= j < i ==> !flags[j],
            forall|j: int| 0 <= j < i ==> (#[trigger] outputs@[j]).wf(),
            forall|j: int| 0 <= j < i ==> (#[trigger] outputs@[j])@ == output_model(raw@[j]@, j),
        decreases raw.len() - i,
    {
        match TransactionOutput::from_raw(&raw[i], i) {
            Some(output) => {
                outputs.push(output);
            },
            None => {
                proof {
                    lemma_first_true(flags, i as int);
                }
                return Err(i);
            },
        }
        i = i + 1;
    }
    proof {
        assert(outputs_view(outputs@) =~= Seq::new(raw@.len(), |j: int| output_model(raw@[j]@, j)));
    }
    Ok(outputs)
}

impl TransactionBody {
    /// The invariant of every value held.
    pub open spec fn wf(&self) -> bool {
        forall|j: int| 0 <= j < self.outputs@.len() ==> (#[trigger] self.outputs@[j]).wf()
    }

    /// The transaction that `raw` stands for at position `index` of its
    /// block, or the reason why it stands for none.
    pub fn from_raw(raw: &RawTx, index: usize) -> (r: Result<TransactionBody, DecodeError>)
        ensures
            body_result_view(r) == tx_outcome(raw@, index as int),
            r matches Ok(body) ==> body.wf(),
    {
        proof {
            reveal(tx_outcome);
        }
        let inputs = match inputs_from_raw(&raw.inputs) {
            Ok(inputs) => inputs,
            Err(i) => {
                return Err(DecodeError::UnsupportedInput { tx: index, input: i });
            },
        };
        let outputs = match outputs_from_raw(&raw.outputs) {
            Ok(outputs) => outputs,
            Err(j) => {
                return Err(DecodeError::UnresolvableAddress { tx: index, output: j });
            },
        };
        let body = TransactionBody { id: copy_bytes(&raw.id), inputs, outputs, index };
        proof {
            assert(body@.inputs =~= Seq::new(
                raw@.inputs.len(),
                |i: int| input_model(raw@.inputs[i]),
            ));
            assert(body@.outputs =~= Seq::new(
                raw@.outputs.len(),
                |j: int| output_model(raw@.outputs[j], j),
            ));
        }
        Ok(body)
    }
}

/// A block: where it stands on the chain and the transactions it holds, in
/// chain order.
#[derive(Clone, Debug)]
pub struct Block {
    pub slot: u64,
    pub hash: Vec<u8>,
    pub number: u64,
    pub transaction_bodies: Vec<TransactionBody>,
}

pub struct BlockView {
    pub slot: u64,
    pub hash: Seq<u8>,
    pub number: u64,
    pub transaction_bodies: Seq<TransactionBodyView>,
}

/// The views of a list of transactions.
pub open spec fn bodies_view(s: Seq<TransactionBody>) -> Seq<TransactionBodyView> {
    Seq::new(s.len(), |i: int| s[i]@)
}

impl View for Block {
    type V = BlockView;

    open spec fn view(&self) -> BlockView {
        BlockView {
            slot: self.slot,
            hash: self.hash@,
            number: self.number,
            transaction_bodies: bodies_view(self.transaction_bodies@),
        }
    }
}

/// The first transaction that cannot be carried over, if there is one.
pub open spec fn first_failing_tx(txs: Seq<RawTxView>) -> Option<int> {
    first_true(Seq::new(txs.len(), |t: int| tx_outcome(txs[t], t) is Err))
}

/// What becomes of a raw block: without a slot it fails; the first
/// transaction that fails, fails the block with its error; otherwise every
/// transaction is carried over in order.
pub open spec fn block_outcome(raw: RawBlockView) -> Result<BlockView, DecodeError> {
    match raw.slot {
        None => Err(DecodeError::SlotOutOfRange),
        Some(slot) => match first_failing_tx(raw.txs) {
            Some(t) => Err(tx_outcome(raw.txs[t], t)->Err_0),
            None => Ok(
                BlockView {
                    slot,
                    hash: raw.hash,
                    number: raw.number,
                    transaction_bodies: Seq::new(
                        raw.txs.len(),
                        |t: int| tx_outcome(raw.txs[t], t)->Ok_0,
                    ),
                },
            ),
        },
    }
}

/// A block that holds no transactions is carried over, with an empty
/// sequence of transactions, wherever it has a slot.
pub proof fn lemma_empty_block_is_carried_over(raw: RawBlockView)
    requires
        raw.slot is Some,
        raw.txs.len() == 0,
    ensures
        block_outcome(raw) == Ok::<BlockView, DecodeError>(
            BlockView {
                slot: raw.slot.unwrap(),
                hash: raw.hash,
                number: raw.number,
                transaction_bodies: Seq::empty(),
            },
        ),
{
    assert(Seq::new(raw.txs.len(), |t: int| tx_outcome(raw.txs[t], t)->Ok_0) =~= Seq::<
        TransactionBodyView,
    >::empty());
}

/// Where a block is carried over, every transaction, input and output of
/// it is, at its position: an input with the id and index it names, an
/// output with its address, its amount of the base unit, its output-side
/// holdings, and its datum exactly as it was read.
pub proof fn lemma_parts_are_carried_over(raw: RawBlockView, t: int)
    requires
        block_outcome(raw) is Ok,
        0 <= t < raw.txs.len(),
    ensures
        raw.slot == Some(block_outcome(raw)->Ok_0.slot),
        block_outcome(raw)->Ok_0.hash == raw.hash,
        block_outcome(raw)->Ok_0.number == raw.number,
        block_outcome(raw)->Ok_0.transaction_bodies.len() == raw.txs.len(),
        ({
            let body = block_outcome(raw)->Ok_0.transaction_bodies[t];
            &&& body.id == raw.txs[t].id
            &&& body.index == t as usize
            &&& body.inputs.len() == raw.txs[t].inputs.len()
            &&& body.outputs.len() == raw.txs[t].outputs.len()
            &&& forall|i: int|
                0 <= i < body.inputs.len() ==> raw.txs[t].inputs[i].reference == Some(
                    ((#[trigger] body.inputs[i]).id, body.inputs[i].index),
                )
            &&& forall|j: int|
                0 <= j < body.outputs.len() ==> {
                    &&& raw.txs[t].outputs[j].address == Some((#[trigger] body.outputs[j]).address)
                    &&& body.outputs[j].index == j as usize
                    &&& body.outputs[j].amount.coin == raw.txs[t].outputs[j].coin
                    &&& body.outputs[j].amount.multi_asset == policy_holdings(
                        raw.txs[t].outputs[j].assets,
                    )
                    &&& body.outputs[j].datum == raw.txs[t].outputs[j].datum
                }
        }),
{
    reveal(tx_outcome);
    let failing = Seq::new(raw.txs.len(), |t: int| tx_outcome(raw.txs[t], t) is Err);
    assert(!failing[t]);
    let unsupported = Seq::new(
        raw.txs[t].inputs.len(),
        |i: int| raw.txs[t].inputs[i].reference is None,
    );
    let unresolved = Seq::new(
        raw.txs[t].outputs.len(),
        |j: int| raw.txs[t].outputs[j].address is None,
    );
    let body = block_outcome(raw)->Ok_0.transaction_bodies[t];
    assert forall|i: int| 0 <= i < body.inputs.len() implies raw.txs[t].inputs[i].reference
        == Some(((#[trigger] body.inputs[i]).id, body.inputs[i].index)) by {
        assert(!unsupported[i]);
    }
    assert forall|j: int| 0 <= j < body.outputs.len() implies raw.txs[t].outputs[j].address
        == Some((#[trigger] body.outputs[j]).address) by {
        assert(!unresolved[j]);
    }
}

/// The view of a block or the error in its place.
pub open spec fn block_result_view(r: Result<Block, DecodeError>) -> Result<
    BlockView,
    DecodeError,
> {
    match r {
        Ok(block) => Ok(block@),
        Err(e) => Err(e),
    }
}

impl Block {
    /// The invariant of every value held.
    pub open spec fn wf(&self) -> bool {
        forall|t: int|
            0 <= t < self.transaction_bodies@.len() ==> (
            #[trigger] self.transaction_bodies@[t]).wf()
    }

    /// A block that stands for a position on the chain only: it holds no
    /// transactions.
    pub fn position_only(slot: u64, hash: Vec<u8>, number: u64) -> (r: Block)
        ensures
            r.wf(),
            r@ == (BlockView { slot, hash: hash@, number, transaction_bodies: Seq::empty() }),
    {
        let r = Block { slot, hash, number, transaction_bodies: Vec::new() };
        proof {
            assert(r@.transaction_bodies =~= Seq::empty());
        }
        r
    }

    /// The block that `raw` stands for, or the reason why it stands for none.
    pub fn from_raw(raw: &RawBlock) -> (r: Result<Block, DecodeError>)
        ensures
            block_result_view(r) == block_outcome(raw@),
            r matches Ok(block) ==> block.wf(),
    {
        let slot = match raw.slot {
            Some(slot) => slot,
            None => {
                return Err(DecodeError::SlotOutOfRange);
            },
        };
        let ghost flags = Seq::new(raw@.txs.len(), |t: int| tx_outcome(raw@.txs[t], t) is Err);
        let mut bodies: Vec<TransactionBody> = Vec::new();
        let mut t: usize = 0;
        while t < raw.txs.len()
            invariant
                t <= raw.txs.len(),
                raw.slot == Some(slot),
                bodies@.len() == t,
                flags == Seq::new(raw@.txs.len(), |t: int| tx_outcome(raw@.txs[t], t) is Err),
                forall|j: int| 0 <= j < t ==> !flags[j],
                forall|j: int| 0 <= j < t ==> (#[trigger] bodies@[j]).wf(),
                forall|j: int|
                    0 <= j < t ==> Ok::<TransactionBodyView, DecodeError>((#[trigger] bodies@[j])@)
                        == tx_outcome(raw@.txs[j], j),
            decreases raw.txs.len() - t,
        {
            match TransactionBody::from_raw(&raw.txs[t], t) {
                Ok(body) => {
                    bodies.push(body);
                },
                Err(e) => {
                    proof {
                        assert(raw@.txs[t as int] == raw.txs@[t as int]@);
                        lemma_first_true(flags, t as int);
                    }
                    return Err(e);
                },
            }
            t = t + 1;
        }
        let block = Block {
            slot,
            hash: copy_bytes(&raw.hash),
            number: raw.number,
            transaction_bodies: bodies,
        };
        proof {
            assert(block@.transaction_bodies =~= Seq::new(
                raw@.txs.len(),
                |t: int| tx_outcome(raw@.txs[t], t)->Ok_0,
            ));
        }
        Ok(block)
    }
}

} // verus!
