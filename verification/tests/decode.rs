use pallas::crypto::hash::Hasher;
use pallas_client::raw::{RawAsset, RawPolicyAssets};
use pallas_client::reading::read_block;
use pallas_client::{Block, Datum, DecodeError};

// A minimal CBOR writer: every item is returned as its bytes.

fn head(major: u8, value: u64) -> Vec<u8> {
    let m = major << 5;
    if value < 24 {
        vec![m | value as u8]
    } else if value < 0x100 {
        vec![m | 24, value as u8]
    } else if value < 0x1_0000 {
        let mut v = vec![m | 25];
        v.extend_from_slice(&(value as u16).to_be_bytes());
        v
    } else if value < 0x1_0000_0000 {
        let mut v = vec![m | 26];
        v.extend_from_slice(&(value as u32).to_be_bytes());
        v
    } else {
        let mut v = vec![m | 27];
        v.extend_from_slice(&value.to_be_bytes());
        v
    }
}

fn uint(value: u64) -> Vec<u8> {
    head(0, value)
}

fn bytes(content: &[u8]) -> Vec<u8> {
    let mut v = head(2, content.len() as u64);
    v.extend_from_slice(content);
    v
}

fn array(items: &[Vec<u8>]) -> Vec<u8> {
    let mut v = head(4, items.len() as u64);
    for item in items {
        v.extend_from_slice(item);
    }
    v
}

fn map(pairs: &[(Vec<u8>, Vec<u8>)]) -> Vec<u8> {
    let mut v = head(5, pairs.len() as u64);
    for (key, value) in pairs {
        v.extend_from_slice(key);
        v.extend_from_slice(value);
    }
    v
}

fn tagged(tag: u64, item: Vec<u8>) -> Vec<u8> {
    let mut v = head(6, tag);
    v.extend_from_slice(&item);
    v
}

fn blake2b_256(data: &[u8]) -> Vec<u8> {
    Hasher::<256>::hash(data).to_vec()
}

// Pieces of a block from the Babbage era on.

fn header(number: u64, slot: u64) -> Vec<u8> {
    array(&[
        array(&[
            uint(number),
            uint(slot),
            bytes(&[1u8; 32]),
            bytes(&[2u8; 32]),
            bytes(&[3u8; 32]),
            array(&[bytes(&[4u8; 64]), bytes(&[5u8; 80])]),
            uint(0),
            bytes(&[6u8; 32]),
            array(&[bytes(&[7u8; 32]), uint(0), uint(0), bytes(&[8u8; 64])]),
            array(&[uint(8), uint(0)]),
        ]),
        bytes(&[9u8; 448]),
    ])
}

fn block(era: u64, header: &[u8], bodies: &[Vec<u8>]) -> Vec<u8> {
    let witnesses: Vec<Vec<u8>> = bodies.iter().map(|_| map(&[])).collect();
    array(&[
        uint(era),
        array(&[header.to_vec(), array(bodies), array(&witnesses), map(&[]), array(&[])]),
    ])
}

fn input(tx_id: &[u8; 32], index: u64) -> Vec<u8> {
    array(&[bytes(tx_id), uint(index)])
}

fn body(inputs: &[Vec<u8>], outputs: &[Vec<u8>]) -> Vec<u8> {
    map(&[(uint(0), array(inputs)), (uint(1), array(outputs)), (uint(2), uint(170_000))])
}

fn enterprise_address(fill: u8) -> Vec<u8> {
    let mut v = vec![0x61u8];
    v.extend_from_slice(&[fill; 28]);
    v
}

fn coin_output(address: &[u8], coin: u64) -> Vec<u8> {
    map(&[(uint(0), bytes(address)), (uint(1), uint(coin))])
}

const BABBAGE: u64 = 6;
const CONWAY: u64 = 7;

#[test]
fn bytes_that_are_no_block_are_malformed() {
    assert_eq!(Block::decode(&[]).err(), Some(DecodeError::Malformed));
    assert_eq!(Block::decode(&[0x00]).err(), Some(DecodeError::Malformed));
    assert_eq!(Block::decode(&[0x82, 0x06, 0x80]).err(), Some(DecodeError::Malformed));
    assert_eq!(Block::decode(&[0x82, 0x18, 0x63, 0x80]).err(), Some(DecodeError::Malformed));
}

#[test]
fn a_block_without_transactions_decodes_to_an_empty_sequence() {
    let h = header(1234, 56789);
    for era in [BABBAGE, CONWAY] {
        let decoded = Block::decode(&block(era, &h, &[])).expect("a block");
        assert_eq!(decoded.slot, 56789);
        assert_eq!(decoded.number, 1234);
        assert_eq!(decoded.hash, blake2b_256(&h));
        assert_eq!(decoded.hash.len(), 32);
        assert!(decoded.transaction_bodies.is_empty());
    }
}

#[test]
fn transactions_inputs_and_outputs_keep_chain_order() {
    let h = header(7, 700);
    let first = body(
        &[input(&[0xaa; 32], 3), input(&[0xbb; 32], 0)],
        &[coin_output(&enterprise_address(0x11), 1_000_000), coin_output(&enterprise_address(0x22), 2)],
    );
    let second = body(&[input(&[0xcc; 32], 9)], &[coin_output(&enterprise_address(0x33), 5)]);
    let decoded =
        Block::decode(&block(BABBAGE, &h, &[first.clone(), second.clone()])).expect("a block");
    assert_eq!(decoded.slot, 700);
    assert_eq!(decoded.number, 7);
    assert_eq!(decoded.transaction_bodies.len(), 2);

    let t0 = &decoded.transaction_bodies[0];
    assert_eq!(t0.index, 0);
    assert_eq!(t0.id, blake2b_256(&first));
    assert_eq!(t0.inputs.len(), 2);
    assert_eq!(t0.inputs[0].id, vec![0xaa; 32]);
    assert_eq!(t0.inputs[0].index, 3);
    assert_eq!(t0.inputs[1].id, vec![0xbb; 32]);
    assert_eq!(t0.inputs[1].index, 0);
    assert_eq!(t0.outputs.len(), 2);
    assert_eq!(t0.outputs[0].index, 0);
    assert_eq!(t0.outputs[0].address, enterprise_address(0x11));
    assert_eq!(t0.outputs[0].amount.coin(), 1_000_000);
    assert_eq!(t0.outputs[0].amount.policy_count(), 0);
    assert!(t0.outputs[0].datum.is_none());
    assert_eq!(t0.outputs[1].index, 1);
    assert_eq!(t0.outputs[1].address, enterprise_address(0x22));
    assert_eq!(t0.outputs[1].amount.coin(), 2);

    let t1 = &decoded.transaction_bodies[1];
    assert_eq!(t1.index, 1);
    assert_eq!(t1.id, blake2b_256(&second));
    assert_eq!(t1.inputs.len(), 1);
    assert_eq!(t1.inputs[0].id, vec![0xcc; 32]);
    assert_eq!(t1.inputs[0].index, 9);
    assert_eq!(t1.outputs.len(), 1);
    assert_eq!(t1.outputs[0].index, 0);
    assert_eq!(t1.outputs[0].amount.coin(), 5);
}

#[test]
fn a_datum_hash_comes_out_byte_for_byte() {
    let mut digest = [0u8; 32];
    for (i, b) in digest.iter_mut().enumerate() {
        *b = (i as u8).wrapping_mul(7).wrapping_add(1);
    }
    let modern = map(&[
        (uint(0), bytes(&enterprise_address(0x11))),
        (uint(1), uint(10)),
        (uint(2), array(&[uint(0), bytes(&digest)])),
    ]);
    let legacy = array(&[bytes(&enterprise_address(0x22)), uint(20), bytes(&digest)]);
    let tx = body(&[input(&[0xaa; 32], 0)], &[modern, legacy]);
    for era in [BABBAGE, CONWAY] {
        let decoded = Block::decode(&block(era, &header(1, 1), &[tx.clone()])).expect("a block");
        let outputs = &decoded.transaction_bodies[0].outputs;
        assert_eq!(outputs.len(), 2);
        for output in outputs {
            let datum = output.datum.as_ref().expect("a datum");
            assert_eq!(datum, &Datum::Hash(digest.to_vec()));
            assert_eq!(datum.datum_type(), 1);
            assert_eq!(datum.data(), &digest.to_vec());
        }
    }
}

#[test]
fn inline_data_comes_out_as_it_was_encoded() {
    // The integer 42 in two bytes more than the shortest form needs: an
    // encoder would write 0x18 0x2a.
    let data: Vec<u8> = vec![0x19, 0x00, 0x2a];
    let output = map(&[
        (uint(0), bytes(&enterprise_address(0x11))),
        (uint(1), uint(10)),
        (uint(2), array(&[uint(1), tagged(24, bytes(&data))])),
    ]);
    let tx = body(&[input(&[0xaa; 32], 0)], &[output]);
    for era in [BABBAGE, CONWAY] {
        let decoded = Block::decode(&block(era, &header(1, 1), &[tx.clone()])).expect("a block");
        let datum = decoded.transaction_bodies[0].outputs[0].datum.as_ref().expect("a datum");
        assert_eq!(datum, &Datum::Data(data.clone()));
        assert_eq!(datum.datum_type(), 2);
        assert_eq!(datum.data(), &data);
    }
}

#[test]
fn an_output_with_assets_holds_each_pair_with_its_quantity() {
    let policy_a = [0xa1u8; 28];
    let policy_b = [0xb2u8; 28];
    let assets = map(&[
        (
            bytes(&policy_a),
            map(&[(bytes(b"gold"), uint(5)), (bytes(b"silver"), uint(70_000))]),
        ),
        (bytes(&policy_b), map(&[(bytes(b""), uint(1))])),
    ]);
    let output = map(&[
        (uint(0), bytes(&enterprise_address(0x11))),
        (uint(1), array(&[uint(1_500_000), assets])),
    ]);
    let tx = body(&[input(&[0xaa; 32], 0)], &[output]);
    for era in [BABBAGE, CONWAY] {
        let decoded = Block::decode(&block(era, &header(1, 1), &[tx.clone()])).expect("a block");
        let amount = &decoded.transaction_bodies[0].outputs[0].amount;
        assert_eq!(amount.coin(), 1_500_000);
        assert_eq!(amount.policy_count(), 2);
        assert_eq!(amount.asset_count(&policy_a), 2);
        assert_eq!(amount.asset_count(&policy_b), 1);
        assert_eq!(amount.quantity_of(&policy_a, b"gold"), Some(5));
        assert_eq!(amount.quantity_of(&policy_a, b"silver"), Some(70_000));
        assert_eq!(amount.quantity_of(&policy_b, b""), Some(1));
        assert_eq!(amount.quantity_of(&policy_b, b"gold"), None);
        assert_eq!(amount.quantity_of(&[0u8; 28], b"gold"), None);
    }
}

#[test]
fn minted_assets_of_the_transaction_are_not_held_by_its_outputs() {
    let policy = [0xa1u8; 28];
    let minted = map(&[(bytes(&policy), map(&[(bytes(b"gold"), uint(5))]))]);
    let tx = map(&[
        (uint(0), array(&[input(&[0xaa; 32], 0)])),
        (uint(1), array(&[coin_output(&enterprise_address(0x11), 9)])),
        (uint(2), uint(170_000)),
        (uint(9), minted),
    ]);
    let decoded = Block::decode(&block(BABBAGE, &header(1, 1), &[tx])).expect("a block");
    let amount = &decoded.transaction_bodies[0].outputs[0].amount;
    assert_eq!(amount.coin(), 9);
    assert_eq!(amount.policy_count(), 0);
    assert_eq!(amount.quantity_of(&policy, b"gold"), None);
}

#[test]
fn an_output_without_a_resolvable_address_fails_the_block() {
    let good = body(&[input(&[0xaa; 32], 0)], &[coin_output(&enterprise_address(0x11), 1)]);
    let bad = body(
        &[input(&[0xbb; 32], 0)],
        &[
            coin_output(&enterprise_address(0x22), 1),
            coin_output(&[0x90, 0x01, 0x02], 1),
            coin_output(&[], 1),
        ],
    );
    let decoded = Block::decode(&block(BABBAGE, &header(1, 1), &[good, bad]));
    assert_eq!(decoded.err(), Some(DecodeError::UnresolvableAddress { tx: 1, output: 1 }));
}

#[test]
fn reading_reports_what_the_accessors_report() {
    let policy = [0xa1u8; 28];
    let assets = map(&[(bytes(&policy), map(&[(bytes(b"gold"), uint(5))]))]);
    let output = map(&[
        (uint(0), bytes(&enterprise_address(0x11))),
        (uint(1), array(&[uint(3), assets])),
    ]);
    let unresolved = coin_output(&[0x90], 4);
    let tx = body(&[input(&[0xaa; 32], 2)], &[output, unresolved]);
    let h = header(11, 22);
    let cbor = block(BABBAGE, &h, &[tx.clone()]);
    let decoded = pallas::ledger::traverse::MultiEraBlock::decode(&cbor).expect("a block");
    let raw = read_block(&decoded);
    assert_eq!(raw.slot, Some(22));
    assert_eq!(raw.number, 11);
    assert_eq!(raw.hash, blake2b_256(&h));
    assert_eq!(raw.txs.len(), 1);
    assert_eq!(raw.txs[0].id, blake2b_256(&tx));
    assert_eq!(raw.txs[0].inputs.len(), 1);
    assert_eq!(raw.txs[0].inputs[0].reference, Some((vec![0xaa; 32], 2)));
    assert_eq!(raw.txs[0].outputs.len(), 2);
    assert_eq!(raw.txs[0].outputs[0].address, Some(enterprise_address(0x11)));
    assert_eq!(raw.txs[0].outputs[0].coin, 3);
    assert_eq!(
        raw.txs[0].outputs[0].assets,
        vec![RawPolicyAssets {
            policy: policy.to_vec(),
            is_output: true,
            assets: vec![RawAsset { name: b"gold".to_vec(), output_coin: Some(5) }],
        }]
    );
    assert_eq!(raw.txs[0].outputs[0].datum, None);
    assert_eq!(raw.txs[0].outputs[1].address, None);
    assert_eq!(raw.txs[0].outputs[1].coin, 4);
    assert!(raw.txs[0].outputs[1].assets.is_empty());
}

// An epoch boundary block of the Byron era.

fn boundary_block(epoch: u64, difficulty: u64) -> Vec<u8> {
    let head = array(&[
        uint(764824073),
        bytes(&[1u8; 32]),
        bytes(&[2u8; 32]),
        array(&[uint(epoch), array(&[uint(difficulty)])]),
        array(&[map(&[])]),
    ]);
    array(&[uint(0), array(&[head, array(&[]), array(&[])])])
}

#[test]
fn an_epoch_boundary_block_has_the_first_slot_of_its_epoch() {
    let decoded = Block::decode(&boundary_block(5, 99)).expect("a block");
    assert_eq!(decoded.slot, 5 * 21600);
    assert_eq!(decoded.number, 99);
    assert_eq!(decoded.hash.len(), 32);
    assert!(decoded.transaction_bodies.is_empty());

    let later = Block::decode(&boundary_block(210, 1)).expect("a block");
    assert_eq!(later.slot, 208 * 21600 + 2 * 432000);
}

#[test]
fn a_byron_epoch_beyond_the_limit_has_no_slot() {
    let at_limit = Block::decode(&boundary_block(0xffff_ffff, 1)).expect("a block");
    assert_eq!(at_limit.slot, 208 * 21600 + (0xffff_ffffu64 - 208) * 432000);
    assert_eq!(
        Block::decode(&boundary_block(0x1_0000_0000, 1)).err(),
        Some(DecodeError::SlotOutOfRange)
    );
    assert_eq!(
        Block::decode(&boundary_block(u64::MAX, 1)).err(),
        Some(DecodeError::SlotOutOfRange)
    );
}

// A main block of the Byron era.

fn text(content: &str) -> Vec<u8> {
    let mut v = head(3, content.len() as u64);
    v.extend_from_slice(content.as_bytes());
    v
}

fn byron_header(epoch: u64, slot: u64, difficulty: u64) -> Vec<u8> {
    let body_proof = array(&[
        array(&[uint(1), bytes(&[3u8; 32]), bytes(&[4u8; 32])]),
        array(&[uint(3), bytes(&[5u8; 32])]),
        bytes(&[6u8; 32]),
        bytes(&[7u8; 32]),
    ]);
    let consensus = array(&[
        array(&[uint(epoch), uint(slot)]),
        bytes(&[8u8; 64]),
        array(&[uint(difficulty)]),
        array(&[uint(0), bytes(&[9u8; 64])]),
    ]);
    let extra = array(&[
        array(&[uint(1), uint(0), uint(0)]),
        array(&[text("cardano-sl"), uint(1)]),
        map(&[]),
        bytes(&[10u8; 32]),
    ]);
    array(&[uint(764824073), bytes(&[2u8; 32]), body_proof, consensus, extra])
}

fn byron_address(payload: &[u8], crc: u64) -> Vec<u8> {
    array(&[tagged(24, bytes(payload)), uint(crc)])
}

fn byron_input(tx_id: &[u8; 32], index: u64) -> Vec<u8> {
    array(&[uint(0), tagged(24, bytes(&array(&[bytes(tx_id), uint(index)])))])
}

fn byron_tx(inputs: &[Vec<u8>], outputs: &[Vec<u8>]) -> Vec<u8> {
    array(&[array(inputs), array(outputs), map(&[])])
}

fn byron_block(header: &[u8], txs: &[Vec<u8>]) -> Vec<u8> {
    let payload: Vec<Vec<u8>> = txs.iter().map(|tx| array(&[tx.clone(), array(&[])])).collect();
    let body = array(&[
        array(&payload),
        array(&[uint(3), tagged(258, array(&[]))]),
        array(&[]),
        array(&[array(&[]), array(&[])]),
    ]);
    array(&[uint(1), array(&[header.to_vec(), body, array(&[map(&[])])])])
}

fn prefixed_hash(kind: u8, header: &[u8]) -> Vec<u8> {
    let mut v = vec![0x82, kind];
    v.extend_from_slice(header);
    blake2b_256(&v)
}

#[test]
fn a_byron_block_decodes_with_its_absolute_slot() {
    let h = byron_header(3, 17, 88);
    let address = byron_address(&[0x83, 0x01, 0xa0, 0x00], 12345);
    let tx = byron_tx(
        &[byron_input(&[0xaa; 32], 1), byron_input(&[0xbb; 32], 70_000)],
        &[array(&[address.clone(), uint(1_000)])],
    );
    let decoded = Block::decode(&byron_block(&h, &[tx.clone()])).expect("a block");
    assert_eq!(decoded.slot, 3 * 21600 + 17);
    assert_eq!(decoded.number, 88);
    assert_eq!(decoded.hash, prefixed_hash(1, &h));
    assert_eq!(decoded.transaction_bodies.len(), 1);
    let body = &decoded.transaction_bodies[0];
    assert_eq!(body.index, 0);
    assert_eq!(body.id, blake2b_256(&tx));
    assert_eq!(body.inputs.len(), 2);
    assert_eq!(body.inputs[0].id, vec![0xaa; 32]);
    assert_eq!(body.inputs[0].index, 1);
    assert_eq!(body.inputs[1].id, vec![0xbb; 32]);
    assert_eq!(body.inputs[1].index, 70_000);
    assert_eq!(body.outputs.len(), 1);
    assert_eq!(body.outputs[0].address, address);
    assert_eq!(body.outputs[0].amount.coin(), 1_000);
    assert_eq!(body.outputs[0].amount.policy_count(), 0);
    assert!(body.outputs[0].datum.is_none());
}

#[test]
fn a_byron_block_without_transactions_is_empty() {
    let h = byron_header(0, 0, 1);
    let decoded = Block::decode(&byron_block(&h, &[])).expect("a block");
    assert_eq!(decoded.slot, 0);
    assert_eq!(decoded.number, 1);
    assert!(decoded.transaction_bodies.is_empty());
}

#[test]
fn a_byron_position_beyond_the_limit_has_no_slot() {
    let limit = 0xffff_ffffu64;
    let at_limit = Block::decode(&byron_block(&byron_header(limit, limit, 1), &[]))
        .expect("a block");
    assert_eq!(at_limit.slot, 208 * 21600 + (limit - 208) * 432000 + limit);
    for (epoch, slot) in [(limit + 1, 0), (0, limit + 1), (u64::MAX, u64::MAX), (1, u64::MAX)] {
        assert_eq!(
            Block::decode(&byron_block(&byron_header(epoch, slot, 1), &[])).err(),
            Some(DecodeError::SlotOutOfRange)
        );
    }
}

#[test]
fn a_byron_input_of_another_kind_fails_the_block() {
    let address = byron_address(&[0x83, 0x01, 0xa0, 0x00], 12345);
    let output = array(&[address, uint(1_000)]);
    let good = byron_tx(&[byron_input(&[0xaa; 32], 1)], &[output.clone()]);
    let odd = byron_tx(
        &[byron_input(&[0xbb; 32], 2), array(&[uint(5), bytes(&[0x00])])],
        &[output],
    );
    let cbor = byron_block(&byron_header(1, 1, 1), &[good, odd]);
    assert!(pallas::ledger::traverse::MultiEraBlock::decode(&cbor).is_ok());
    assert_eq!(
        Block::decode(&cbor).err(),
        Some(DecodeError::UnsupportedInput { tx: 1, input: 1 })
    );
}

#[test]
fn an_epoch_boundary_block_has_the_hash_of_its_header() {
    let cbor = boundary_block(5, 99);
    let head = &cbor[3..cbor.len() - 2];
    let decoded = Block::decode(&cbor).expect("a block");
    assert_eq!(decoded.hash, prefixed_hash(0, head));
}
