use pallas_client::chainsync::{Inbound, Outbound};
use pallas_client::{
    Block, ChainPoint, ChainSyncReply, ChainSyncState, DecodeError, NextResponse, ResponseError,
    Tip,
};

const STATES: [ChainSyncState; 5] = [
    ChainSyncState::Idle,
    ChainSyncState::CanAwait,
    ChainSyncState::MustReply,
    ChainSyncState::Intersect,
    ChainSyncState::Done,
];

const OUTBOUND: [Outbound; 3] = [Outbound::RequestNext, Outbound::FindIntersect, Outbound::Done];

const INBOUND: [Inbound; 5] = [
    Inbound::RollForward,
    Inbound::RollBackward,
    Inbound::AwaitReply,
    Inbound::IntersectFound,
    Inbound::IntersectNotFound,
];

// An epoch boundary block of the Byron era, byte by byte.
fn boundary_block(epoch: u8, difficulty: u8) -> Vec<u8> {
    let mut v = vec![0x82, 0x00, 0x83, 0x85];
    v.extend_from_slice(&[0x1a, 0x2d, 0x96, 0x4a, 0x09]);
    v.extend_from_slice(&[0x58, 0x20]);
    v.extend_from_slice(&[1u8; 32]);
    v.extend_from_slice(&[0x58, 0x20]);
    v.extend_from_slice(&[2u8; 32]);
    assert!(epoch < 24 && difficulty < 24);
    v.extend_from_slice(&[0x82, epoch, 0x81, difficulty]);
    v.extend_from_slice(&[0x81, 0xa0]);
    v.extend_from_slice(&[0x80, 0x80]);
    v
}

fn tip(slot: u64, number: u64) -> Tip {
    Tip { point: ChainPoint::Specific(slot, vec![0xab; 32]), number }
}

#[test]
fn only_the_idle_client_has_agency() {
    assert!(ChainSyncState::Idle.has_agency());
    assert!(!ChainSyncState::CanAwait.has_agency());
    assert!(!ChainSyncState::MustReply.has_agency());
    assert!(!ChainSyncState::Intersect.has_agency());
    assert!(!ChainSyncState::Done.has_agency());
}

#[test]
fn the_client_sends_only_when_idle() {
    assert_eq!(ChainSyncState::Idle.send(Outbound::RequestNext), Some(ChainSyncState::CanAwait));
    assert_eq!(ChainSyncState::Idle.send(Outbound::FindIntersect), Some(ChainSyncState::Intersect));
    assert_eq!(ChainSyncState::Idle.send(Outbound::Done), Some(ChainSyncState::Done));
    for state in STATES {
        for message in OUTBOUND {
            if state != ChainSyncState::Idle {
                assert_eq!(state.send(message), None);
            }
        }
    }
}

#[test]
fn sending_gives_the_agency_away() {
    for first in OUTBOUND {
        let after = ChainSyncState::Idle.send(first).expect("a state");
        assert!(!after.has_agency());
        for second in OUTBOUND {
            assert_eq!(after.send(second), None);
        }
    }
}

#[test]
fn the_server_is_heard_only_in_its_turn() {
    let expected = |state: ChainSyncState, message: Inbound| match (state, message) {
        (ChainSyncState::CanAwait, Inbound::RollForward) => Some(ChainSyncState::Idle),
        (ChainSyncState::CanAwait, Inbound::RollBackward) => Some(ChainSyncState::Idle),
        (ChainSyncState::CanAwait, Inbound::AwaitReply) => Some(ChainSyncState::MustReply),
        (ChainSyncState::MustReply, Inbound::RollForward) => Some(ChainSyncState::Idle),
        (ChainSyncState::MustReply, Inbound::RollBackward) => Some(ChainSyncState::Idle),
        (ChainSyncState::Intersect, Inbound::IntersectFound) => Some(ChainSyncState::Idle),
        (ChainSyncState::Intersect, Inbound::IntersectNotFound) => Some(ChainSyncState::Idle),
        _ => None,
    };
    for state in STATES {
        for message in INBOUND {
            assert_eq!(state.receive(message), expected(state, message));
            if state.has_agency() {
                assert_eq!(state.receive(message), None);
            }
        }
    }
}

#[test]
fn a_reply_knows_its_message() {
    assert_eq!(ChainSyncReply::RollForward(vec![], tip(1, 1)).kind(), Inbound::RollForward);
    assert_eq!(
        ChainSyncReply::RollBackward(ChainPoint::Origin, tip(1, 1)).kind(),
        Inbound::RollBackward
    );
    assert_eq!(ChainSyncReply::Await.kind(), Inbound::AwaitReply);
}

#[test]
fn a_position_becomes_a_block_without_transactions() {
    let origin = Block::of_position(&ChainPoint::Origin, 77);
    assert_eq!((origin.slot, origin.number), (0, 0));
    assert!(origin.hash.is_empty());
    assert!(origin.transaction_bodies.is_empty());

    let specific = Block::of_position(&ChainPoint::Specific(5, vec![1, 2]), 77);
    assert_eq!((specific.slot, specific.number), (5, 77));
    assert_eq!(specific.hash, vec![1, 2]);
    assert!(specific.transaction_bodies.is_empty());

    let of_tip = Block::of_tip(&tip(9, 3));
    assert_eq!((of_tip.slot, of_tip.number), (9, 3));
    assert_eq!(of_tip.hash, vec![0xab; 32]);

    let of_origin_tip = Block::of_tip(&Tip { point: ChainPoint::Origin, number: 12 });
    assert_eq!((of_origin_tip.slot, of_origin_tip.number), (0, 0));
    assert!(of_origin_tip.hash.is_empty());
}

#[test]
fn a_roll_forward_carries_the_decoded_block_and_the_tip() {
    let reply = ChainSyncReply::RollForward(boundary_block(3, 8), tip(900, 40));
    let response = NextResponse::from_reply(&reply);
    assert_eq!(response.action(), 1);
    let block = response.block().expect("a block");
    assert_eq!(block.slot, 3 * 21600);
    assert_eq!(block.number, 8);
    assert_eq!(block.hash.len(), 32);
    assert!(block.transaction_bodies.is_empty());
    let t = response.tip().expect("a tip");
    assert_eq!((t.slot, t.number), (900, 40));
    assert_eq!(t.hash, vec![0xab; 32]);
    assert!(t.transaction_bodies.is_empty());
}

#[test]
fn a_roll_forward_with_bad_bytes_is_a_decode_error() {
    let reply = ChainSyncReply::RollForward(vec![0xde, 0xad], tip(900, 40));
    let response = NextResponse::from_reply(&reply);
    assert_eq!(response.action(), 0);
    assert!(response.block().is_none());
    assert!(response.tip().is_none());
    assert!(matches!(
        response,
        NextResponse::Error(ResponseError::Decode(DecodeError::Malformed))
    ));
}

#[test]
fn a_roll_forward_takes_what_decoding_gave() {
    let decoded = Block::position_only(1, vec![2], 3);
    let ok = NextResponse::roll_forward(Ok(decoded), &tip(9, 9));
    assert_eq!(ok.action(), 1);
    assert_eq!(ok.block().expect("a block").slot, 1);
    let failed = NextResponse::roll_forward(
        Err(DecodeError::UnresolvableAddress { tx: 1, output: 2 }),
        &tip(9, 9),
    );
    assert!(matches!(
        failed,
        NextResponse::Error(ResponseError::Decode(DecodeError::UnresolvableAddress {
            tx: 1,
            output: 2
        }))
    ));
}

#[test]
fn a_roll_backward_carries_the_target_with_number_zero() {
    let reply = ChainSyncReply::RollBackward(ChainPoint::Specific(50, vec![7; 32]), tip(900, 40));
    let response = NextResponse::from_reply(&reply);
    assert_eq!(response.action(), 2);
    let block = response.block().expect("a block");
    assert_eq!((block.slot, block.number), (50, 0));
    assert_eq!(block.hash, vec![7; 32]);
    assert!(block.transaction_bodies.is_empty());
    let t = response.tip().expect("a tip");
    assert_eq!((t.slot, t.number), (900, 40));

    let to_origin = NextResponse::roll_backward(&ChainPoint::Origin, &tip(900, 40));
    let block = to_origin.block().expect("a block");
    assert_eq!((block.slot, block.number), (0, 0));
    assert!(block.hash.is_empty());
}

#[test]
fn an_await_carries_nothing() {
    let response = NextResponse::from_reply(&ChainSyncReply::Await);
    assert_eq!(response.action(), 3);
    assert!(response.block().is_none());
    assert!(response.tip().is_none());
}

#[test]
fn a_tip_can_be_duplicated() {
    let t = tip(4, 5);
    assert_eq!(t.duplicate(), t);
    let o = Tip { point: ChainPoint::Origin, number: 0 };
    assert_eq!(o.duplicate(), o);
}
