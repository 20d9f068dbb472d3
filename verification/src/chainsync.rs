//! The chain-sync exchange: who may send, what a reply means for the state
//! of the exchange, and what a reply becomes for the caller.

use crate::model::{block_result_view, Block, BlockView, DecodeError};
use crate::point::{ChainPoint, ChainPointView};
use crate::raw::copy_bytes;
use crate::reading::decode_outcome;
use vstd::prelude::*;

verus! {

/// The states of the exchange. The client may send in `Idle` only; in every
/// other state but `Done` it is the server's turn.
#[derive(Clone, Copy, Debug, PartialEq, Eq)]
pub enum ChainSyncState {
    /// Nothing is pending: the client may ask for the next event or for an
    /// intersection.
    Idle,
    /// The next event was asked for; the server answers with it or says
    /// that the client has to wait.
    CanAwait,
    /// The server said to wait; its next message is the event.
    MustReply,
    /// An intersection was asked for.
    Intersect,
    /// The exchange is over.
    Done,
}

/// The messages of the client.
#[derive(Clone, Copy, Debug, PartialEq, Eq)]
pub enum Outbound {
    RequestNext,
    FindIntersect,
    Done,
}

/// The messages of the server.
#[derive(Clone, Copy, Debug, PartialEq, Eq)]
pub enum Inbound {
    RollForward,
    RollBackward,
    AwaitReply,
    IntersectFound,
    IntersectNotFound,
}

/// Whether it is the client's turn in `state`.
pub open spec fn client_has_agency(state: ChainSyncState) -> bool {
    state is Idle
}

/// The state after the client sent `message` in `state`; none where the
/// client may not send it there.
pub open spec fn after_send(state: ChainSyncState, message: Outbound) -> Option<ChainSyncState> {
    match (state, message) {
        (ChainSyncState::Idle, Outbound::RequestNext) => Some(ChainSyncState::CanAwait),
        (ChainSyncState::Idle, Outbound::FindIntersect) => Some(ChainSyncState::Intersect),
        (ChainSyncState::Idle, Outbound::Done) => Some(ChainSyncState::Done),
        _ => None,
    }
}

/// The state after the server's `message` arrived in `state`; none where
/// the server may not send it there.
pub open spec fn after_receive(state: ChainSyncState, message: Inbound) -> Option<ChainSyncState> {
    match (state, message) {
        (ChainSyncState::CanAwait, Inbound::RollForward) => Some(ChainSyncState::Idle),
        (ChainSyncState::CanAwait, Inbound::RollBackward) => Some(ChainSyncState::Idle),
        (ChainSyncState::CanAwait, Inbound::AwaitReply) => Some(ChainSyncState::MustReply),
        (ChainSyncState::MustReply, Inbound::RollForward) => Some(ChainSyncState::Idle),
        (ChainSyncState::MustReply, Inbound::RollBackward) => Some(ChainSyncState::Idle),
        (ChainSyncState::Intersect, Inbound::IntersectFound) => Some(ChainSyncState::Idle),
        (ChainSyncState::Intersect, Inbound::IntersectNotFound) => Some(ChainSyncState::Idle),
        _ => None,
    }
}

impl ChainSyncState {
    /// Whether it is the client's turn.
    pub fn has_agency(&self) -> (r: bool)
        ensures
            r == client_has_agency(*self),
    {
        match self {
            ChainSyncState::Idle => true,
            _ => false,
        }
    }

    /// The state after the client sent `message`; none where it may not.
    pub fn send(&self, message: Outbound) -> (r: Option<ChainSyncState>)
        ensures
            r == after_send(*self, message),
    {
        match (self, message) {
            (ChainSyncState::Idle, Outbound::RequestNext) => Some(ChainSyncState::CanAwait),
            (ChainSyncState::Idle, Outbound::FindIntersect) => Some(ChainSyncState::Intersect),
            (ChainSyncState::Idle, Outbound::Done) => Some(ChainSyncState::Done),
            _ => None,
        }
    }

    /// The state after the server's `message` arrived; none where the
    /// server may not send it.
    pub fn receive(&self, message: Inbound) -> (r: Option<ChainSyncState>)
        ensures
            r == after_receive(*self, message),
    {
        match (self, message) {
            (ChainSyncState::CanAwait, Inbound::RollForward) => Some(ChainSyncState::Idle),
            (ChainSyncState::CanAwait, Inbound::RollBackward) => Some(ChainSyncState::Idle),
            (ChainSyncState::CanAwait, Inbound::AwaitReply) => Some(ChainSyncState::MustReply),
            (ChainSyncState::MustReply, Inbound::RollForward) => Some(ChainSyncState::Idle),
            (ChainSyncState::MustReply, Inbound::RollBackward) => Some(ChainSyncState::Idle),
            (ChainSyncState::Intersect, Inbound::IntersectFound) => Some(ChainSyncState::Idle),
            (ChainSyncState::Intersect, Inbound::IntersectNotFound) => Some(ChainSyncState::Idle),
            _ => None,
        }
    }
}

/// The client sends only while it has agency, and sending gives the agency
/// away: no second message can follow the first without a reply between.
pub proof fn lemma_send_passes_agency(state: ChainSyncState, first: Outbound, second: Outbound)
    requires
        after_send(state, first) is Some,
    ensures
        client_has_agency(state),
        !client_has_agency(after_send(state, first).unwrap()),
        after_send(after_send(state, first).unwrap(), second) is None,
{
}

/// The server is heard only while the client has no agency, and nothing is
/// heard in a state in which the client may send.
pub proof fn lemma_receive_needs_their_agency(state: ChainSyncState, message: Inbound)
    requires
        after_receive(state, message) is Some,
    ensures
        !client_has_agency(state),
        forall|m: Outbound| after_send(state, m) is None,
{
    assert forall|m: Outbound| after_send(state, m) is None by {}
}

/// The remote's tip: the point it stands at and the number of the block
/// there.
#[derive(Clone, Debug, PartialEq, Eq)]
pub struct Tip {
    pub point: ChainPoint,
    pub number: u64,
}

pub struct TipView {
    pub point: ChainPointView,
    pub number: u64,
}

impl View for Tip {
    type V = TipView;

    open spec fn view(&self) -> TipView {
        TipView { point: self.point@, number: self.number }
    }
}

impl Tip {
    /// A copy of the tip.
    pub fn duplicate(&self) -> (r: Tip)
        ensures
            r@ == self@,
    {
        let point = match &self.point {
            ChainPoint::Origin => ChainPoint::Origin,
            ChainPoint::Specific(slot, hash) => ChainPoint::Specific(*slot, copy_bytes(hash)),
        };
        Tip { point, number: self.number }
    }
}

/// What the server answered when asked for the next event.
#[derive(Clone, Debug, PartialEq, Eq)]
pub enum ChainSyncReply {
    /// The chain goes on with the block in these bytes.
    RollForward(Vec<u8>, Tip),
    /// The chain goes back to the point.
    RollBackward(ChainPoint, Tip),
    /// There is nothing new yet.
    Await,
}

pub enum ChainSyncReplyView {
    RollForward(Seq<u8>, TipView),
    RollBackward(ChainPointView, TipView),
    Await,
}

impl View for ChainSyncReply {
    type V = ChainSyncReplyView;

    open spec fn view(&self) -> ChainSyncReplyView {
        match *self {
            ChainSyncReply::RollForward(bytes, tip) => ChainSyncReplyView::RollForward(
                bytes@,
                tip@,
            ),
            ChainSyncReply::RollBackward(point, tip) => ChainSyncReplyView::RollBackward(
                point@,
                tip@,
            ),
            ChainSyncReply::Await => ChainSyncReplyView::Await,
        }
    }
}

/// The message that a reply is on the wire.
pub open spec fn reply_kind(reply: ChainSyncReplyView) -> Inbound {
    match reply {
        ChainSyncReplyView::RollForward(_, _) => Inbound::RollForward,
        ChainSyncReplyView::RollBackward(_, _) => Inbound::RollBackward,
        ChainSyncReplyView::Await => Inbound::AwaitReply,
    }
}

impl ChainSyncReply {
    /// The message that the reply is on the wire.
    pub fn kind(&self) -> (r: Inbound)
        ensures
            r == reply_kind(self@),
    {
        match self {
            ChainSyncReply::RollForward(_, _) => Inbound::RollForward,
            ChainSyncReply::RollBackward(_, _) => Inbound::RollBackward,
            ChainSyncReply::Await => Inbound::AwaitReply,
        }
    }
}

/// Why a step of the exchange gave no event.
#[derive(Clone, Copy, Debug, PartialEq, Eq)]
pub enum ResponseError {
    /// The block that the server sent could not be decoded.
    Decode(DecodeError),
    /// The transport failed, or the server sent what it may not send.
    Protocol,
    /// The session is disconnected.
    Disconnected,
}

/// What a step of the exchange gave the caller.
#[derive(Clone, Debug)]
pub enum NextResponse {
    /// No event: the step failed.
    Error(ResponseError),
    /// The chain goes on with `block`.
    RollForward { tip: Block, block: Block },
    /// The chain goes back to the position of `block`, which holds no
    /// transactions and has number zero.
    RollBackward { tip: Block, block: Block },
    /// There is nothing new yet.
    Await,
}

pub enum NextResponseView {
    Error(ResponseError),
    RollForward { tip: BlockView, block: BlockView },
    RollBackward { tip: BlockView, block: BlockView },
    Await,
}

impl View for NextResponse {
    type V = NextResponseView;

    open spec fn view(&self) -> NextResponseView {
        match *self {
            NextResponse::Error(e) => NextResponseView::Error(e),
            NextResponse::RollForward { tip, block } => NextResponseView::RollForward {
                tip: tip@,
                block: block@,
            },
            NextResponse::RollBackward { tip, block } => NextResponseView::RollBackward {
                tip: tip@,
                block: block@,
            },
            NextResponse::Await => NextResponseView::Await,
        }
    }
}

/// Code of a failed step.
pub const ACTION_ERROR: u8 = 0;

/// Code of a roll forward.
pub const ACTION_ROLL_FORWARD: u8 = 1;

/// Code of a roll backward.
pub const ACTION_ROLL_BACKWARD: u8 = 2;

/// Code of a step that found nothing new.
pub const ACTION_AWAIT: u8 = 3;

/// The block-shaped form of a position: its slot and hash with the given
/// number, and no transactions; the origin is all zero and empty.
pub open spec fn position_block(point: ChainPointView, number: u64) -> BlockView {
    match point {
        ChainPointView::Origin => BlockView {
            slot: 0,
            hash: Seq::empty(),
            number: 0,
            transaction_bodies: Seq::empty(),
        },
        ChainPointView::Specific(slot, hash) => BlockView {
            slot,
            hash,
            number,
            transaction_bodies: Seq::empty(),
        },
    }
}

/// The block-shaped form of a tip.
pub open spec fn tip_block(tip: TipView) -> BlockView {
    position_block(tip.point, tip.number)
}

/// What a roll forward becomes, given what decoding its block gave.
pub open spec fn roll_forward_model(decoded: Result<BlockView, DecodeError>, tip: TipView)
    -> NextResponseView {
    match decoded {
        Ok(block) => NextResponseView::RollForward { tip: tip_block(tip), block },
        Err(e) => NextResponseView::Error(ResponseError::Decode(e)),
    }
}

/// What a reply becomes for the caller.
pub open spec fn response_model(reply: ChainSyncReplyView) -> NextResponseView {
    match reply {
        ChainSyncReplyView::RollForward(bytes, tip) => roll_forward_model(
            decode_outcome(bytes),
            tip,
        ),
        ChainSyncReplyView::RollBackward(point, tip) => NextResponseView::RollBackward {
            tip: tip_block(tip),
            block: position_block(point, 0),
        },
        ChainSyncReplyView::Await => NextResponseView::Await,
    }
}

/// The code under which a response crosses a boundary that has no tagged
/// unions.
pub open spec fn action_code(response: NextResponseView) -> u8 {
    match response {
        NextResponseView::Error(_) => ACTION_ERROR,
        NextResponseView::RollForward { .. } => ACTION_ROLL_FORWARD,
        NextResponseView::RollBackward { .. } => ACTION_ROLL_BACKWARD,
        NextResponseView::Await => ACTION_AWAIT,
    }
}

impl Block {
    /// The block-shaped form of a position.
    pub fn of_position(point: &ChainPoint, number: u64) -> (r: Block)
        ensures
            r.wf(),
            r@ == position_block(point@, number),
    {
        match point {
            ChainPoint::Origin => Block::position_only(0, Vec::new(), 0),
            ChainPoint::Specific(slot, hash) => Block::position_only(
                *slot,
                copy_bytes(hash),
                number,
            ),
        }
    }

    /// The block-shaped form of a tip.
    pub fn of_tip(tip: &Tip) -> (r: Block)
        ensures
            r.wf(),
            r@ == tip_block(tip@),
    {
        Block::of_position(&tip.point, tip.number)
    }
}

impl NextResponse {
    /// The invariant of every value held.
    pub open spec fn wf(&self) -> bool {
        match *self {
            NextResponse::RollForward { tip, block } => tip.wf() && block.wf(),
            NextResponse::RollBackward { tip, block } => tip.wf() && block.wf(),
            _ => true,
        }
    }

    /// What a roll forward becomes, given what decoding its block gave: the
    /// block with the tip, or the decoding error.
    pub fn roll_forward(decoded: Result<Block, DecodeError>, tip: &Tip) -> (r: NextResponse)
        requires
            decoded matches Ok(block) ==> block.wf(),
        ensures
            r.wf(),
            r@ == roll_forward_model(block_result_view(decoded), tip@),
    {
        match decoded {
            Ok(block) => NextResponse::RollForward { tip: Block::of_tip(tip), block },
            Err(e) => NextResponse::Error(ResponseError::Decode(e)),
        }
    }

    /// What a roll backward becomes: the position to go back to, in the
    /// shape of a block with number zero, with the tip.
    pub fn roll_backward(point: &ChainPoint, tip: &Tip) -> (r: NextResponse)
        ensures
            r.wf(),
            r@ == (NextResponseView::RollBackward {
                tip: tip_block(tip@),
                block: position_block(point@, 0),
            }),
    {
        NextResponse::RollBackward { tip: Block::of_tip(tip), block: Block::of_position(point, 0) }
    }

    /// What a reply becomes for the caller; the block of a roll forward is
    /// decoded on the way.
    pub fn from_reply(reply: &ChainSyncReply) -> (r: NextResponse)
        ensures
            r.wf(),
            r@ == response_model(reply@),
    {
        match reply {
            ChainSyncReply::RollForward(bytes, tip) => NextResponse::roll_forward(
                Block::decode(bytes.as_slice()),
                tip,
            ),
            ChainSyncReply::RollBackward(point, tip) => NextResponse::roll_backward(point, tip),
            ChainSyncReply::Await => NextResponse::Await,
        }
    }

    /// The code of the response: [`ACTION_ERROR`], [`ACTION_ROLL_FORWARD`],
    /// [`ACTION_ROLL_BACKWARD`] or [`ACTION_AWAIT`].
    pub fn action(&self) -> (r: u8)
        ensures
            r == action_code(self@),
    {
        match self {
            NextResponse::Error(_) => ACTION_ERROR,
            NextResponse::RollForward { .. } => ACTION_ROLL_FORWARD,
            NextResponse::RollBackward { .. } => ACTION_ROLL_BACKWARD,
            NextResponse::Await => ACTION_AWAIT,
        }
    }

    /// The remote's tip in the shape of a block, where the response has one.
    pub fn tip(&self) -> (r: Option<&Block>)
        ensures
            match *self {
                NextResponse::RollForward { tip, .. } => r == Some(&tip),
                NextResponse::RollBackward { tip, .. } => r == Some(&tip),
                _ => r is None,
            },
    {
        match self {
            NextResponse::RollForward { tip, .. } => Some(tip),
            NextResponse::RollBackward { tip, .. } => Some(tip),
            _ => None,
        }
    }

    /// The block of the response, where it has one.
    pub fn block(&self) -> (r: Option<&Block>)
        ensures
            match *self {
                NextResponse::RollForward { block, .. } => r == Some(&block),
                NextResponse::RollBackward { block, .. } => r == Some(&block),
                _ => r is None,
            },
    {
        match self {
            NextResponse::RollForward { block, .. } => Some(block),
            NextResponse::RollBackward { block, .. } => Some(block),
            _ => None,
        }
    }
}

} // verus!
