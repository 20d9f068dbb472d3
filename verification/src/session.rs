//! The state of one session with a node: whether it is still connected,
//! where its chain-sync exchange stands, and the last tip that the node
//! reported. The session decides what is to be done next on the transport
//! and what the node's answers mean; moving bytes is left to the caller.

use crate::address::{address_bytes_to_text, address_text, AddressError};
use crate::chainsync::{after_receive, after_send, client_has_agency, reply_kind, response_model,
    ChainSyncReply, ChainSyncReplyView, ChainSyncState, Inbound, NextResponse, NextResponseView,
    Outbound, ResponseError, Tip, TipView};
use crate::network::{is_known_magic, NetworkMagic};
use crate::point::{decode_point, encode_point, point_option_view, ChainPoint, ChainPointView,
    Point, PointView};
use vstd::prelude::*;

verus! {

/// Why the session refused an operation.
#[derive(Clone, Copy, Debug, PartialEq, Eq)]
pub enum SessionError {
    /// The network magic is none of the known ones.
    UnknownNetwork,
    /// The session is disconnected.
    Disconnected,
    /// The exchange is not at a stage at which the operation may be done.
    OutOfTurn,
    /// The transport failed, or the node sent what it may not send.
    Protocol,
    /// The node named a specific point without a hash.
    InvalidPoint,
}

/// What is to be done on the transport to get the next chain event.
#[derive(Clone, Copy, Debug, PartialEq, Eq)]
pub enum ChainSyncAction {
    /// Send the request for the next event.
    SendRequestNext,
    /// Receive the answer to the request that was sent.
    ReceiveReply,
    /// Receive the event that the node said to wait for.
    ReceiveAwaitedReply,
}

/// The mathematical value of a session.
pub struct SessionView {
    pub socket_path: Seq<char>,
    pub network_magic: u64,
    pub connected: bool,
    pub state: ChainSyncState,
    pub known_tip: Option<TipView>,
}

/// The view of an optional tip.
pub open spec fn tip_option_view(t: Option<Tip>) -> Option<TipView> {
    match t {
        Some(tip) => Some(tip@),
        None => None,
    }
}

/// A session as it is opened: connected, with the client's turn in the
/// exchange, and no tip known.
pub open spec fn new_session(socket_path: Seq<char>, network_magic: u64) -> SessionView {
    SessionView {
        socket_path,
        network_magic,
        connected: true,
        state: ChainSyncState::Idle,
        known_tip: None,
    }
}

/// What is to be done next for a chain event: nothing on a disconnected
/// session; a request where the client has agency; a receive where a
/// request is pending; nothing while another exchange is pending.
pub open spec fn planned_action(session: SessionView) -> Result<ChainSyncAction, SessionError> {
    if !session.connected {
        Err(SessionError::Disconnected)
    } else {
        match session.state {
            ChainSyncState::Idle => Ok(ChainSyncAction::SendRequestNext),
            ChainSyncState::CanAwait => Ok(ChainSyncAction::ReceiveReply),
            ChainSyncState::MustReply => Ok(ChainSyncAction::ReceiveAwaitedReply),
            ChainSyncState::Intersect => Err(SessionError::OutOfTurn),
            ChainSyncState::Done => Err(SessionError::OutOfTurn),
        }
    }
}

/// The session after the client's `message` went out; none where the
/// session may not send it.
pub open spec fn session_after_send(session: SessionView, message: Outbound) -> Option<
    SessionView,
> {
    if !session.connected {
        None
    } else {
        match after_send(session.state, message) {
            Some(state) => Some(SessionView { state, ..session }),
            None => None,
        }
    }
}

/// The tip that a reply carries.
pub open spec fn reply_tip(reply: ChainSyncReplyView) -> Option<TipView> {
    match reply {
        ChainSyncReplyView::RollForward(_, tip) => Some(tip),
        ChainSyncReplyView::RollBackward(_, tip) => Some(tip),
        ChainSyncReplyView::Await => None,
    }
}

/// Whether the session takes `outcome` as the answer of the node: it is
/// connected, there is a reply, and the reply is one that the node may send
/// at this stage.
pub open spec fn accepts_reply(session: SessionView, outcome: Option<ChainSyncReplyView>) -> bool {
    session.connected && outcome is Some && after_receive(
        session.state,
        reply_kind(outcome.unwrap()),
    ) is Some
}

/// The session after the outcome of a receive: an accepted reply moves the
/// exchange on and, where it carries a tip, replaces the known tip;
/// anything else leaves the session as it was.
pub open spec fn session_after_reply(session: SessionView, outcome: Option<ChainSyncReplyView>)
    -> SessionView {
    if accepts_reply(session, outcome) {
        SessionView {
            state: after_receive(session.state, reply_kind(outcome.unwrap())).unwrap(),
            known_tip: match reply_tip(outcome.unwrap()) {
                Some(tip) => Some(tip),
                None => session.known_tip,
            },
            ..session
        }
    } else {
        session
    }
}

/// What the caller gets for the outcome of a receive.
pub open spec fn response_to(session: SessionView, outcome: Option<ChainSyncReplyView>)
    -> NextResponseView {
    if !session.connected {
        NextResponseView::Error(ResponseError::Disconnected)
    } else if accepts_reply(session, outcome) {
        response_model(outcome.unwrap())
    } else {
        NextResponseView::Error(ResponseError::Protocol)
    }
}

/// The message that the answer to an intersection request is on the wire.
pub open spec fn intersect_kind(found: Option<ChainPointView>) -> Inbound {
    if found is Some {
        Inbound::IntersectFound
    } else {
        Inbound::IntersectNotFound
    }
}

/// Whether the session takes `outcome` as the answer to an intersection
/// request.
pub open spec fn accepts_intersect(
    session: SessionView,
    outcome: Option<(Option<ChainPointView>, TipView)>,
) -> bool {
    session.connected && outcome is Some && after_receive(
        session.state,
        intersect_kind(outcome.unwrap().0),
    ) is Some
}

/// The session after the outcome of an intersection request.
pub open spec fn session_after_intersect(
    session: SessionView,
    outcome: Option<(Option<ChainPointView>, TipView)>,
) -> SessionView {
    if accepts_intersect(session, outcome) {
        SessionView {
            state: ChainSyncState::Idle,
            known_tip: Some(outcome.unwrap().1),
            ..session
        }
    } else {
        session
    }
}

/// What the caller gets for the outcome of an intersection request: the
/// point that the node found, nothing where it found none.
pub open spec fn intersect_result(
    session: SessionView,
    outcome: Option<(Option<ChainPointView>, TipView)>,
) -> Result<Option<PointView>, SessionError> {
    if !session.connected {
        Err(SessionError::Disconnected)
    } else if !accepts_intersect(session, outcome) {
        Err(SessionError::Protocol)
    } else {
        match outcome.unwrap().0 {
            None => Ok(None),
            Some(found) => match decode_point(found) {
                Some(point) => Ok(Some(point)),
                None => Err(SessionError::InvalidPoint),
            },
        }
    }
}

/// What the caller gets for the point that the node named as its tip.
pub open spec fn tip_result(session: SessionView, answer: ChainPointView) -> Result<
    PointView,
    SessionError,
> {
    if !session.connected {
        Err(SessionError::Disconnected)
    } else {
        match decode_point(answer) {
            Some(point) => Ok(point),
            None => Err(SessionError::InvalidPoint),
        }
    }
}

/// Where a query for the node's tip stands.
#[derive(Clone, Copy, Debug, PartialEq, Eq)]
pub enum TipQueryStage {
    /// Nothing was done yet.
    Start,
    /// The ledger state at the node's tip is being acquired.
    Acquiring,
    /// The acquired state is being asked for its chain point.
    Querying,
    /// The query is over.
    Finished,
}

/// What happened on the transport since the last step of a tip query.
#[derive(Clone, Debug, PartialEq, Eq)]
pub enum TipQueryEvent {
    /// Nothing: the query begins.
    Begin,
    /// The ledger state was acquired.
    Acquired,
    /// The acquired state named this point.
    Answered(ChainPoint),
    /// The transport failed, or the node refused.
    Failed,
}

pub enum TipQueryEventView {
    Begin,
    Acquired,
    Answered(ChainPointView),
    Failed,
}

impl View for TipQueryEvent {
    type V = TipQueryEventView;

    open spec fn view(&self) -> TipQueryEventView {
        match *self {
            TipQueryEvent::Begin => TipQueryEventView::Begin,
            TipQueryEvent::Acquired => TipQueryEventView::Acquired,
            TipQueryEvent::Answered(point) => TipQueryEventView::Answered(point@),
            TipQueryEvent::Failed => TipQueryEventView::Failed,
        }
    }
}

/// What is to be done next in a tip query.
#[derive(Debug, PartialEq, Eq)]
pub enum TipQueryAction {
    /// Acquire the ledger state at the node's tip.
    Acquire,
    /// Ask the acquired state for its chain point.
    Query,
    /// Stop, with this result.
    Finish(Result<Point, SessionError>),
}

pub enum TipQueryActionView {
    Acquire,
    Query,
    Finish(Result<PointView, SessionError>),
}

impl View for TipQueryAction {
    type V = TipQueryActionView;

    open spec fn view(&self) -> TipQueryActionView {
        match *self {
            TipQueryAction::Acquire => TipQueryActionView::Acquire,
            TipQueryAction::Query => TipQueryActionView::Query,
            TipQueryAction::Finish(r) => TipQueryActionView::Finish(point_result_view(r)),
        }
    }
}

/// The next stage and action of a tip query: the state is acquired first,
/// asked only once it was acquired, and whatever fails ends the query.
pub open spec fn tip_query_plan(
    session: SessionView,
    stage: TipQueryStage,
    event: TipQueryEventView,
) -> (TipQueryStage, TipQueryActionView) {
    if !session.connected {
        (TipQueryStage::Finished, TipQueryActionView::Finish(Err(SessionError::Disconnected)))
    } else {
        match (stage, event) {
            (TipQueryStage::Start, TipQueryEventView::Begin) => (
                TipQueryStage::Acquiring,
                TipQueryActionView::Acquire,
            ),
            (TipQueryStage::Acquiring, TipQueryEventView::Acquired) => (
                TipQueryStage::Querying,
                TipQueryActionView::Query,
            ),
            (TipQueryStage::Querying, TipQueryEventView::Answered(point)) => (
                TipQueryStage::Finished,
                TipQueryActionView::Finish(tip_result(session, point)),
            ),
            (TipQueryStage::Acquiring, TipQueryEventView::Failed) => (
                TipQueryStage::Finished,
                TipQueryActionView::Finish(Err(SessionError::Protocol)),
            ),
            (TipQueryStage::Querying, TipQueryEventView::Failed) => (
                TipQueryStage::Finished,
                TipQueryActionView::Finish(Err(SessionError::Protocol)),
            ),
            _ => (
                TipQueryStage::Finished,
                TipQueryActionView::Finish(Err(SessionError::OutOfTurn)),
            ),
        }
    }
}

/// The acquired state is asked only after it was acquired, and a query that
/// could not acquire it ends without asking.
pub proof fn lemma_query_follows_acquisition(
    session: SessionView,
    stage: TipQueryStage,
    event: TipQueryEventView,
)
    ensures
        tip_query_plan(session, stage, event).1 is Query ==> session.connected && stage
            == TipQueryStage::Acquiring && event is Acquired,
        tip_query_plan(session, stage, event).1 is Acquire ==> session.connected && stage
            == TipQueryStage::Start && event is Begin,
        event is Failed ==> tip_query_plan(session, stage, event).1 is Finish
            && tip_query_plan(session, stage, event).1->Finish_0 is Err,
{
}

/// The view of a point or the error in its place.
pub open spec fn point_result_view(r: Result<Point, SessionError>) -> Result<
    PointView,
    SessionError,
> {
    match r {
        Ok(point) => Ok(point@),
        Err(e) => Err(e),
    }
}

/// The view of an optional point or the error in its place.
pub open spec fn found_result_view(r: Result<Option<Point>, SessionError>) -> Result<
    Option<PointView>,
    SessionError,
> {
    match r {
        Ok(found) => Ok(point_option_view(found)),
        Err(e) => Err(e),
    }
}

/// The points in the protocol's form, in the order given.
pub fn intersect_candidates(known_points: &Vec<Point>) -> (r: Vec<ChainPoint>)
    ensures
        r@.len() == known_points@.len(),
        forall|i: int| 0 <= i < r@.len() ==> (#[trigger] r@[i])@ == encode_point(known_points@[i]@),
{
    let mut candidates: Vec<ChainPoint> = Vec::new();
    let mut i: usize = 0;
    while i < known_points.len()
        invariant
            i <= known_points.len(),
            candidates@.len() == i,
            forall|j: int|
                0 <= j < i ==> (#[trigger] candidates@[j])@ == encode_point(known_points@[j]@),
        decreases known_points.len() - i,
    {
        candidates.push(known_points[i].to_chain_point());
        i = i + 1;
    }
    candidates
}

/// One session with a node.
#[derive(Clone, Debug)]
pub struct NodeClientWrapper {
    socket_path: String,
    network_magic: u64,
    connected: bool,
    state: ChainSyncState,
    known_tip: Option<Tip>,
}

impl View for NodeClientWrapper {
    type V = SessionView;

    closed spec fn view(&self) -> SessionView {
        SessionView {
            socket_path: self.socket_path@,
            network_magic: self.network_magic,
            connected: self.connected,
            state: self.state,
            known_tip: tip_option_view(self.known_tip),
        }
    }
}

impl NodeClientWrapper {
    /// Opens the session's state for the node behind `socket_path` on the
    /// network `network_magic`: connected, with the client's turn in the
    /// exchange, and no tip known. An unknown magic is refused.
    pub fn connect(socket_path: String, network_magic: u64) -> (r: Result<
        NodeClientWrapper,
        SessionError,
    >)
        ensures
            match r {
                Ok(session) => is_known_magic(network_magic) && session@ == new_session(
                    socket_path@,
                    network_magic,
                ),
                Err(e) => !is_known_magic(network_magic) && e == SessionError::UnknownNetwork,
            },
    {
        if NetworkMagic::is_known(network_magic) {
            Ok(
                NodeClientWrapper {
                    socket_path,
                    network_magic,
                    connected: true,
                    state: ChainSyncState::Idle,
                    known_tip: None,
                },
            )
        } else {
            Err(SessionError::UnknownNetwork)
        }
    }

    /// The path that the session was opened with.
    pub fn socket_path(&self) -> (r: &String)
        ensures
            r@ == self@.socket_path,
    {
        &self.socket_path
    }

    /// The magic that the session was opened with.
    pub fn network_magic(&self) -> (r: u64)
        ensures
            r == self@.network_magic,
    {
        self.network_magic
    }

    /// Whether the session is still connected.
    pub fn is_connected(&self) -> (r: bool)
        ensures
            r == self@.connected,
    {
        self.connected
    }

    /// The stage of the chain-sync exchange.
    pub fn chain_sync_state(&self) -> (r: ChainSyncState)
        ensures
            r == self@.state,
    {
        self.state
    }

    /// The tip that the node reported last, if it reported one.
    pub fn current_known_tip(&self) -> (r: Option<&Tip>)
        ensures
            match r {
                Some(tip) => self@.known_tip == Some(tip@),
                None => self@.known_tip is None,
            },
    {
        match &self.known_tip {
            Some(tip) => Some(tip),
            None => None,
        }
    }

    /// Whether the client may send: the session is connected and it is the
    /// client's turn.
    pub fn chain_sync_has_agency(&self) -> (r: bool)
        ensures
            r == (self@.connected && client_has_agency(self@.state)),
    {
        self.connected && self.state.has_agency()
    }

    /// What is to be done next on the transport for a chain event.
    pub fn next_action(&self) -> (r: Result<ChainSyncAction, SessionError>)
        ensures
            r == planned_action(self@),
    {
        if !self.connected {
            return Err(SessionError::Disconnected);
        }
        match self.state {
            ChainSyncState::Idle => Ok(ChainSyncAction::SendRequestNext),
            ChainSyncState::CanAwait => Ok(ChainSyncAction::ReceiveReply),
            ChainSyncState::MustReply => Ok(ChainSyncAction::ReceiveAwaitedReply),
            ChainSyncState::Intersect => Err(SessionError::OutOfTurn),
            ChainSyncState::Done => Err(SessionError::OutOfTurn),
        }
    }

    /// Records that the client's `message` went out. It is refused, and the
    /// session left as it was, where the session is disconnected or it is
    /// not the client's turn.
    pub fn sent(&mut self, message: Outbound) -> (r: Result<(), SessionError>)
        ensures
            match r {
                Ok(_) => session_after_send(old(self)@, message) == Some(final(self)@),
                Err(e) => session_after_send(old(self)@, message) is None && final(self)@ == old(
                    self,
                )@ && e == (if old(self)@.connected {
                    SessionError::OutOfTurn
                } else {
                    SessionError::Disconnected
                }),
            },
    {
        if !self.connected {
            return Err(SessionError::Disconnected);
        }
        match self.state.send(message) {
            Some(state) => {
                self.state = state;
                Ok(())
            },
            None => Err(SessionError::OutOfTurn),
        }
    }

    /// Takes the outcome of a receive, a reply or none where the transport
    /// failed, and gives what it means for the caller. A reply that the node
    /// may send at this stage moves the exchange on; everything else is an
    /// error that leaves the session as it was.
    pub fn chain_sync_next(&mut self, outcome: Option<ChainSyncReply>) -> (r: NextResponse)
        ensures
            r.wf(),
            r@ == response_to(old(self)@, reply_option_view(outcome)),
            final(self)@ == session_after_reply(old(self)@, reply_option_view(outcome)),
    {
        if !self.connected {
            return NextResponse::Error(ResponseError::Disconnected);
        }
        let reply = match outcome {
            Some(reply) => reply,
            None => {
                return NextResponse::Error(ResponseError::Protocol);
            },
        };
        let state = match self.state.receive(reply.kind()) {
            Some(state) => state,
            None => {
                return NextResponse::Error(ResponseError::Protocol);
            },
        };
        self.state = state;
        match &reply {
            ChainSyncReply::RollForward(_, tip) => {
                self.known_tip = Some(tip.duplicate());
            },
            ChainSyncReply::RollBackward(_, tip) => {
                self.known_tip = Some(tip.duplicate());
            },
            ChainSyncReply::Await => {},
        }
        NextResponse::from_reply(&reply)
    }

    /// The candidates of an intersection request for `known_points`, in the
    /// order given; refused where the session may not send the request.
    pub fn intersect_request(&self, known_points: &Vec<Point>) -> (r: Result<
        Vec<ChainPoint>,
        SessionError,
    >)
        ensures
            match r {
                Ok(candidates) => session_after_send(self@, Outbound::FindIntersect) is Some
                    && candidates@.len() == known_points@.len() && forall|i: int|
                    0 <= i < candidates@.len() ==> (#[trigger] candidates@[i])@ == encode_point(
                        known_points@[i]@,
                    ),
                Err(e) => session_after_send(self@, Outbound::FindIntersect) is None && e == (
                if self@.connected {
                    SessionError::OutOfTurn
                } else {
                    SessionError::Disconnected
                }),
            },
    {
        if !self.connected {
            return Err(SessionError::Disconnected);
        }
        match self.state.send(Outbound::FindIntersect) {
            Some(_) => Ok(intersect_candidates(known_points)),
            None => Err(SessionError::OutOfTurn),
        }
    }

    /// Takes the outcome of an intersection request, the node's answer with
    /// its tip or none where the transport failed, and gives the point that
    /// the node found among the candidates, or nothing where it found none.
    pub fn find_intersect(&mut self, outcome: Option<(Option<ChainPoint>, Tip)>) -> (r: Result<
        Option<Point>,
        SessionError,
    >)
        ensures
            found_result_view(r) == intersect_result(old(self)@, intersect_option_view(outcome)),
            final(self)@ == session_after_intersect(old(self)@, intersect_option_view(outcome)),
    {
        if !self.connected {
            return Err(SessionError::Disconnected);
        }
        let (found, tip) = match outcome {
            Some(answer) => answer,
            None => {
                return Err(SessionError::Protocol);
            },
        };
        let kind = if found.is_some() {
            Inbound::IntersectFound
        } else {
            Inbound::IntersectNotFound
        };
        match self.state.receive(kind) {
            Some(state) => {
                self.state = state;
            },
            None => {
                return Err(SessionError::Protocol);
            },
        }
        self.known_tip = Some(tip);
        match found {
            None => Ok(None),
            Some(point) => match Point::from_chain_point(&point) {
                Some(p) => Ok(Some(p)),
                None => Err(SessionError::InvalidPoint),
            },
        }
    }

    /// The point that the node named as its tip when the ledger state was
    /// asked for it: the origin only where the chain is empty.
    pub fn get_tip(&self, answer: &ChainPoint) -> (r: Result<Point, SessionError>)
        ensures
            point_result_view(r) == tip_result(self@, answer@),
    {
        if !self.connected {
            return Err(SessionError::Disconnected);
        }
        match Point::from_chain_point(answer) {
            Some(point) => Ok(point),
            None => Err(SessionError::InvalidPoint),
        }
    }

    /// The next stage and action of a tip query that stands at `stage`,
    /// after `event` happened on the transport.
    pub fn tip_query_step(&self, stage: TipQueryStage, event: &TipQueryEvent) -> (r: (
        TipQueryStage,
        TipQueryAction,
    ))
        ensures
            (r.0, r.1@) == tip_query_plan(self@, stage, event@),
    {
        if !self.connected {
            return (
                TipQueryStage::Finished,
                TipQueryAction::Finish(Err(SessionError::Disconnected)),
            );
        }
        match (stage, event) {
            (TipQueryStage::Start, TipQueryEvent::Begin) => (
                TipQueryStage::Acquiring,
                TipQueryAction::Acquire,
            ),
            (TipQueryStage::Acquiring, TipQueryEvent::Acquired) => (
                TipQueryStage::Querying,
                TipQueryAction::Query,
            ),
            (TipQueryStage::Querying, TipQueryEvent::Answered(point)) => (
                TipQueryStage::Finished,
                TipQueryAction::Finish(self.get_tip(point)),
            ),
            (TipQueryStage::Acquiring, TipQueryEvent::Failed) => (
                TipQueryStage::Finished,
                TipQueryAction::Finish(Err(SessionError::Protocol)),
            ),
            (TipQueryStage::Querying, TipQueryEvent::Failed) => (
                TipQueryStage::Finished,
                TipQueryAction::Finish(Err(SessionError::Protocol)),
            ),
            _ => (TipQueryStage::Finished, TipQueryAction::Finish(Err(SessionError::OutOfTurn))),
        }
    }

    /// Ends the session: whatever was pending is given up, and every later
    /// operation is refused. A session can be ended once.
    pub fn disconnect(&mut self) -> (r: Result<(), SessionError>)
        ensures
            match r {
                Ok(_) => old(self)@.connected && final(self)@ == (SessionView {
                    connected: false,
                    state: ChainSyncState::Done,
                    ..old(self)@
                }),
                Err(e) => !old(self)@.connected && e == SessionError::Disconnected && final(self)@
                    == old(self)@,
            },
    {
        if !self.connected {
            return Err(SessionError::Disconnected);
        }
        self.connected = false;
        self.state = ChainSyncState::Done;
        Ok(())
    }

    /// The text of address bytes: bech32 where the bytes are an address that
    /// has a bech32 text, else base58 where they are a Byron address.
    pub fn address_bytes_to_bech32(address_bytes: Vec<u8>) -> (r: Result<String, AddressError>)
        ensures
            match r {
                Ok(text) => address_text(address_bytes@) == Some(text@),
                Err(e) => e == AddressError::Unrecognized && address_text(address_bytes@) is None,
            },
    {
        address_bytes_to_text(address_bytes.as_slice())
    }
}

/// The view of the outcome of a receive.
pub open spec fn reply_option_view(outcome: Option<ChainSyncReply>) -> Option<ChainSyncReplyView> {
    match outcome {
        Some(reply) => Some(reply@),
        None => None,
    }
}

/// The view of the outcome of an intersection request.
pub open spec fn intersect_option_view(outcome: Option<(Option<ChainPoint>, Tip)>) -> Option<
    (Option<ChainPointView>, TipView),
> {
    match outcome {
        Some(answer) => Some(
            (
                match answer.0 {
                    Some(point) => Some(point@),
                    None => None,
                },
                answer.1@,
            ),
        ),
        None => None,
    }
}

/// A session that was just opened has the client's turn: the first thing
/// it plans is a request.
pub proof fn lemma_new_session_has_agency(socket_path: Seq<char>, network_magic: u64)
    ensures
        new_session(socket_path, network_magic).connected,
        client_has_agency(new_session(socket_path, network_magic).state),
        planned_action(new_session(socket_path, network_magic)) == Ok::<
            ChainSyncAction,
            SessionError,
        >(ChainSyncAction::SendRequestNext),
{
}

/// Once the request for the next event went out, the session plans no
/// second request: it plans a receive, a second request is refused, and a
/// receive that brought no reply changes nothing of that.
pub proof fn lemma_single_request_in_flight(session: SessionView)
    requires
        session.connected,
        planned_action(session) == Ok::<ChainSyncAction, SessionError>(
            ChainSyncAction::SendRequestNext,
        ),
    ensures
        client_has_agency(session.state),
        session_after_send(session, Outbound::RequestNext) is Some,
        planned_action(session_after_send(session, Outbound::RequestNext).unwrap()) == Ok::<
            ChainSyncAction,
            SessionError,
        >(ChainSyncAction::ReceiveReply),
        session_after_send(
            session_after_send(session, Outbound::RequestNext).unwrap(),
            Outbound::RequestNext,
        ) is None,
        session_after_reply(session_after_send(session, Outbound::RequestNext).unwrap(), None)
            == session_after_send(session, Outbound::RequestNext).unwrap(),
{
}

/// While it is the server's turn, no request is planned, whatever came
/// before.
pub proof fn lemma_no_request_without_agency(session: SessionView)
    requires
        !client_has_agency(session.state),
    ensures
        planned_action(session) != Ok::<ChainSyncAction, SessionError>(
            ChainSyncAction::SendRequestNext,
        ),
        session_after_send(session, Outbound::RequestNext) is None,
{
}

/// After a reply that says to wait, the session plans to receive the
/// awaited event, not to ask again.
pub proof fn lemma_await_keeps_waiting(session: SessionView)
    requires
        session.connected,
        session.state is CanAwait,
    ensures
        session_after_reply(session, Some(ChainSyncReplyView::Await)).state is MustReply,
        planned_action(session_after_reply(session, Some(ChainSyncReplyView::Await))) == Ok::<
            ChainSyncAction,
            SessionError,
        >(ChainSyncAction::ReceiveAwaitedReply),
{
}

/// Whatever the node answers to an intersection request, the caller gets
/// that answer: the point that the node named, or nothing where it named
/// none; and the node's tip is remembered.
pub proof fn lemma_intersect_returns_answer(
    session: SessionView,
    found: Option<ChainPointView>,
    tip: TipView,
)
    requires
        session.connected,
        session.state is Intersect,
        found matches Some(c) ==> decode_point(c) is Some,
    ensures
        intersect_result(session, Some((found, tip))) == Ok::<Option<PointView>, SessionError>(
            match found {
                Some(c) => decode_point(c),
                None => None,
            },
        ),
        session_after_intersect(session, Some((found, tip))).known_tip == Some(tip),
        client_has_agency(session_after_intersect(session, Some((found, tip))).state),
{
}

/// After a disconnect every operation on the session is refused.
pub proof fn lemma_disconnected_refuses(
    session: SessionView,
    message: Outbound,
    outcome: Option<ChainSyncReplyView>,
    answer: Option<(Option<ChainPointView>, TipView)>,
    tip: ChainPointView,
)
    requires
        !session.connected,
    ensures
        planned_action(session) == Err::<ChainSyncAction, SessionError>(SessionError::Disconnected),
        session_after_send(session, message) is None,
        response_to(session, outcome) == NextResponseView::Error(ResponseError::Disconnected),
        session_after_reply(session, outcome) == session,
        intersect_result(session, answer) == Err::<Option<PointView>, SessionError>(
            SessionError::Disconnected,
        ),
        tip_result(session, tip) == Err::<PointView, SessionError>(SessionError::Disconnected),
{
}

} // verus!
