//! The request handlers' decisions. A handler resolves its chain, then runs
//! as a small machine: each step names the one remote call to make next or
//! the reply to send, and the caller hands back what the call returned.
use vstd::prelude::*;
use crate::address::{accepted_address, address_byte, WalletAddress};
use crate::game::{as_signed_i32, format_game_status_message, low_i8, status_text, GameState, RawGameState};
use crate::random::random_seed;
use crate::registry::{Registry, Session};

verus! {

/// A client request, with the wallet address text where the route takes one.
pub enum Request {
    GameState,
    PurchaseCard(String),
    GetCard(String),
    Challenge(String),
}

/// A call on the chain's ledger client.
pub enum RemoteCall {
    /// Read-only call for the current game state.
    ReadGameState,
    /// Read-only call for the card assigned to a wallet.
    ReadCard(WalletAddress),
    /// Write call assigning a card to a wallet, with a fresh random seed.
    SendAssignCard(WalletAddress, u64),
    /// Write call claiming a win for a wallet.
    SendClaimWin(WalletAddress),
    /// Wait for the transaction just sent to be confirmed.
    AwaitConfirmation,
}

/// An error reply carried by the HTTP status alone.
pub enum HttpError {
    /// The chain is not registered (404).
    NotFound,
    /// The wallet address does not parse (400).
    BadRequest,
    /// A confirmed transaction came back without a receipt, or the handler
    /// was fed an event it was not waiting for (500).
    InternalError,
}

/// The data an envelope may carry.
pub enum Payload {
    State(GameState),
    TransactionHash(String),
    Card(Vec<u32>),
    Won(bool),
}

/// The uniform response body.
pub struct Envelope {
    pub success: bool,
    pub message: String,
    pub data: Option<Payload>,
}

pub enum Reply {
    Body(Envelope),
    Status(HttpError),
}

/// What a handler does next.
pub enum Action {
    Call(RemoteCall),
    Respond(Reply),
}

/// What a remote call returned; an error carries the remote error's text.
pub enum Event {
    GameStateRead(Result<RawGameState, String>),
    CardRead(Result<Vec<u32>, String>),
    Sent(Result<(), String>),
    /// The confirmation, with the transaction hash of its receipt when the
    /// ledger returned one.
    Confirmed(Result<Option<String>, String>),
}

#[derive(PartialEq, Eq, Structural, Clone, Copy)]
pub enum Endpoint {
    GameState,
    PurchaseCard,
    GetCard,
    Challenge,
}

/// Which event a handler waits for.
#[derive(PartialEq, Eq, Structural, Clone, Copy)]
pub enum Phase {
    ReadingState,
    ReadingCard,
    Sending,
    Confirming,
    Finished,
}

/// One request in progress.
pub struct HandlerRun {
    pub endpoint: Endpoint,
    pub phase: Phase,
    pub address: Option<WalletAddress>,
}

/// The action replies with the bare status `e`.
pub open spec fn replies_status(a: Action, e: HttpError) -> bool {
    a matches Action::Respond(Reply::Status(s)) && s == e
}

/// The action replies with an envelope of this success flag and message.
pub open spec fn replies_body(a: Action, success: bool, message: Seq<char>) -> bool {
    a matches Action::Respond(Reply::Body(b)) && b.success == success && b.message@ == message
}

pub open spec fn reply_data(a: Action) -> Option<Payload> {
    match a {
        Action::Respond(Reply::Body(b)) => b.data,
        _ => None,
    }
}

/// `a` holds the bytes that the accepted address text `s` encodes.
pub open spec fn holds_address(a: WalletAddress, s: Seq<char>) -> bool {
    forall|i: int| 0 <= i < 20 ==> #[trigger] a.bytes@[i] as int == address_byte(s, i)
}

pub open spec fn wallet_text(r: Request) -> Seq<char> {
    match r {
        Request::GameState => Seq::empty(),
        Request::PurchaseCard(w) => w@,
        Request::GetCard(w) => w@,
        Request::Challenge(w) => w@,
    }
}

pub open spec fn endpoint_of(r: Request) -> Endpoint {
    match r {
        Request::GameState => Endpoint::GameState,
        Request::PurchaseCard(_) => Endpoint::PurchaseCard,
        Request::GetCard(_) => Endpoint::GetCard,
        Request::Challenge(_) => Endpoint::Challenge,
    }
}

/// The first call of a request whose chain is known and whose address parsed
/// to `a`.
pub open spec fn first_call(e: Endpoint, a: WalletAddress) -> RemoteCall {
    match e {
        Endpoint::GameState => RemoteCall::ReadGameState,
        Endpoint::PurchaseCard => RemoteCall::ReadGameState,
        Endpoint::GetCard => RemoteCall::ReadCard(a),
        Endpoint::Challenge => RemoteCall::SendClaimWin(a),
    }
}

pub open spec fn phase_after_first_call(e: Endpoint) -> Phase {
    match e {
        Endpoint::GameState => Phase::ReadingState,
        Endpoint::PurchaseCard => Phase::ReadingState,
        Endpoint::GetCard => Phase::ReadingCard,
        Endpoint::Challenge => Phase::Sending,
    }
}

/// `run` waits on `a`'s first call, or replies at once with `status`.
pub open spec fn starts_with(a: Action, run: HandlerRun, e: Endpoint, addr: WalletAddress) -> bool {
    &&& a == Action::Call(first_call(e, addr))
    &&& run.phase == phase_after_first_call(e)
    &&& run.endpoint == e
}

/// Resolves the chain and the wallet address of a request, before any remote
/// call: an unknown chain is answered with not-found and a malformed address
/// with bad-request, and neither makes a call.
pub fn begin<'a, C>(registry: &'a Registry<C>, chain: &str, request: Request) -> (r: (Option<&'a Session<C>>, HandlerRun, Action))
    requires
        registry.wf(),
    ensures
        r.0 is Some <==> registry@.contains_key(chain@),
        r.0 is Some ==> *r.0->Some_0 == registry@[chain@],
        r.1.endpoint == endpoint_of(request),
        !registry@.contains_key(chain@) ==> replies_status(r.2, HttpError::NotFound) && r.1.phase == Phase::Finished,
        registry@.contains_key(chain@) && request is GameState ==> r.2 == Action::Call(RemoteCall::ReadGameState)
            && r.1.phase == Phase::ReadingState && r.1.endpoint == Endpoint::GameState,
        registry@.contains_key(chain@) && !(request is GameState) ==> {
            let w = wallet_text(request);
            let e = endpoint_of(request);
            &&& !accepted_address(w) ==> replies_status(r.2, HttpError::BadRequest) && r.1.phase == Phase::Finished
            &&& accepted_address(w) ==> r.1.address is Some && holds_address(r.1.address->Some_0, w)
                && starts_with(r.2, r.1, e, r.1.address->Some_0)
        },
{
    let requested = match &request {
        Request::GameState => Endpoint::GameState,
        Request::PurchaseCard(_) => Endpoint::PurchaseCard,
        Request::GetCard(_) => Endpoint::GetCard,
        Request::Challenge(_) => Endpoint::Challenge,
    };
    let session = registry.get(chain);
    if session.is_none() {
        return (None, HandlerRun { endpoint: requested, phase: Phase::Finished, address: None },
            Action::Respond(Reply::Status(HttpError::NotFound)));
    }
    let (endpoint, wallet) = match request {
        Request::GameState => {
            return (session, HandlerRun { endpoint: Endpoint::GameState, phase: Phase::ReadingState, address: None },
                Action::Call(RemoteCall::ReadGameState));
        },
        Request::PurchaseCard(w) => (Endpoint::PurchaseCard, w),
        Request::GetCard(w) => (Endpoint::GetCard, w),
        Request::Challenge(w) => (Endpoint::Challenge, w),
    };
    match WalletAddress::parse(wallet.as_str()) {
        None => (session, HandlerRun { endpoint, phase: Phase::Finished, address: None },
            Action::Respond(Reply::Status(HttpError::BadRequest))),
        Some(a) => {
            let call = match endpoint {
                Endpoint::GetCard => RemoteCall::ReadCard(a),
                Endpoint::Challenge => RemoteCall::SendClaimWin(a),
                _ => RemoteCall::ReadGameState,
            };
            let phase = match endpoint {
                Endpoint::GetCard => Phase::ReadingCard,
                Endpoint::Challenge => Phase::Sending,
                _ => Phase::ReadingState,
            };
            (session, HandlerRun { endpoint, phase, address: Some(a) }, Action::Call(call))
        },
    }
}

/// `after` is `before` finished.
pub open spec fn finishes(before: HandlerRun, after: HandlerRun) -> bool {
    after.phase == Phase::Finished && after.endpoint == before.endpoint
}

/// `after` waits in `phase`, for the same request and address as `before`.
pub open spec fn moves_to(before: HandlerRun, after: HandlerRun, phase: Phase) -> bool {
    after.phase == phase && after.endpoint == before.endpoint && after.address == before.address
}

/// The handler finishes with a 500: it was fed an event it was not waiting for.
pub open spec fn fails_internally(before: HandlerRun, after: HandlerRun, a: Action) -> bool {
    finishes(before, after) && replies_status(a, HttpError::InternalError)
}

/// The handler finishes with an envelope of this flag, message and data.
pub open spec fn answers(before: HandlerRun, after: HandlerRun, a: Action, success: bool, message: Seq<char>, data: Option<Payload>) -> bool {
    finishes(before, after) && replies_body(a, success, message) && reply_data(a) == data
}

/// One step of a handler: what `before`, fed `event`, becomes and does.
pub open spec fn handler_step(before: HandlerRun, event: Event, after: HandlerRun, a: Action) -> bool {
    let purchase = before.endpoint == Endpoint::PurchaseCard;
    match before.phase {
        Phase::ReadingState => match event {
            Event::GameStateRead(Ok(raw)) => if before.endpoint == Endpoint::GameState {
                &&& finishes(before, after)
                &&& replies_body(a, true, status_text(raw.is_started, raw.is_ended,
                    as_signed_i32(raw.player_count), low_i8(raw.number_count)))
                &&& reply_data(a) matches Some(Payload::State(g)) && g.describes(&raw)
            } else if purchase && before.address is Some {
                if raw.is_started {
                    answers(before, after, a, false, "Game has already started"@, None)
                } else {
                    &&& moves_to(before, after, Phase::Sending)
                    &&& a matches Action::Call(RemoteCall::SendAssignCard(w, _)) && w == before.address->Some_0
                }
            } else {
                fails_internally(before, after, a)
            },
            Event::GameStateRead(Err(e)) => if before.endpoint == Endpoint::GameState {
                answers(before, after, a, false, "Failed to get game state: "@ + e@, None)
            } else if purchase {
                answers(before, after, a, false, "Failed to check game state: "@ + e@, None)
            } else {
                fails_internally(before, after, a)
            },
            _ => fails_internally(before, after, a),
        },
        Phase::ReadingCard => match event {
            Event::CardRead(Ok(c)) => {
                &&& finishes(before, after)
                &&& replies_body(a, true, "Get Card"@)
                &&& reply_data(a) matches Some(Payload::Card(v)) && v@ == c@
            },
            Event::CardRead(Err(e)) => answers(before, after, a, false, "Failed to get player cards: "@ + e@, None),
            _ => fails_internally(before, after, a),
        },
        Phase::Sending => match event {
            Event::Sent(Ok(_)) => moves_to(before, after, Phase::Confirming)
                && a == Action::Call(RemoteCall::AwaitConfirmation),
            Event::Sent(Err(e)) => if purchase {
                answers(before, after, a, false, "Failed to send transaction: "@ + e@, None)
            } else {
                answers(before, after, a, false, "Invalid win "@ + e@, Some(Payload::Won(false)))
            },
            _ => fails_internally(before, after, a),
        },
        Phase::Confirming => match event {
            Event::Confirmed(Ok(receipt)) => if purchase {
                match receipt {
                    Some(h) => {
                        &&& finishes(before, after)
                        &&& replies_body(a, true, "Bingo card purchased and assigned successfully"@)
                        &&& reply_data(a) matches Some(Payload::TransactionHash(x)) && x@ == h@
                    },
                    None => fails_internally(before, after, a),
                }
            } else {
                answers(before, after, a, true, "You won!"@, Some(Payload::Won(true)))
            },
            Event::Confirmed(Err(e)) => if purchase {
                answers(before, after, a, false, "Transaction failed: "@ + e@, None)
            } else {
                answers(before, after, a, false, "Invalid win "@ + e@, Some(Payload::Won(false)))
            },
            _ => fails_internally(before, after, a),
        },
        Phase::Finished => fails_internally(before, after, a),
    }
}

/// The text of a failed remote call: `prefix` followed by the remote error.
fn failure_message(prefix: &str, err: &String) -> (r: String)
    ensures
        r@ == prefix@ + err@,
{
    String::from_str(prefix).concat(err.as_str())
}

fn body(success: bool, message: String, data: Option<Payload>) -> (a: Action)
    ensures
        replies_body(a, success, message@),
        reply_data(a) == data,
{
    Action::Respond(Reply::Body(Envelope { success, message, data }))
}

impl HandlerRun {
    fn finish(&mut self)
        ensures
            finishes(*old(self), *final(self)),
    {
        self.phase = Phase::Finished;
    }

    fn internal_error(&mut self) -> (a: Action)
        ensures
            fails_internally(*old(self), *final(self), a),
    {
        self.finish();
        Action::Respond(Reply::Status(HttpError::InternalError))
    }

    /// Feeds the handler what its last remote call returned.
    pub fn step(&mut self, event: Event) -> (a: Action)
        ensures
            handler_step(*old(self), event, *final(self), a),
    {
        let purchase = self.endpoint == Endpoint::PurchaseCard;
        match self.phase {
            Phase::ReadingState => match event {
                Event::GameStateRead(Ok(raw)) => {
                    if self.endpoint == Endpoint::GameState {
                        self.finish();
                        let g = GameState::from_raw(&raw);
                        let m = format_game_status_message(&g);
                        body(true, m, Some(Payload::State(g)))
                    } else if purchase && self.address.is_some() {
                        if raw.is_started {
                            self.finish();
                            body(false, String::from_str("Game has already started"), None)
                        } else {
                            let w = self.address.unwrap();
                            self.phase = Phase::Sending;
                            Action::Call(RemoteCall::SendAssignCard(w, random_seed()))
                        }
                    } else {
                        self.internal_error()
                    }
                },
                Event::GameStateRead(Err(e)) => {
                    if self.endpoint == Endpoint::GameState {
                        self.finish();
                        body(false, failure_message("Failed to get game state: ", &e), None)
                    } else if purchase {
                        self.finish();
                        body(false, failure_message("Failed to check game state: ", &e), None)
                    } else {
                        self.internal_error()
                    }
                },
                _ => self.internal_error(),
            },
            Phase::ReadingCard => match event {
                Event::CardRead(Ok(c)) => {
                    self.finish();
                    body(true, String::from_str("Get Card"), Some(Payload::Card(c)))
                },
                Event::CardRead(Err(e)) => {
                    self.finish();
                    body(false, failure_message("Failed to get player cards: ", &e), None)
                },
                _ => self.internal_error(),
            },
            Phase::Sending => match event {
                Event::Sent(Ok(_)) => {
                    self.phase = Phase::Confirming;
                    Action::Call(RemoteCall::AwaitConfirmation)
                },
                Event::Sent(Err(e)) => {
                    self.finish();
                    if purchase {
                        body(false, failure_message("Failed to send transaction: ", &e), None)
                    } else {
                        body(false, failure_message("Invalid win ", &e), Some(Payload::Won(false)))
                    }
                },
                _ => self.internal_error(),
            },
            Phase::Confirming => match event {
                Event::Confirmed(Ok(receipt)) => {
                    if purchase {
                        match receipt {
                            Some(h) => {
                                self.finish();
                                body(true, String::from_str("Bingo card purchased and assigned successfully"),
                                    Some(Payload::TransactionHash(h)))
                            },
                            None => self.internal_error(),
                        }
                    } else {
                        self.finish();
                        body(true, String::from_str("You won!"), Some(Payload::Won(true)))
                    }
                },
                Event::Confirmed(Err(e)) => {
                    self.finish();
                    if purchase {
                        body(false, failure_message("Transaction failed: ", &e), None)
                    } else {
                        body(false, failure_message("Invalid win ", &e), Some(Payload::Won(false)))
                    }
                },
                _ => self.internal_error(),
            },
            Phase::Finished => self.internal_error(),
        }
    }
}

/// Two snapshots with equal fields.
pub open spec fn same_raw_state(x: RawGameState, y: RawGameState) -> bool {
    &&& x.start_time == y.start_time
    &&& x.last_draw_time == y.last_draw_time
    &&& x.number_count == y.number_count
    &&& x.drawn_numbers@ == y.drawn_numbers@
    &&& x.is_ended == y.is_ended
    &&& x.player_count == y.player_count
    &&& x.is_started == y.is_started
}

/// Two reported game states with equal fields.
pub open spec fn same_game_state(x: GameState, y: GameState) -> bool {
    &&& x.start_time == y.start_time
    &&& x.last_draw_time == y.last_draw_time
    &&& x.drawn_numbers_count == y.drawn_numbers_count
    &&& x.drawn_numbers@ == y.drawn_numbers@
    &&& x.is_ended == y.is_ended
    &&& x.player_count == y.player_count
    &&& x.is_started == y.is_started
}

/// Two game-state queries whose reads return the same snapshot, as two reads
/// with no write between them do, are answered identically: same success
/// flag, same message, same reported state.
pub proof fn lemma_game_state_query_repeats(
    b1: HandlerRun, raw1: RawGameState, f1: HandlerRun, a1: Action,
    b2: HandlerRun, raw2: RawGameState, f2: HandlerRun, a2: Action,
)
    requires
        b1.endpoint == Endpoint::GameState && b1.phase == Phase::ReadingState,
        b2.endpoint == Endpoint::GameState && b2.phase == Phase::ReadingState,
        same_raw_state(raw1, raw2),
        handler_step(b1, Event::GameStateRead(Ok(raw1)), f1, a1),
        handler_step(b2, Event::GameStateRead(Ok(raw2)), f2, a2),
    ensures
        a1 is Respond && a1->Respond_0 is Body,
        a2 is Respond && a2->Respond_0 is Body,
        a1->Respond_0->Body_0.success == a2->Respond_0->Body_0.success,
        a1->Respond_0->Body_0.message@ == a2->Respond_0->Body_0.message@,
        reply_data(a1) is Some && reply_data(a1)->Some_0 is State,
        reply_data(a2) is Some && reply_data(a2)->Some_0 is State,
        same_game_state(reply_data(a1)->Some_0->State_0, reply_data(a2)->Some_0->State_0),
{
    let g1 = reply_data(a1)->Some_0->State_0;
    let g2 = reply_data(a2)->Some_0->State_0;
    assert(g1.drawn_numbers@ =~= g2.drawn_numbers@) by {
        assert forall|i: int| 0 <= i < g1.drawn_numbers@.len() implies g1.drawn_numbers@[i] == g2.drawn_numbers@[i] by {
            assert(g1.drawn_numbers@[i] as int == low_i8(raw1.drawn_numbers@[i]));
            assert(g2.drawn_numbers@[i] as int == low_i8(raw2.drawn_numbers@[i]));
        }
    }
}

} // verus!
