//! Requests and responses common to all exchanges, and client order ids.

use vstd::prelude::*;
use crate::networking::http::HttpResponse;
use crate::networking::websocket::WebSocketText;
use crate::text::{nat_digits, push_char, push_str, u64_to_string};
use crate::types::{
    AccountInfo, Balance, Fill, InstrumentInfo, Order, OrderSide, OrderType, Position, TopOfBook,
    Trade,
};

verus! {

#[derive(Clone, Debug)]
pub enum Request {
    GetInstrumentInfo(GetInstrumentInfoRequest),
    GetTopOfBook(GetTopOfBookRequest),
    PlaceOrder(PlaceOrderRequest),
    CancelOrder(CancelOrderRequest),
    GetOpenOrder(GetOpenOrderRequest),
    GetPosition(GetPositionRequest),
    GetBalance(GetBalanceRequest),
    GetAccountInfo(GetAccountInfoRequest),
    SubscribeTopOfBook(SubscribeTopOfBookRequest),
    SubscribeTrade(SubscribeTradeRequest),
    SubscribeOrder(SubscribeOrderRequest),
    SubscribeFill(SubscribeFillRequest),
}

/// The requests that go over REST.
pub open spec fn is_rest_request(request: Request) -> bool {
    ||| request is GetInstrumentInfo
    ||| request is GetTopOfBook
    ||| request is PlaceOrder
    ||| request is CancelOrder
    ||| request is GetOpenOrder
    ||| request is GetPosition
    ||| request is GetBalance
}

/// The REST requests that are signed: those about the account.
pub open spec fn is_private_request(request: Request) -> bool {
    ||| request is PlaceOrder
    ||| request is CancelOrder
    ||| request is GetOpenOrder
    ||| request is GetPosition
    ||| request is GetBalance
}

/// A response of the kind that answers the request.
pub open spec fn answers(request: Request, response: Response) -> bool {
    match request {
        Request::GetInstrumentInfo(_) => response is GetInstrumentInfo,
        Request::GetTopOfBook(_) => response is GetTopOfBook,
        Request::PlaceOrder(_) => response is PlaceOrder,
        Request::CancelOrder(_) => response is CancelOrder,
        Request::GetOpenOrder(_) => response is GetOpenOrder,
        Request::GetPosition(_) => response is GetPosition,
        Request::GetBalance(_) => response is GetBalance,
        Request::GetAccountInfo(_) => response is GetAccountInfo,
        _ => false,
    }
}

/// What the authentication of a websocket connection does after reading a response.
#[derive(Clone, Copy, Debug, PartialEq, Eq, Structural)]
pub enum AuthenticationStep {
    Authenticated,
    Failed,
    KeepReading,
}

/// A response that ends the authentication in failure: the connection broke or closed,
/// or the exchange answered with an error.
pub open spec fn ends_authentication_in_failure(response: Response) -> bool {
    ||| response is WebSocketWriteError
    ||| response is WebSocketReadError
    ||| response is WebSocketCloseMessage
    ||| response is WebSocketErrorResponse
}

/// The authentication succeeds on an authentication response, fails where the connection
/// broke or closed or the exchange answered with an error, and reads on otherwise.
pub fn authentication_step(response: &Response) -> (r: AuthenticationStep)
    ensures
        ends_authentication_in_failure(*response) ==> r == AuthenticationStep::Failed,
        response is Authenticate ==> r == AuthenticationStep::Authenticated,
        !ends_authentication_in_failure(*response) && !(response is Authenticate) ==> r
            == AuthenticationStep::KeepReading,
{
    match response {
        Response::WebSocketWriteError(_) | Response::WebSocketReadError(_) | Response::WebSocketCloseMessage(_) => {
            AuthenticationStep::Failed
        },
        Response::Authenticate(_) => AuthenticationStep::Authenticated,
        Response::WebSocketErrorResponse(_) => AuthenticationStep::Failed,
        _ => AuthenticationStep::KeepReading,
    }
}

/// A websocket close frame: its code and reason.
#[derive(Clone, Debug)]
pub struct CloseFrame {
    pub code: u16,
    pub reason: String,
}

/// What a request, or a message read from a websocket, comes to. Errors of the
/// transport are carried as their message text.
#[derive(Debug)]
pub enum Response {
    Empty,
    GetInstrumentInfo(GetInstrumentInfoResponse),
    GetTopOfBook(GetTopOfBookResponse),
    PlaceOrder(PlaceOrderResponse),
    CancelOrder(CancelOrderResponse),
    GetOpenOrder(GetOpenOrderResponse),
    GetPosition(GetPositionResponse),
    GetBalance(GetBalanceResponse),
    GetAccountInfo(GetAccountInfoResponse),
    HttpRequestError(String),
    HttpErrorResponse(HttpResponse),
    Authenticate(AuthenticateResponse),
    Subscribe(SubscribeResponse),
    Heartbeat(HeartbeatResponse),
    TopOfBookSubscription(TopOfBookSubscriptionData),
    TradeSubscription(TradeSubscriptionData),
    OrderSubscription(OrderSubscriptionData),
    FillSubscription(FillSubscriptionData),
    Unneeded(WebSocketText),
    WebSocketWriteError(String),
    WebSocketReadError(String),
    WebSocketPingMessage(Vec<u8>),
    WebSocketPongMessage(Vec<u8>),
    WebSocketHeartbeatMessage(WebSocketText),
    WebSocketCloseMessage(Option<CloseFrame>),
    WebSocketErrorResponse(WebSocketText),
}

#[derive(Clone, Debug)]
pub struct GetInstrumentInfoRequest {
    pub symbol: String,
    pub limit: u32,
    pub next_page_cursor: String,
}

#[derive(Clone, Debug)]
pub struct GetTopOfBookRequest {
    pub symbol: String,
}

#[derive(Clone, Debug)]
pub struct PlaceOrderRequest {
    pub symbol: String,
    pub client_order_id: String,
    pub order_type: OrderType,
    pub side: OrderSide,
    pub price: String,
    pub quantity: String,
    pub leverage: String,
}

#[derive(Clone, Debug)]
pub struct CancelOrderRequest {
    pub symbol: String,
    pub order_id: String,
    pub client_order_id: String,
}

#[derive(Clone, Debug)]
pub struct GetOpenOrderRequest {
    pub symbol: String,
    pub limit: u32,
    pub next_page_cursor: String,
}

#[derive(Clone, Debug)]
pub struct GetPositionRequest {
    pub symbol: String,
    pub settle_asset: String,
    pub limit: u32,
    pub next_page_cursor: String,
}

#[derive(Clone, Debug)]
pub struct GetBalanceRequest {
    pub asset: String,
}

#[derive(Clone, Debug)]
pub struct GetAccountInfoRequest {}

#[derive(Clone, Debug)]
pub struct SubscribeTopOfBookRequest {
    pub id: Option<u64>,
    pub symbols: Vec<String>,
}

#[derive(Clone, Debug)]
pub struct SubscribeTradeRequest {
    pub id: Option<u64>,
    pub symbols: Vec<String>,
}

#[derive(Clone, Debug)]
pub struct SubscribeOrderRequest {
    pub id: Option<u64>,
    pub symbols: Vec<String>,
}

#[derive(Clone, Debug)]
pub struct SubscribeFillRequest {
    pub id: Option<u64>,
    pub symbols: Vec<String>,
}

#[derive(Clone, Debug)]
pub struct GetInstrumentInfoResponse {
    pub data: Vec<InstrumentInfo>,
    pub next_page_cursor: String,
}

#[derive(Clone, Debug)]
pub struct GetTopOfBookResponse {
    pub data: Vec<TopOfBook>,
}

#[derive(Clone, Debug)]
pub struct PlaceOrderResponse {
    pub order_id: String,
}

#[derive(Clone, Debug)]
pub struct CancelOrderResponse {}

#[derive(Clone, Debug)]
pub struct GetOpenOrderResponse {
    pub data: Vec<Order>,
    pub next_page_cursor: String,
}

#[derive(Clone, Debug)]
pub struct GetPositionResponse {
    pub data: Vec<Position>,
    pub next_page_cursor: String,
}

#[derive(Clone, Debug)]
pub struct GetBalanceResponse {
    pub data: Vec<Balance>,
}

#[derive(Clone, Debug)]
pub struct GetAccountInfoResponse {
    pub data: Vec<AccountInfo>,
}

#[derive(Clone, Debug)]
pub struct TopOfBookSubscriptionData {
    pub data: Vec<TopOfBook>,
}

#[derive(Clone, Debug)]
pub struct TradeSubscriptionData {
    pub data: Vec<Trade>,
}

#[derive(Clone, Debug)]
pub struct OrderSubscriptionData {
    pub data: Vec<Order>,
}

#[derive(Clone, Debug)]
pub struct FillSubscriptionData {
    pub data: Vec<Fill>,
}

#[derive(Clone, Debug)]
pub struct AuthenticateResponse {
    pub id: Option<u64>,
}

#[derive(Clone, Copy, Debug, PartialEq, Eq, Structural)]
pub enum SubscribeResponseKind {
    TopOfBook,
    Trade,
    Order,
    Fill,
}

#[derive(Clone, Debug)]
pub struct SubscribeResponse {
    pub id: Option<u64>,
    pub symbols: Vec<String>,
    pub kind: Option<SubscribeResponseKind>,
}

#[derive(Clone, Debug)]
pub struct HeartbeatResponse {
    pub id: Option<u64>,
}

/// The seconds and the sequence number packed in the generator's state.
pub open spec fn state_seconds(state: u64) -> u64 {
    state >> 32u64
}

pub open spec fn state_sequence(state: u64) -> u64 {
    state & 0xffff_ffffu64
}

/// The next (seconds, sequence) pair: the sequence counts up within a second and
/// starts again at zero when the second changes.
pub open spec fn next_id_parts(state: u64, now: u64) -> (u64, u64) {
    if state_seconds(state) == now {
        (now, (state_sequence(state) + 1) as u64)
    } else {
        (now, 0)
    }
}

/// Packs seconds and sequence into the state (`(seconds << 32) | sequence`).
pub open spec fn pack_state(seconds: u64, sequence: u64) -> u64 {
    ((seconds << 32u64) | sequence) as u64
}

/// One step of the client order id generator: from the state it read and the current
/// second, the state to store and the (seconds, sequence) pair of the new id.
pub fn next_client_order_id_state(state: u64, now: u64) -> (r: (u64, u64, u64))
    ensures
        (r.1, r.2) == next_id_parts(state, now),
        r.0 == pack_state(r.1, r.2),
        r.1 == now,
{
    let last_seconds: u64 = state >> 32u64;
    let last_sequence: u64 = state & 0xffff_ffffu64;
    assert(last_sequence <= 0xffff_ffffu64) by (bit_vector)
        requires
            last_sequence == state & 0xffff_ffffu64,
    ;
    let (seconds, sequence) = if last_seconds == now {
        (now, last_sequence + 1)
    } else {
        (now, 0u64)
    };
    ((seconds << 32u64) | sequence, seconds, sequence)
}

/// The sequence number written with at least three digits, zeros in front (`{:03}`).
pub open spec fn padded3(n: nat) -> Seq<char> {
    let d = nat_digits(n);
    if d.len() >= 3 {
        d
    } else if d.len() == 2 {
        seq!['0'] + d
    } else {
        seq!['0', '0'] + d
    }
}

/// A client order id: the prefix, the seconds, then the sequence number padded to three digits.
pub open spec fn client_order_id_text(prefix: Seq<char>, seconds: u64, sequence: u64) -> Seq<char> {
    prefix + nat_digits(seconds as nat) + padded3(sequence as nat)
}

pub proof fn lemma_nat_digits_len(n: nat)
    ensures
        nat_digits(n).len() >= 1,
        n < 10 <==> nat_digits(n).len() == 1,
        n < 100 <==> nat_digits(n).len() <= 2,
    decreases n,
{
    if n >= 10 {
        lemma_nat_digits_len(n / 10);
    }
}

/// Writes a client order id after the prefix already in `client_order_id`.
pub fn write_client_order_id(client_order_id: &mut String, seconds: u64, sequence: u64)
    ensures
        final(client_order_id)@ == client_order_id_text(old(client_order_id)@, seconds, sequence),
{
    let ghost start = client_order_id@;
    let s = u64_to_string(seconds);
    push_str(client_order_id, s.as_str());
    proof {
        lemma_nat_digits_len(sequence as nat);
    }
    if sequence < 10 {
        push_char(client_order_id, '0');
        push_char(client_order_id, '0');
    } else if sequence < 100 {
        push_char(client_order_id, '0');
    }
    let q = u64_to_string(sequence);
    push_str(client_order_id, q.as_str());
    assert(client_order_id@ =~= client_order_id_text(start, seconds, sequence));
}

/// Client order ids: the exchange's prefix, the second, and a sequence number within it.
pub trait Common {
    /// The text an exchange puts in front of its client order ids.
    spec fn client_order_id_prefix(&self) -> Seq<char>;

    /// Puts the exchange's prefix in front of a client order id.
    fn prefix_client_order_id(&self, client_order_id: &mut String)
        ensures
            final(client_order_id)@ == self.client_order_id_prefix() + old(client_order_id)@,
    ;

    /// The client order id of a second and a sequence number: the prefix, the second, and
    /// the sequence number with at least three digits.
    fn client_order_id_at(&self, seconds: u64, sequence: u64) -> (r: String)
        ensures
            r@ == client_order_id_text(self.client_order_id_prefix(), seconds, sequence),
    {
        let mut client_order_id = String::new();
        self.prefix_client_order_id(&mut client_order_id);
        assert(client_order_id@ =~= self.client_order_id_prefix());
        write_client_order_id(&mut client_order_id, seconds, sequence);
        client_order_id
    }

    /// The next client order id: from the generator's state and the current second, the
    /// state to store and the id.
    fn generate_next_client_order_id_from(&self, state: u64, now: u64) -> (r: (u64, String))
        ensures
            ({
                let (seconds, sequence) = next_id_parts(state, now);
                &&& r.0 == pack_state(seconds, sequence)
                &&& r.1@ == client_order_id_text(self.client_order_id_prefix(), seconds, sequence)
            }),
    {
        let (next, seconds, sequence) = next_client_order_id_state(state, now);
        (next, self.client_order_id_at(seconds, sequence))
    }
}

/// What happened on one read of a batch of websocket messages.
#[derive(Clone, Copy, Debug, PartialEq, Eq, Structural)]
pub enum BatchReadEvent {
    /// A message was read and handled into a response.
    Handled,
    /// A message was read and its handling gave an error response.
    HandledWithError,
    /// The read failed.
    ReadError,
    /// No further message was ready without waiting.
    NothingReady,
}

/// Whether a batch read goes on after an event: only after a message handled into a
/// response; an error, a failed read or an empty queue ends the batch (the response of
/// the event, where it has one, is the batch's last).
pub fn batch_read_continues(event: BatchReadEvent) -> (r: bool)
    ensures
        r == (event == BatchReadEvent::Handled),
{
    match event {
        BatchReadEvent::Handled => true,
        _ => false,
    }
}

} // verus!
