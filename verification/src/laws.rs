//! Properties that span several functions of the library: what one call undoes of
//! another, what a stored state gives back, and how a message is classified once it is
//! summarized.

use vstd::prelude::*;
use vstd::utf8::encode_utf8;
use crate::exchange_client::common::{next_id_parts, pack_state, state_seconds, state_sequence};
use crate::exchange_client::common::{CancelOrderRequest, Response};
use crate::exchanges::binance_usds_margined_futures::common::BinanceUsdsMarginedFuturesClient;
use crate::exchanges::binance_usds_margined_futures::rest::ticker_documents;
use crate::exchanges::bybit::common::BybitClient;
use crate::exchanges::bybit::websocket::{bybit_data_items, bybit_subscribe_text};
use crate::json::{field_str, prefixed_strings_text, spec_as_str, spec_at};
use crate::networking::http::{payload_or_empty, query_or_empty, HttpMethod, HttpRequest, HttpResponse};
use crate::signing::{
    base64_standard, hex_text, hmac_sha256_crate_tag, hmac_sha256_tag, hmac_sha512_tag, pair_views,
    rsa_pss_sha256_verifies, sha512_digest, url_host, url_path,
};
use crate::exchanges::bitget::common::BitgetClient;
use crate::exchanges::bitstamp::common::BitstampClient;
use crate::exchanges::coinbase::common::{coinbase_secret_key, CoinbaseClient};
use crate::exchanges::gateio_perpetual_futures::common::GateioPerpetualFuturesClient;
use crate::exchanges::gateio_spot_and_margin::common::GateioSpotAndMarginClient;
use crate::exchanges::kalshi::rest::kalshi_signed;
use crate::networking::http::{method_text, opt_view};
use crate::text::trim_end_matches;
use crate::time::millis_of;
use crate::types::Timestamp;
use crate::exchanges::bitget::common::{bitget_order_type_of, bitget_order_type_text, bitget_side_of, bitget_side_text};
use crate::exchanges::bybit::common::{bybit_order_type_of, bybit_order_type_text, bybit_side_of, bybit_side_text};
use crate::exchanges::coinbase::common::{
    coinbase_order_type_of, coinbase_order_type_text, coinbase_side_of, coinbase_side_text,
};
use crate::exchanges::gateio_perpetual_futures::common::{
    gate_order_type_of_tif, gate_side_of_size, gate_signed_size, gate_tif_text,
};
use crate::exchanges::gateio_spot_and_margin::common::{
    gate_spot_order_type_of, gate_spot_order_type_text, gate_spot_side_of, gate_spot_side_text,
};
use crate::text::{all_digits, digits_value, int_text, is_digit, nat_digits, parse_i64_spec, parse_u64_spec};
use crate::exchanges::bitget::websocket::{bitget_is_data, bitget_is_success, bitget_summarized};
use crate::networking::websocket::WebSocketText;
use crate::types::{OrderSide, OrderType, TakerSide};

verus! {

/// A side written out for Bitget reads back as the same side.
pub proof fn law_bitget_side_round_trip(side: OrderSide)
    requires
        side != OrderSide::Unknown,
    ensures
        bitget_side_of(bitget_side_text(side)) == side,
{
    reveal_strlit("buy");
    reveal_strlit("sell");
    assert("buy"@.len() != "sell"@.len());
}

/// An order type written out for Bitget reads back as the same type.
pub proof fn law_bitget_order_type_round_trip(t: OrderType)
    requires
        t != OrderType::Unknown,
    ensures
        bitget_order_type_of(bitget_order_type_text(t)) == t,
{
    reveal_strlit("market");
    reveal_strlit("limit");
    assert("market"@.len() != "limit"@.len());
}

/// A side written out for Bybit reads back as the same side.
pub proof fn law_bybit_side_round_trip(side: OrderSide)
    requires
        side != OrderSide::Unknown,
    ensures
        bybit_side_of(bybit_side_text(side)) == side,
{
    reveal_strlit("Buy");
    reveal_strlit("Sell");
    assert("Buy"@.len() != "Sell"@.len());
}

/// An order type written out for Bybit reads back as the same type.
pub proof fn law_bybit_order_type_round_trip(t: OrderType)
    requires
        t != OrderType::Unknown,
    ensures
        bybit_order_type_of(bybit_order_type_text(t)) == t,
{
    reveal_strlit("Market");
    reveal_strlit("Limit");
    assert("Market"@.len() != "Limit"@.len());
}

/// A side written out for Coinbase reads back as the same side.
pub proof fn law_coinbase_side_round_trip(side: OrderSide)
    requires
        side != OrderSide::Unknown,
    ensures
        coinbase_side_of(coinbase_side_text(side)) == side,
{
    reveal_strlit("buy");
    reveal_strlit("sell");
    assert("buy"@.len() != "sell"@.len());
}

/// An order type written out for Coinbase reads back as the same type.
pub proof fn law_coinbase_order_type_round_trip(t: OrderType)
    requires
        t != OrderType::Unknown,
    ensures
        coinbase_order_type_of(coinbase_order_type_text(t)) == t,
{
    reveal_strlit("market");
    reveal_strlit("limit");
    assert("market"@.len() != "limit"@.len());
}

/// A side written out for Gate.io spot reads back as the same side.
pub proof fn law_gateio_spot_side_round_trip(side: OrderSide)
    requires
        side != OrderSide::Unknown,
    ensures
        gate_spot_side_of(gate_spot_side_text(side)) == side,
{
    reveal_strlit("buy");
    reveal_strlit("sell");
    assert("buy"@.len() != "sell"@.len());
}

/// An order type written out for Gate.io spot reads back as the same type.
pub proof fn law_gateio_spot_order_type_round_trip(t: OrderType)
    requires
        t != OrderType::Unknown,
    ensures
        gate_spot_order_type_of(gate_spot_order_type_text(t)) == t,
{
    reveal_strlit("market");
    reveal_strlit("limit");
    assert("market"@.len() != "limit"@.len());
}

/// The size Gate.io futures is sent for a side and a positive quantity gives the side back.
pub proof fn law_gateio_signed_size_keeps_side(side: OrderSide, quantity: i64)
    requires
        side != OrderSide::Unknown,
        quantity > 0,
    ensures
        gate_side_of_size(gate_signed_size(side, quantity)) == side,
{
}

/// The time in force that Gate.io futures is sent for an order type reads back as that type.
pub proof fn law_gateio_tif_round_trip(t: OrderType)
    requires
        t != OrderType::Unknown,
    ensures
        gate_order_type_of_tif(gate_tif_text(t)) == t,
{
    reveal_strlit("gtc");
    reveal_strlit("ioc");
    reveal_strlit("poc");
    reveal_strlit("fok");
    assert("gtc"@[0] != "ioc"@[0] && "gtc"@[0] != "poc"@[0] && "gtc"@[0] != "fok"@[0]);
    assert("ioc"@[0] != "poc"@[0] && "ioc"@[0] != "fok"@[0]);
}

/// The generator's state gives back the second and the sequence number packed into it.
pub proof fn law_client_order_id_state_round_trip(seconds: u64, sequence: u64)
    requires
        seconds < 0x1_0000_0000,
        sequence < 0x1_0000_0000,
    ensures
        state_seconds(pack_state(seconds, sequence)) == seconds,
        state_sequence(pack_state(seconds, sequence)) == sequence,
{
    assert((((seconds << 32u64) | sequence) as u64) >> 32u64 == seconds) by (bit_vector)
        requires
            seconds < 0x1_0000_0000,
            sequence < 0x1_0000_0000,
    ;
    assert((((seconds << 32u64) | sequence) as u64) & 0xffff_ffffu64 == sequence) by (bit_vector)
        requires
            seconds < 0x1_0000_0000,
            sequence < 0x1_0000_0000,
    ;
}

/// Two ids made one after the other within the same second carry successive sequence
/// numbers; the first id of a new second has sequence number zero.
pub proof fn law_client_order_ids_count_up_within_a_second(state: u64, now: u64)
    requires
        now < 0x1_0000_0000,
        state_sequence(state) + 2 < 0x1_0000_0000,
    ensures
        ({
            let (s1, q1) = next_id_parts(state, now);
            let (s2, q2) = next_id_parts(pack_state(s1, q1), now);
            &&& s1 == now && s2 == now
            &&& q2 == q1 + 1
            &&& state_seconds(state) != now ==> q1 == 0
        }),
{
    let (s1, q1) = next_id_parts(state, now);
    assert(q1 < 0x1_0000_0000);
    law_client_order_id_state_round_trip(s1, q1);
}

/// The (seconds, sequence) pairs of the ids that a series of calls makes, one call per
/// clock reading, starting from a stored state.
pub open spec fn client_order_id_series(state: u64, clocks: Seq<u64>) -> Seq<(u64, u64)>
    decreases clocks.len(),
{
    if clocks.len() == 0 {
        Seq::empty()
    } else {
        let p = next_id_parts(state, clocks[0]);
        seq![p] + client_order_id_series(pack_state(p.0, p.1), clocks.drop_first())
    }
}

/// Pairs ordered by seconds, then by sequence number.
pub open spec fn id_pair_before(a: (u64, u64), b: (u64, u64)) -> bool {
    a.0 < b.0 || (a.0 == b.0 && a.1 < b.1)
}

/// One call whose clock is not behind the stored second gives a pair after the stored one.
proof fn lemma_next_id_after_state(state: u64, now: u64)
    requires
        state_seconds(state) <= now,
        state_sequence(state) + 1 < 0x1_0000_0000,
    ensures
        id_pair_before((state_seconds(state), state_sequence(state)), next_id_parts(state, now)),
        next_id_parts(state, now).1 <= state_sequence(state) + 1,
{
}

/// Whether no second of a series of calls holds so many ids that the sequence number would
/// pass 2^32 - 2: fewer than 2^32 - 1 ids per second, counting from the stored sequence
/// number for the stored second.
pub open spec fn sequences_fit(state: u64, clocks: Seq<u64>) -> bool
    decreases clocks.len(),
{
    if clocks.len() == 0 {
        true
    } else {
        let p = next_id_parts(state, clocks[0]);
        p.1 + 1 < 0x1_0000_0000 && sequences_fit(pack_state(p.0, p.1), clocks.drop_first())
    }
}

/// Over a series of calls whose clock never goes back (in whole seconds, below 2^32,
/// with fewer than 2^32 - 1 ids in any one second), every id's (seconds, sequence) pair
/// comes after the ones before it, so no two ids of the series share a pair.
pub proof fn law_client_order_ids_are_distinct(state: u64, clocks: Seq<u64>)
    requires
        forall|i: int, j: int| 0 <= i <= j < clocks.len() ==> clocks[i] <= clocks[j],
        forall|i: int| 0 <= i < clocks.len() ==> clocks[i] < 0x1_0000_0000,
        clocks.len() > 0 ==> state_seconds(state) <= clocks[0],
        state_sequence(state) + 1 < 0x1_0000_0000,
        sequences_fit(state, clocks),
    ensures
        client_order_id_series(state, clocks).len() == clocks.len(),
        forall|i: int, j: int|
            0 <= i < j < clocks.len() ==> id_pair_before(
                #[trigger] client_order_id_series(state, clocks)[i],
                #[trigger] client_order_id_series(state, clocks)[j],
            ),
        forall|i: int, j: int|
            0 <= i < j < clocks.len() ==> client_order_id_series(state, clocks)[i] != client_order_id_series(
                state,
                clocks,
            )[j],
    decreases clocks.len(),
{
    if clocks.len() > 0 {
        let p = next_id_parts(state, clocks[0]);
        lemma_next_id_after_state(state, clocks[0]);
        let next_state = pack_state(p.0, p.1);
        law_client_order_id_state_round_trip(p.0, p.1);
        let rest = clocks.drop_first();
        law_client_order_ids_are_distinct(next_state, rest);
        let tail = client_order_id_series(next_state, rest);
        let all = client_order_id_series(state, clocks);
        assert(all == seq![p] + tail);
        if rest.len() > 0 {
            lemma_next_id_after_state(next_state, rest[0]);
            assert(tail[0] == next_id_parts(next_state, rest[0]));
            assert(id_pair_before(p, tail[0]));
        }
        assert forall|i: int, j: int| 0 <= i < j < clocks.len() implies id_pair_before(
            #[trigger] all[i],
            #[trigger] all[j],
        ) by {
            if i == 0 {
                assert(all[0] == p);
                assert(all[j] == tail[j - 1]);
                if j - 1 > 0 {
                    assert(id_pair_before(tail[0], tail[j - 1]));
                }
            } else {
                assert(all[i] == tail[i - 1]);
                assert(all[j] == tail[j - 1]);
            }
        }
    }
}

/// Decimal digits read back as the number they were written from.
pub proof fn lemma_nat_digits_value(n: nat)
    ensures
        all_digits(nat_digits(n)),
        digits_value(nat_digits(n)) == n,
        nat_digits(n).len() >= 1,
    decreases n,
{
    let k = n % 10;
    let c = crate::text::digit_char(k);
    assert((c as u32) == 48 + k);
    if n < 10 {
        let d = nat_digits(n);
        assert(d.drop_last() =~= Seq::<char>::empty());
        assert(d.last() == c);
        assert(digits_value(d.drop_last()) == 0);
        assert(digits_value(d) == digits_value(d.drop_last()) * 10 + ((d.last() as u32) - 48) as nat);
    } else {
        lemma_nat_digits_value(n / 10);
        let d = nat_digits(n);
        assert(d.drop_last() =~= nat_digits(n / 10));
        assert(d.last() == c);
        assert(digits_value(d) == digits_value(d.drop_last()) * 10 + ((d.last() as u32) - 48) as nat);
        assert(n == (n / 10) * 10 + k);
        assert forall|i: int| 0 <= i < d.len() implies is_digit(d[i]) by {
            if i < d.len() - 1 {
                assert(d[i] == nat_digits(n / 10)[i]);
            }
        }
    }
}

/// Writing an unsigned integer out and reading it back gives the integer.
pub proof fn law_u64_text_round_trip(n: u64)
    ensures
        parse_u64_spec(nat_digits(n as nat)) == Some(n),
{
    lemma_nat_digits_value(n as nat);
    let d = nat_digits(n as nat);
    if d.len() > 0 && d[0] == '+' {
        assert(is_digit(d[0]));
    }
}

/// Writing a signed integer out and reading it back gives the integer.
pub proof fn law_i64_text_round_trip(n: i64)
    ensures
        parse_i64_spec(int_text(n as int)) == Some(n),
{
    if n < 0 {
        let m = (-(n as int)) as nat;
        lemma_nat_digits_value(m);
        let t = int_text(n as int);
        assert(t.drop_first() =~= nat_digits(m));
    } else {
        lemma_nat_digits_value(n as nat);
        let d = nat_digits(n as nat);
        assert(is_digit(d[0]));
    }
}

/// No Bitget message is both subscription data and an acknowledgement.
pub proof fn law_bitget_data_is_not_an_acknowledgement(t: WebSocketText)
    ensures
        !(bitget_is_data(t) && bitget_is_success(t)),
{
}

/// Once summarized, Bitget's "pong" is an acknowledgement and not subscription data.
pub proof fn law_bitget_pong_is_acknowledged(before: WebSocketText, after: WebSocketText)
    requires
        bitget_summarized(before, after),
        before.text@ == "pong"@,
    ensures
        after.summary("op"@) == Some("pong"@),
        bitget_is_success(after),
        !bitget_is_data(after),
{
}

/// Bybit signs the time, then the API key, then the receive window in decimal, then the
/// body of a POST or the query of a GET, nothing else and in that order: the
/// "x-bapi-sign" header of a signed request is the hex HMAC-SHA256 of that text under
/// the API secret.
pub proof fn law_bybit_signature_covers_time_key_window_params(
    client: BybitClient,
    o: HttpRequest,
    n: HttpRequest,
    timestamp: Seq<char>,
)
    requires
        client.credential is Some,
        client.signed_http_request(o, n, timestamp),
    ensures
        n.headers.spec_get("x-bapi-sign"@) == Some(hex_text(hmac_sha256_crate_tag(
            encode_utf8(client.credential->0.api_secret@),
            encode_utf8(
                timestamp + client.credential->0.api_key@ + int_text(client.api_receive_window_milliseconds as int)
                    + if o.method == HttpMethod::Post {
                    payload_or_empty(o)
                } else if o.method == HttpMethod::Get {
                    query_or_empty(o)
                } else {
                    Seq::empty()
                },
            ),
        ))),
{
}

/// A public Bybit trade whose "S" is "Buy" was taken by a buyer and one whose "S" is
/// "Sell" by a seller; with any other "S" the taker's side is unknown.
pub proof fn law_bybit_trade_side_follows_s(client: BybitClient, t: WebSocketText, r: Response)
    requires
        client.trade_data(t, r),
    ensures
        r matches Response::TradeSubscription(d) && forall|i: int| 0 <= i < d.data@.len() ==> {
            let s = spec_as_str(spec_at(bybit_data_items(t)[i], "S"@));
            &&& s == Some("Buy"@) ==> #[trigger] d.data@[i].side == TakerSide::Buy
            &&& s == Some("Sell"@) ==> d.data@[i].side == TakerSide::Sell
            &&& s != Some("Buy"@) && s != Some("Sell"@) ==> d.data@[i].side == TakerSide::Unknown
        },
{
    reveal_strlit("Buy");
    reveal_strlit("Sell");
    assert("Buy"@.len() != "Sell"@.len());
}

/// A Binance USD-M book ticker's bid price and size are its "bidPrice" and "bidQty", its
/// ask price and size its "askPrice" and "askQty".
pub proof fn law_binance_usds_ticker_bid_and_ask(client: BinanceUsdsMarginedFuturesClient, resp: HttpResponse, r: Response)
    requires
        client.top_of_book_response(resp, r),
    ensures
        r matches Response::GetTopOfBook(g) && forall|i: int| 0 <= i < g.data@.len() ==> {
            let v = ticker_documents(resp.json_payload->0)[i];
            &&& (#[trigger] g.data@[i]).bid_price@ == field_str(v, "bidPrice"@)
            &&& g.data@[i].bid_size@ == field_str(v, "bidQty"@)
            &&& g.data@[i].ask_price@ == field_str(v, "askPrice"@)
            &&& g.data@[i].ask_size@ == field_str(v, "askQty"@)
        },
{
}

/// A Binance USD-M cancellation is a DELETE of /fapi/v1/order whose query is the symbol,
/// then the exchange's order id as "orderId" where one is given, else the client order
/// id as "origClientOrderId" where that is given.
pub proof fn law_binance_usds_cancel_names_the_order(
    client: BinanceUsdsMarginedFuturesClient,
    req: CancelOrderRequest,
    r: HttpRequest,
)
    requires
        client.cancel_order_http_request(req, r),
    ensures
        r.method == HttpMethod::Delete,
        r.path@ == "/fapi/v1/order"@,
        req.order_id@.len() != 0 ==> (r.query_params matches Some(p) && pair_views(p@) == seq![
            ("symbol"@, req.symbol@),
            ("orderId"@, req.order_id@),
        ]),
        req.order_id@.len() == 0 && req.client_order_id@.len() != 0 ==> (r.query_params matches Some(p) && pair_views(p@)
            == seq![("symbol"@, req.symbol@), ("origClientOrderId"@, req.client_order_id@)]),
        req.order_id@.len() == 0 && req.client_order_id@.len() == 0 ==> (r.query_params matches Some(p) && pair_views(p@)
            == seq![("symbol"@, req.symbol@)]),
{
    let a = seq![("symbol"@, req.symbol@)];
    assert(a.push(("orderId"@, req.order_id@)) =~= seq![("symbol"@, req.symbol@), ("orderId"@, req.order_id@)]);
    assert(a.push(("origClientOrderId"@, req.client_order_id@)) =~= seq![
        ("symbol"@, req.symbol@),
        ("origClientOrderId"@, req.client_order_id@),
    ]);
}

/// A Bybit subscription is `{"args":[` and the quoted topics, then `],"op":"subscribe"`,
/// and it ends with `}`; with no request id nothing stands between the two.
pub proof fn law_bybit_subscription_subscribes(prefix: Seq<char>, symbols: Seq<String>, id: Option<u64>, r: Seq<char>)
    requires
        r == bybit_subscribe_text(prefixed_strings_text(prefix, symbols), id),
    ensures
        ({
            let topics = prefixed_strings_text(prefix, symbols);
            let head = "{\"args\":["@;
            let op = "],\"op\":\"subscribe\""@;
            let (h, t, o) = (head.len() as int, topics.len() as int, op.len() as int);
            &&& r.subrange(0, h) == head
            &&& r.subrange(h, h + t) == topics
            &&& r.subrange(h + t, h + t + o) == op
            &&& r.last() == '}'
            &&& id is None ==> r.len() == h + t + o + 1
        }),
{
    let topics = prefixed_strings_text(prefix, symbols);
    let head = "{\"args\":["@;
    let op = "],\"op\":\"subscribe\""@;
    let tail: Seq<char> = match id {
        Some(n) => ",\"req_id\":"@ + crate::json::quoted(nat_digits(n as nat)),
        None => Seq::empty(),
    };
    reveal_strlit("}");
    assert(r == head + topics + op + tail + "}"@);
    let (h, t, o) = (head.len() as int, topics.len() as int, op.len() as int);
    assert(r.subrange(0, h) =~= head);
    assert(r.subrange(h, h + t) =~= topics);
    assert(r.subrange(h + t, h + t + o) =~= op);
}

/// The methods are written in capitals: "GET", "POST", "PUT" and "DELETE".
pub proof fn law_http_method_names()
    ensures
        method_text(HttpMethod::Get) == "GET"@,
        method_text(HttpMethod::Post) == "POST"@,
        method_text(HttpMethod::Put) == "PUT"@,
        method_text(HttpMethod::Delete) == "DELETE"@,
{
}

/// Bitget signs the time, the method, the path (followed by "?" and the query for a GET
/// with one) and the body of a POST: "access-sign" is the Base64 HMAC-SHA256 of that
/// text under the API secret, and "access-key", "access-timestamp" and
/// "access-passphrase" carry the key, the time and the passphrase.
pub proof fn law_bitget_signature(client: BitgetClient, o: HttpRequest, n: HttpRequest, timestamp: Seq<char>)
    requires
        client.credential is Some,
        client.signed_http_request(o, n, timestamp),
    ensures
        ({
            let c = client.credential->0;
            let path = if o.method == HttpMethod::Get && o.query_string is Some {
                o.path@ + "?"@ + o.query_string->0@
            } else {
                o.path@
            };
            let body = if o.method == HttpMethod::Post { opt_view(o.payload).unwrap_or(Seq::empty()) } else { Seq::empty() };
            &&& n.headers.spec_get("access-sign"@) == Some(base64_standard(hmac_sha256_crate_tag(
                encode_utf8(c.api_secret@),
                encode_utf8(timestamp + method_text(o.method) + path + body),
            )))
            &&& n.headers.spec_get("access-key"@) == Some(c.api_key@)
            &&& n.headers.spec_get("access-timestamp"@) == Some(timestamp)
            &&& n.headers.spec_get("access-passphrase"@) == Some(c.passphrase@)
        }),
{
}

/// Coinbase signs the time, the method, the path with its query, and the body of a POST
/// or a DELETE: "cb-access-sign" is the Base64 HMAC-SHA256 of that text under the
/// decoded secret.
pub proof fn law_coinbase_signature(client: CoinbaseClient, o: HttpRequest, n: HttpRequest, timestamp: Seq<char>)
    requires
        client.credential is Some,
        client.signed_http_request(o, n, timestamp),
    ensures
        ({
            let c = client.credential->0;
            let path = if o.query_string is Some { o.path@ + "?"@ + o.query_string->0@ } else { o.path@ };
            let body = if o.method == HttpMethod::Post || o.method == HttpMethod::Delete {
                payload_or_empty(o)
            } else {
                Seq::empty()
            };
            &&& n.headers.spec_get("cb-access-sign"@) == Some(base64_standard(hmac_sha256_crate_tag(
                coinbase_secret_key(c)->0,
                encode_utf8(timestamp + method_text(o.method) + path + body),
            )))
            &&& n.headers.spec_get("cb-access-key"@) == Some(c.api_key@)
            &&& n.headers.spec_get("cb-access-timestamp"@) == Some(timestamp)
            &&& n.headers.spec_get("cb-access-passphrase"@) == Some(c.api_passphrase@)
        }),
{
}

/// Gate.io perpetual futures sign, a line each, the method, the base URL's path without
/// trailing slashes followed by the request's path, the query, the hex SHA-512 of the
/// body of a POST, and the time: "sign" is the hex HMAC-SHA512 of that text.
pub proof fn law_gateio_perpetual_signature(
    client: GateioPerpetualFuturesClient,
    o: HttpRequest,
    n: HttpRequest,
    timestamp: Seq<char>,
)
    requires
        client.credential is Some,
        client.signed_http_request(o, n, timestamp),
    ensures
        ({
            let c = client.credential->0;
            let path = trim_end_matches(url_path(client.rest_api_base_url@)->0, "/"@) + o.path@;
            let body = if o.method == HttpMethod::Post { payload_or_empty(o) } else { Seq::empty() };
            &&& n.headers.spec_get("sign"@) == Some(hex_text(hmac_sha512_tag(
                encode_utf8(c.api_secret@),
                encode_utf8(method_text(o.method) + "\n"@ + path + "\n"@ + query_or_empty(o) + "\n"@ + hex_text(
                    sha512_digest(encode_utf8(body)),
                ) + "\n"@ + timestamp),
            )))
            &&& n.headers.spec_get("key"@) == Some(c.api_key@)
            &&& n.headers.spec_get("timestamp"@) == Some(timestamp)
        }),
{
}

/// Gate.io spot signs as its perpetual futures do: method, signed path, query, hex
/// SHA-512 of the body of a POST, and time, a line each, under HMAC-SHA512.
pub proof fn law_gateio_spot_signature(client: GateioSpotAndMarginClient, o: HttpRequest, n: HttpRequest, timestamp: Seq<char>)
    requires
        client.credential is Some,
        client.signed_http_request(o, n, timestamp),
    ensures
        ({
            let c = client.credential->0;
            let path = trim_end_matches(url_path(client.rest_api_base_url@)->0, "/"@) + o.path@;
            let body = if o.method == HttpMethod::Post { payload_or_empty(o) } else { Seq::empty() };
            &&& n.headers.spec_get("sign"@) == Some(hex_text(hmac_sha512_tag(
                encode_utf8(c.api_secret@),
                encode_utf8(method_text(o.method) + "\n"@ + path + "\n"@ + query_or_empty(o) + "\n"@ + hex_text(
                    sha512_digest(encode_utf8(body)),
                ) + "\n"@ + timestamp),
            )))
            &&& n.headers.spec_get("key"@) == Some(c.api_key@)
            &&& n.headers.spec_get("timestamp"@) == Some(timestamp)
        }),
{
}

/// A signed Binance USD-M request's query is its own query, then "recvWindow" and
/// "timestamp", then "signature": the Base64 Ed25519 signature of all that comes before.
pub proof fn law_binance_usds_signature(
    client: BinanceUsdsMarginedFuturesClient,
    o: HttpRequest,
    n: HttpRequest,
    timestamp: Seq<char>,
)
    requires
        client.credential is Some,
        client.signed_http_request(o, n, timestamp),
    ensures
        ({
            let c = client.credential->0;
            let q = opt_view(o.query_string).unwrap_or(Seq::empty());
            let tail = "recvWindow="@ + int_text(client.recv_window as int) + "&timestamp="@ + timestamp;
            let params = if q.len() == 0 { tail } else { q + "&"@ + tail };
            &&& opt_view(n.query_string) == Some(
                params + "&signature="@ + base64_standard(crate::signing::ed25519_signature(c.secret_key@, encode_utf8(params))),
            )
            &&& n.headers.spec_get("x-mbx-apikey"@) == Some(c.api_key@)
        }),
{
}

/// Bitstamp signs "BITSTAMP " and the key, the method, the host, the path, the query,
/// the content type where there is a body, the nonce, the time, "v2" and the body:
/// "x-auth-signature" is the hex HMAC-SHA256 of that text.
pub proof fn law_bitstamp_signature(client: BitstampClient, o: HttpRequest, n: HttpRequest, now: Timestamp)
    requires
        client.credential is Some,
        client.signed_http_request(o, n, now),
    ensures
        ({
            let c = client.credential->0;
            let body = payload_or_empty(o);
            let content_type = if body.len() == 0 { Seq::empty() } else { "application/x-www-form-urlencoded"@ };
            &&& n.headers.spec_get("x-auth"@) == Some("BITSTAMP "@ + c.api_key@)
            &&& n.headers.spec_get("x-auth-version"@) == Some("v2"@)
            &&& n.headers.spec_get("x-auth-signature"@) == Some(hex_text(hmac_sha256_tag(
                encode_utf8(c.api_secret@),
                encode_utf8("BITSTAMP "@ + c.api_key@ + method_text(o.method) + url_host(client.rest_api_base_url@)->0
                    + o.path@ + query_or_empty(o) + content_type + n.headers.spec_get("x-auth-nonce"@)->0 + int_text(
                    millis_of(now),
                ) + "v2"@ + body),
            )))
        }),
{
}

/// Kalshi's signature covers the time, the method and the path (the base URL's path
/// without trailing slashes, then the request's): the key's verifier accepts it for that
/// text.
pub proof fn law_kalshi_signature(o: HttpRequest, n: HttpRequest, api_key: Seq<char>, pem: Seq<u8>, timestamp: Seq<char>)
    requires
        kalshi_signed(o, n, api_key, pem, timestamp),
    ensures
        n.headers.spec_get("kalshi-access-key"@) == Some(api_key),
        n.headers.spec_get("kalshi-access-timestamp"@) == Some(timestamp),
        n.headers.spec_get("kalshi-access-signature"@) matches Some(s) && exists|sig: Seq<u8>| s == #[trigger] base64_standard(sig)
            && rsa_pss_sha256_verifies(
            pem,
            encode_utf8(timestamp + method_text(o.method) + match url_path(o.base_url@) {
                Some(p) => trim_end_matches(p, "/"@),
                None => Seq::empty(),
            } + o.path@),
            sig,
        ),
{
    let sp = match url_path(o.base_url@) {
        Some(p) => trim_end_matches(p, "/"@),
        None => Seq::empty(),
    };
    assert(timestamp + method_text(o.method) + (sp + o.path@) =~= timestamp + method_text(o.method) + sp + o.path@);
    let s = n.headers.spec_get("kalshi-access-signature"@)->0;
    let sig = choose|sig: Seq<u8>| s == #[trigger] base64_standard(sig) && rsa_pss_sha256_verifies(
        pem,
        encode_utf8(crate::exchanges::kalshi::common::kalshi_signed_message(
            timestamp,
            method_text(o.method),
            crate::exchanges::kalshi::rest::kalshi_sign_path(o.base_url@, o.path@),
        )),
        sig,
    );
    assert(s == base64_standard(sig));
}

} // verus!
