//! What the websocket messages the library writes ask for: the words that make a
//! subscription, a heartbeat or a login, whatever the channels, symbols and keys, and
//! what a login signs.

use vstd::prelude::*;
use crate::exchanges::binance_usds_margined_futures::websocket::binance_subscribe_text;
use crate::exchanges::bitget::websocket::bitget_subscribe_text;
use crate::exchanges::bitstamp::websocket::{private_subscription_text, public_subscription_text};
use crate::exchanges::coinbase::common::coinbase_subscribe_text;
use crate::exchanges::gateio_perpetual_futures::websocket::{gate_private_subscription_text, gate_public_subscription_text};
use crate::json::quoted;
use crate::text::int_text;
use crate::exchanges::bybit::websocket::{bybit_auth_sign, bybit_auth_text, bybit_ping_text};
use crate::exchanges::gateio_perpetual_futures::common::{gate_ws_sign, GateioPerpetualFuturesCredential};
use crate::signing::{hex_text, hmac_sha256_tag, hmac_sha512_tag};
use vstd::utf8::encode_utf8;

verus! {

/// The text `t` stands in `s` from position `i` on.
pub open spec fn text_at(s: Seq<char>, i: int, t: Seq<char>) -> bool {
    0 <= i && i + t.len() <= s.len() && s.subrange(i, i + t.len()) == t
}

/// The text `s` ends with `t`.
pub open spec fn ends_with_text(s: Seq<char>, t: Seq<char>) -> bool {
    text_at(s, s.len() - t.len(), t)
}

proof fn lemma_text_between(a: Seq<char>, t: Seq<char>, c: Seq<char>)
    ensures
        text_at(a + t + c, a.len() as int, t),
{
    assert((a + t + c).subrange(a.len() as int, (a.len() + t.len()) as int) =~= t);
}

proof fn lemma_text_last(a: Seq<char>, t: Seq<char>)
    ensures
        ends_with_text(a + t, t),
{
    assert((a + t).subrange(a.len() as int, (a.len() + t.len()) as int) =~= t);
}

/// A Binance subscription calls the method "SUBSCRIBE" with the streams as its params:
/// `"method":"SUBSCRIBE","params":[` stands in it, followed by the streams, and it ends
/// with `]}`.
pub proof fn law_binance_subscription_subscribes(id: Option<u64>, streams: Seq<char>, r: Seq<char>)
    requires
        r == binance_subscribe_text(id, streams),
    ensures
        exists|i: int| #[trigger] text_at(r, i, "\"method\":\"SUBSCRIBE\",\"params\":["@)
            && text_at(r, i + "\"method\":\"SUBSCRIBE\",\"params\":["@.len(), streams),
        ends_with_text(r, "]}"@),
{
    let head = match id {
        Some(n) => "{\"id\":"@ + crate::text::nat_digits(n as nat) + ","@,
        None => "{"@,
    };
    let m = "\"method\":\"SUBSCRIBE\",\"params\":["@;
    assert(r =~= head + m + (streams + "]}"@));
    lemma_text_between(head, m, streams + "]}"@);
    assert(r =~= (head + m) + streams + "]}"@);
    lemma_text_between(head + m, streams, "]}"@);
    lemma_text_last(head + m + streams, "]}"@);
    assert(text_at(r, head.len() as int, m));
}

/// A Bitget subscription starts `{"args":[`, then the arguments, and ends
/// `],"op":"subscribe"}`.
pub proof fn law_bitget_subscription_subscribes(args: Seq<char>, r: Seq<char>)
    requires
        r == bitget_subscribe_text(args),
    ensures
        text_at(r, 0, "{\"args\":["@),
        text_at(r, "{\"args\":["@.len() as int, args),
        ends_with_text(r, "],\"op\":\"subscribe\"}"@),
{
    let head = "{\"args\":["@;
    let tail = "],\"op\":\"subscribe\"}"@;
    lemma_text_between(Seq::empty(), head, args + tail);
    assert(Seq::<char>::empty() + head + (args + tail) =~= r);
    lemma_text_between(head, args, tail);
    lemma_text_last(head + args, tail);
}

/// A Coinbase subscription names the channel first (`{"channels":[{"name":` and the
/// quoted channel) and ends with `,"type":"subscribe"}`.
pub proof fn law_coinbase_subscription_subscribes(channel: Seq<char>, product_ids: Seq<String>, auth: Seq<char>, r: Seq<char>)
    requires
        r == coinbase_subscribe_text(channel, product_ids, auth),
    ensures
        text_at(r, 0, "{\"channels\":[{\"name\":"@),
        text_at(r, "{\"channels\":[{\"name\":"@.len() as int, quoted(channel)),
        ends_with_text(r, ",\"type\":\"subscribe\"}"@),
{
    let head = "{\"channels\":[{\"name\":"@;
    let tail = ",\"type\":\"subscribe\"}"@;
    let rest = ",\"product_ids\":["@ + crate::json::prefixed_strings_text(Seq::empty(), product_ids) + "]}]"@ + auth;
    assert(r =~= head + quoted(channel) + rest + tail);
    lemma_text_last(head + quoted(channel) + rest, tail);
    assert(r =~= Seq::<char>::empty() + head + (quoted(channel) + rest + tail));
    lemma_text_between(Seq::empty(), head, quoted(channel) + rest + tail);
    assert(r =~= head + quoted(channel) + (rest + tail));
    lemma_text_between(head, quoted(channel), rest + tail);
}

/// A Bitstamp subscription, public or private, ends with `},"event":"bts:subscribe"}`
/// and names its channel.
pub proof fn law_bitstamp_subscription_subscribes(channel: Seq<char>, token: Seq<char>, public: Seq<char>, private: Seq<char>)
    requires
        public == public_subscription_text(channel),
        private == private_subscription_text(channel, token),
    ensures
        ends_with_text(public, "},\"event\":\"bts:subscribe\"}"@),
        ends_with_text(private, "},\"event\":\"bts:subscribe\"}"@),
        text_at(public, "{\"data\":{\"channel\":"@.len() as int, quoted(channel)),
{
    let tail = "},\"event\":\"bts:subscribe\"}"@;
    let head = "{\"data\":{\"channel\":"@;
    lemma_text_last(head + quoted(channel), tail);
    lemma_text_between(head, quoted(channel), tail);
    lemma_text_last("{\"data\":{\"auth\":"@ + quoted(token) + ",\"channel\":"@ + quoted(channel), tail);
}

/// A Gate.io futures subscription, public or private, carries `"event":"subscribe"`
/// right after its channel (public) or with the payload for everything (private).
pub proof fn law_gateio_subscription_subscribes(
    channel: Seq<char>,
    id: Option<u64>,
    symbols: Seq<String>,
    timestamp: int,
    auth: Seq<char>,
    public: Seq<char>,
    private: Seq<char>,
)
    requires
        public == gate_public_subscription_text(channel, id, symbols, timestamp),
        private == gate_private_subscription_text(auth, channel, timestamp),
    ensures
        text_at(public, ("{\"channel\":"@.len() + quoted(channel).len()) as int, ",\"event\":\"subscribe\""@),
        exists|i: int| #[trigger] text_at(private, i, ",\"event\":\"subscribe\",\"payload\":[\"!all\"],\"time\":"@),
{
    let head = "{\"channel\":"@ + quoted(channel);
    let ev = ",\"event\":\"subscribe\""@;
    let rest = public.subrange((head.len() + ev.len()) as int, public.len() as int);
    assert(public =~= head + ev + rest);
    lemma_text_between(head, ev, rest);
    let phead = "{\"auth\":"@ + auth + ",\"channel\":"@ + quoted(channel);
    let pev = ",\"event\":\"subscribe\",\"payload\":[\"!all\"],\"time\":"@;
    let ptail = int_text(timestamp) + "}"@;
    assert(private =~= phead + pev + ptail);
    lemma_text_between(phead, pev, ptail);
    assert(text_at(private, phead.len() as int, pev));
}

/// A Bybit login is `{"args":[` with the quoted key, the expiry in decimal and the quoted
/// signature, then `],"op":"auth"}`; the signature is the hex HMAC-SHA256, under the
/// secret, of "GET/realtime" followed by the expiry.
pub proof fn law_bybit_login(api_key: Seq<char>, api_secret: Seq<char>, expires: int, r: Seq<char>)
    requires
        r == bybit_auth_text(api_key, expires, bybit_auth_sign(api_secret, expires)),
    ensures
        r == "{\"args\":["@ + quoted(api_key) + ","@ + int_text(expires) + ","@ + quoted(
            hex_text(hmac_sha256_tag(encode_utf8(api_secret), encode_utf8("GET/realtime"@ + int_text(expires)))),
        ) + "],\"op\":\"auth\"}"@,
        ends_with_text(r, "],\"op\":\"auth\"}"@),
{
    lemma_text_last(
        "{\"args\":["@ + quoted(api_key) + ","@ + int_text(expires) + ","@ + quoted(bybit_auth_sign(api_secret, expires)),
        "],\"op\":\"auth\"}"@,
    );
}

/// A Bybit heartbeat starts with `{"op":"ping","req_id":` and carries the time in
/// milliseconds as its quoted request id.
pub proof fn law_bybit_heartbeat(millis: int, r: Seq<char>)
    requires
        r == bybit_ping_text(millis),
    ensures
        text_at(r, 0, "{\"op\":\"ping\",\"req_id\":"@),
        text_at(r, "{\"op\":\"ping\",\"req_id\":"@.len() as int, quoted(int_text(millis))),
        ends_with_text(r, "}"@),
{
    let head = "{\"op\":\"ping\",\"req_id\":"@;
    lemma_text_between(Seq::empty(), head, quoted(int_text(millis)) + "}"@);
    assert(Seq::<char>::empty() + head + (quoted(int_text(millis)) + "}"@) =~= r);
    lemma_text_between(head, quoted(int_text(millis)), "}"@);
    lemma_text_last(head + quoted(int_text(millis)), "}"@);
}

/// A Gate.io websocket request is signed with the hex HMAC-SHA512, under the secret, of
/// "channel=", the channel, "&event=", the event, "&time=" and the time in seconds.
pub proof fn law_gateio_websocket_signature(c: GateioPerpetualFuturesCredential, channel: Seq<char>, event: Seq<char>, timestamp: int)
    ensures
        gate_ws_sign(c, channel, event, timestamp) == hex_text(hmac_sha512_tag(
            encode_utf8(c.api_secret@),
            encode_utf8("channel="@ + channel + "&event="@ + event + "&time="@ + int_text(timestamp)),
        )),
{
}

} // verus!
