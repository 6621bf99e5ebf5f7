//! The decisions of the HTTP surface: which mint requests reach a worker,
//! what each outcome is answered, readiness, and the CORS origins.

use vstd::prelude::*;
use vstd::string::*;

use crate::mint::{
    address_parse, note_type_parse, parse_address, parse_note_type, MintOrder, MintOutcome, NoteKind,
};
use crate::text::{concat2, debug_quoted, debug_str, decimal, decimal_digits};

use axum::http::HeaderValue;

verus! {

/// How long a mint request waits for its worker before it is answered with a
/// timeout (local proving can take minutes).
pub const MINT_TIMEOUT_SECS: u64 = 300;

/// HTTP status codes the service answers with.
pub const STATUS_OK: u16 = 200;
pub const STATUS_BAD_REQUEST: u16 = 400;
pub const STATUS_NOT_FOUND: u16 = 404;
pub const STATUS_BAD_GATEWAY: u16 = 502;
pub const STATUS_SERVICE_UNAVAILABLE: u16 = 503;
pub const STATUS_GATEWAY_TIMEOUT: u16 = 504;

/// Token metadata exposed to the UI.
#[derive(Debug, Clone)]
pub struct TokenMeta {
    pub symbol: String,
    pub name: String,
    pub decimals: u8,
    /// Optional per-request mint cap (base units); enforced on mint requests.
    pub max_amount: Option<u64>,
}

/// The body of a mint request.
#[derive(Debug, Clone)]
pub struct MintRequest {
    pub token: String,
    pub address: String,
    pub amount: u64,
    pub note_type: String,
}

/// The note type a mint request gets when it names none.
pub fn default_note_type() -> (r: String)
    ensures
        r@ == "public"@,
{
    String::from_str("public")
}

/// The body of an answer.
#[derive(Debug, Clone)]
pub enum ReplyBody {
    /// Plain text.
    Text(String),
    /// A successful mint, sent as JSON.
    Minted(MintOutcome),
}

/// An answer: status code and body.
#[derive(Debug, Clone)]
pub struct HttpReply {
    pub status: u16,
    pub body: ReplyBody,
}

/// A reply with a text body, by its status and characters.
pub open spec fn text_reply(reply: HttpReply, status: u16, text: Seq<char>) -> bool {
    &&& reply.status == status
    &&& reply.body matches ReplyBody::Text(t) && t@ == text
}

fn reply_text(status: u16, text: String) -> (r: HttpReply)
    ensures
        text_reply(r, status, text@),
{
    HttpReply { status, body: ReplyBody::Text(text) }
}

// ---------------------------------------------------------------------------
// Mint request validation
// ---------------------------------------------------------------------------

/// The index of the first token whose symbol is `symbol`, if any.
pub open spec fn first_token(tokens: Seq<TokenMeta>, symbol: Seq<char>) -> Option<int>
    decreases tokens.len(),
{
    if tokens.len() == 0 {
        None
    } else {
        match first_token(tokens.drop_last(), symbol) {
            Some(i) => Some(i),
            None => if tokens.last().symbol@ == symbol {
                Some(tokens.len() - 1)
            } else {
                None
            },
        }
    }
}

proof fn lemma_first_token_bounds(tokens: Seq<TokenMeta>, symbol: Seq<char>)
    ensures
        first_token(tokens, symbol) matches Some(i) ==> {
            &&& 0 <= i < tokens.len()
            &&& tokens[i].symbol@ == symbol
            &&& forall|j: int| 0 <= j < i ==> tokens[j].symbol@ != symbol
        },
        first_token(tokens, symbol) is None ==> forall|j: int|
            0 <= j < tokens.len() ==> tokens[j].symbol@ != symbol,
    decreases tokens.len(),
{
    if tokens.len() > 0 {
        let prefix = tokens.drop_last();
        lemma_first_token_bounds(prefix, symbol);
        assert forall|j: int| 0 <= j < prefix.len() implies prefix[j] == tokens[j] by {}
    }
}

/// Finds the first token with the given symbol.
pub fn find_token(tokens: &Vec<TokenMeta>, symbol: &str) -> (r: Option<usize>)
    ensures
        r matches Some(i) ==> first_token(tokens@, symbol@) == Some(i as int),
        r is None ==> first_token(tokens@, symbol@) is None,
{
    let n: usize = tokens.len();
    let mut i: usize = 0;
    while i < n
        invariant
            n == tokens@.len(),
            i <= n,
            first_token(tokens@.take(i as int), symbol@) is None,
        decreases n - i,
    {
        assert(tokens@.take(i + 1).drop_last() =~= tokens@.take(i as int));
        assert(tokens@.take(i + 1).last() == tokens@[i as int]);
        if crate::text::same_text(tokens[i].symbol.as_str(), symbol) {
            assert(first_token(tokens@.take(i + 1), symbol@) == Some(i as int));
            proof {
                lemma_prefix_first(tokens@, symbol@, i as int + 1);
            }
            return Some(i);
        }
        i = i + 1;
    }
    assert(tokens@.take(n as int) =~= tokens@);
    None
}

/// A match within a prefix is the first match of the whole sequence.
proof fn lemma_prefix_first(tokens: Seq<TokenMeta>, symbol: Seq<char>, k: int)
    requires
        0 <= k <= tokens.len(),
        first_token(tokens.take(k), symbol) is Some,
    ensures
        first_token(tokens, symbol) == first_token(tokens.take(k), symbol),
    decreases tokens.len() - k,
{
    if k < tokens.len() {
        assert(tokens.take(k + 1).drop_last() =~= tokens.take(k));
        lemma_prefix_first(tokens, symbol, k + 1);
    } else {
        assert(tokens.take(k) =~= tokens);
    }
}

/// The message for a request that names no configured token.
pub open spec fn unknown_token_message(token: Seq<char>) -> Seq<char> {
    "unknown token "@ + debug_quoted(token)
}

/// The message for a request of zero.
pub open spec fn zero_amount_message() -> Seq<char> {
    "amount must be greater than 0"@
}

/// The message for a request above the token's cap.
pub open spec fn over_cap_message(amount: u64, cap: u64, token: Seq<char>) -> Seq<char> {
    "amount "@ + decimal_digits(amount as nat) + " exceeds the per-request cap of "@
        + decimal_digits(cap as nat) + " for "@ + token
}

/// What a mint request is answered before it reaches a worker, or the order
/// the worker gets. The checks run in this order: the token, the amount, the
/// cap, the address, the note type.
pub open spec fn mint_check(
    tokens: Seq<TokenMeta>,
    token: Seq<char>,
    address: Seq<char>,
    amount: u64,
    note_type: Seq<char>,
) -> Result<MintOrder, (u16, Seq<char>)> {
    match first_token(tokens, token) {
        None => Err((STATUS_NOT_FOUND, unknown_token_message(token))),
        Some(i) => if amount == 0 {
            Err((STATUS_BAD_REQUEST, zero_amount_message()))
        } else if tokens[i].max_amount matches Some(cap) && amount > cap {
            Err((STATUS_BAD_REQUEST, over_cap_message(amount, tokens[i].max_amount->0, token)))
        } else {
            match address_parse(address) {
                Err(e) => Err((STATUS_BAD_REQUEST, e)),
                Ok(target) => match note_type_parse(note_type) {
                    Err(e) => Err((STATUS_BAD_REQUEST, e)),
                    Ok(kind) => Ok(MintOrder { target, amount, note_type: kind }),
                },
            }
        },
    }
}

/// Checks a mint request against the configured tokens and parses it into
/// the order a worker receives, or the answer the request gets instead.
pub fn check_mint_request(tokens: &Vec<TokenMeta>, req: &MintRequest) -> (r: Result<MintOrder, HttpReply>)
    ensures
        r matches Ok(order) ==> mint_check(tokens@, req.token@, req.address@, req.amount, req.note_type@)
            == Ok::<MintOrder, (u16, Seq<char>)>(order),
        r matches Err(reply) ==> exists|status: u16, text: Seq<char>| {
            &&& mint_check(tokens@, req.token@, req.address@, req.amount, req.note_type@)
                == Err::<MintOrder, (u16, Seq<char>)>((status, text))
            &&& text_reply(reply, status, text)
        },
{
    let found = find_token(tokens, req.token.as_str());
    let idx = match found {
        None => {
            let msg = concat2("unknown token ", debug_str(req.token.as_str()).as_str());
            return Err(reply_text(STATUS_NOT_FOUND, msg));
        },
        Some(i) => i,
    };
    proof {
        lemma_first_token_bounds(tokens@, req.token@);
    }
    if req.amount == 0 {
        return Err(reply_text(STATUS_BAD_REQUEST, String::from_str("amount must be greater than 0")));
    }
    if let Some(cap) = tokens[idx].max_amount {
        if req.amount > cap {
            let msg = String::from_str("amount ");
            let msg = msg.concat(decimal(req.amount).as_str());
            let msg = msg.concat(" exceeds the per-request cap of ");
            let msg = msg.concat(decimal(cap).as_str());
            let msg = msg.concat(" for ");
            let msg = msg.concat(req.token.as_str());
            return Err(reply_text(STATUS_BAD_REQUEST, msg));
        }
    }
    let target = match parse_address(req.address.as_str()) {
        Ok(t) => t,
        Err(e) => return Err(reply_text(STATUS_BAD_REQUEST, e)),
    };
    let kind = match parse_note_type(req.note_type.as_str()) {
        Ok(k) => k,
        Err(e) => return Err(reply_text(STATUS_BAD_REQUEST, e)),
    };
    Ok(MintOrder { target, amount: req.amount, note_type: kind })
}

// ---------------------------------------------------------------------------
// Worker answers
// ---------------------------------------------------------------------------

/// What became of a mint order handed to a worker.
#[derive(Debug)]
pub enum WorkerReply {
    /// The worker's queue is closed; the order was not delivered.
    QueueClosed,
    /// The worker answered.
    Answered(Result<MintOutcome, String>),
    /// The worker dropped the order without answering.
    NoAnswer,
    /// No answer came within [`MINT_TIMEOUT_SECS`].
    TimedOut,
}

/// The status and text of a non-success answer to a worker outcome, or `None`
/// for a successful mint.
pub open spec fn worker_reply_text(w: WorkerReply) -> Option<(u16, Seq<char>)> {
    match w {
        WorkerReply::QueueClosed => Some((STATUS_SERVICE_UNAVAILABLE, "faucet worker unavailable"@)),
        WorkerReply::Answered(Ok(_)) => None,
        WorkerReply::Answered(Err(e)) => Some((STATUS_BAD_GATEWAY, e@)),
        WorkerReply::NoAnswer => Some((STATUS_BAD_GATEWAY, "no response from faucet worker"@)),
        WorkerReply::TimedOut => Some((STATUS_GATEWAY_TIMEOUT, "mint timed out (proving took too long)"@)),
    }
}

/// The answer to a mint request from what its worker did.
pub fn reply_for(w: WorkerReply) -> (r: HttpReply)
    ensures
        w matches WorkerReply::Answered(Ok(outcome)) ==> r.status == STATUS_OK && r.body
            == ReplyBody::Minted(outcome),
        worker_reply_text(w) matches Some((status, text)) ==> text_reply(r, status, text),
{
    match w {
        WorkerReply::QueueClosed => reply_text(
            STATUS_SERVICE_UNAVAILABLE,
            String::from_str("faucet worker unavailable"),
        ),
        WorkerReply::Answered(Ok(outcome)) => HttpReply { status: STATUS_OK, body: ReplyBody::Minted(outcome) },
        WorkerReply::Answered(Err(e)) => reply_text(STATUS_BAD_GATEWAY, e),
        WorkerReply::NoAnswer => reply_text(
            STATUS_BAD_GATEWAY,
            String::from_str("no response from faucet worker"),
        ),
        WorkerReply::TimedOut => reply_text(
            STATUS_GATEWAY_TIMEOUT,
            String::from_str("mint timed out (proving took too long)"),
        ),
    }
}

// ---------------------------------------------------------------------------
// Liveness and readiness
// ---------------------------------------------------------------------------

/// The liveness answer: always `200 ok`.
pub fn health() -> (r: HttpReply)
    ensures
        text_reply(r, STATUS_OK, "ok"@),
{
    reply_text(STATUS_OK, String::from_str("ok"))
}

/// The readiness answer, from whether each worker's queue is closed: ready
/// exactly when none is.
pub fn readiness(closed: &Vec<bool>) -> (r: HttpReply)
    ensures
        (exists|i: int| 0 <= i < closed@.len() && closed@[i]) ==> text_reply(
            r,
            STATUS_SERVICE_UNAVAILABLE,
            "a faucet worker is down"@,
        ),
        (forall|i: int| 0 <= i < closed@.len() ==> !closed@[i]) ==> text_reply(r, STATUS_OK, "ready"@),
{
    let n: usize = closed.len();
    let mut i: usize = 0;
    while i < n
        invariant
            n == closed@.len(),
            i <= n,
            forall|j: int| 0 <= j < i ==> !closed@[j],
        decreases n - i,
    {
        if closed[i] {
            return reply_text(STATUS_SERVICE_UNAVAILABLE, String::from_str("a faucet worker is down"));
        }
        i = i + 1;
    }
    reply_text(STATUS_OK, String::from_str("ready"))
}

// ---------------------------------------------------------------------------
// CORS
// ---------------------------------------------------------------------------

/// A byte allowed in an HTTP header value: visible ASCII, space, tab, or any
/// byte of 128 and above.
pub open spec fn header_byte_ok(b: u8) -> bool {
    (b >= 32 && b != 127) || b == 9
}

/// Whether the text (by its UTF-8 bytes) can be used as an HTTP header value.
pub open spec fn header_value_ok(s: Seq<char>) -> bool {
    let bytes = vstd::utf8::encode_utf8(s);
    forall|i: int| 0 <= i < bytes.len() ==> header_byte_ok(#[trigger] bytes[i])
}

/// Whether `s` parses as an HTTP `HeaderValue` (`HeaderValue::from_str`
/// accepts exactly the texts whose bytes are all allowed).
#[verifier::external_body]
fn parses_as_header_value(s: &str) -> (r: bool)
    ensures
        r == header_value_ok(s@),
{
    s.parse::<HeaderValue>().is_ok()
}

/// The configured origins that are valid header values, in their order.
pub open spec fn valid_origins(origins: Seq<String>) -> Seq<String>
    decreases origins.len(),
{
    if origins.len() == 0 {
        Seq::empty()
    } else {
        let rest = valid_origins(origins.drop_last());
        if header_value_ok(origins.last()@) {
            rest.push(origins.last())
        } else {
            rest
        }
    }
}

/// The origins that the CORS layer allows: `None` when no configured origin is
/// usable (then no cross-origin access is granted), else the usable ones.
pub fn cors_origins(origins: &Vec<String>) -> (r: Option<Vec<String>>)
    ensures
        valid_origins(origins@).len() == 0 ==> r is None,
        valid_origins(origins@).len() > 0 ==> (r matches Some(v) && v@ == valid_origins(origins@)),
{
    let n: usize = origins.len();
    let mut kept: Vec<String> = Vec::new();
    let mut i: usize = 0;
    while i < n
        invariant
            n == origins@.len(),
            i <= n,
            kept@ == valid_origins(origins@.take(i as int)),
        decreases n - i,
    {
        assert(origins@.take(i + 1).drop_last() =~= origins@.take(i as int));
        assert(origins@.take(i + 1).last() == origins@[i as int]);
        let o = &origins[i];
        if parses_as_header_value(o.as_str()) {
            kept.push(o.clone());
        }
        i = i + 1;
    }
    assert(origins@.take(n as int) =~= origins@);
    if kept.len() == 0 {
        None
    } else {
        Some(kept)
    }
}

// ---------------------------------------------------------------------------
// Laws
// ---------------------------------------------------------------------------

/// A request that reaches a worker names a configured token, asks for a
/// positive amount within that token's cap, and carries the parsed recipient
/// and note type.
pub proof fn lemma_accepted_request(
    tokens: Seq<TokenMeta>,
    token: Seq<char>,
    address: Seq<char>,
    amount: u64,
    note_type: Seq<char>,
    order: MintOrder,
)
    requires
        mint_check(tokens, token, address, amount, note_type) == Ok::<MintOrder, (u16, Seq<char>)>(order),
    ensures
        first_token(tokens, token) matches Some(i) && 0 <= i < tokens.len() && tokens[i].symbol@ == token
            && (tokens[i].max_amount matches Some(cap) ==> amount <= cap),
        order.amount == amount,
        amount > 0,
        address_parse(address) == Ok::<u128, Seq<char>>(order.target),
        note_type_parse(note_type) == Ok::<NoteKind, Seq<char>>(order.note_type),
{
    lemma_first_token_bounds(tokens, token);
}

/// A request that names no configured token is answered `404`, whatever else
/// it holds.
pub proof fn lemma_unknown_token_not_found(
    tokens: Seq<TokenMeta>,
    token: Seq<char>,
    address: Seq<char>,
    amount: u64,
    note_type: Seq<char>,
)
    requires
        forall|i: int| 0 <= i < tokens.len() ==> #[trigger] tokens[i].symbol@ != token,
    ensures
        mint_check(tokens, token, address, amount, note_type) == Err::<MintOrder, (u16, Seq<char>)>(
            (STATUS_NOT_FOUND, unknown_token_message(token)),
        ),
{
    lemma_first_token_bounds(tokens, token);
}

/// Every well-formed request for a configured token is accepted: a known
/// symbol, a positive amount within every cap given for that symbol, an
/// address that parses and a note type that parses yield exactly the order
/// made of the parsed recipient, the amount and the parsed note type.
pub proof fn lemma_valid_request_accepted(
    tokens: Seq<TokenMeta>,
    token: Seq<char>,
    address: Seq<char>,
    amount: u64,
    note_type: Seq<char>,
    target: u128,
    kind: NoteKind,
)
    requires
        exists|i: int| 0 <= i < tokens.len() && #[trigger] tokens[i].symbol@ == token,
        forall|i: int|
            0 <= i < tokens.len() && #[trigger] tokens[i].symbol@ == token ==> (tokens[i].max_amount matches Some(
                cap,
            ) ==> amount <= cap),
        amount > 0,
        address_parse(address) == Ok::<u128, Seq<char>>(target),
        note_type_parse(note_type) == Ok::<NoteKind, Seq<char>>(kind),
    ensures
        mint_check(tokens, token, address, amount, note_type) == Ok::<MintOrder, (u16, Seq<char>)>(
            MintOrder { target, amount, note_type: kind },
        ),
{
    lemma_first_token_bounds(tokens, token);
}

/// The CORS origins are exactly the configured origins that are valid header
/// values, each kept once per occurrence, in the configured order: every kept
/// origin is valid and configured, and every valid configured origin is kept.
pub proof fn lemma_valid_origins_exact(origins: Seq<String>)
    ensures
        valid_origins(origins).len() <= origins.len(),
        forall|k: int| 0 <= k < valid_origins(origins).len() ==> header_value_ok(
            (#[trigger] valid_origins(origins)[k])@,
        ) && origins.contains(valid_origins(origins)[k]),
        forall|i: int| 0 <= i < origins.len() && header_value_ok((#[trigger] origins[i])@)
            ==> valid_origins(origins).contains(origins[i]),
        (forall|i: int| 0 <= i < origins.len() ==> header_value_ok((#[trigger] origins[i])@)) ==> valid_origins(
            origins,
        ) == origins,
    decreases origins.len(),
{
    if origins.len() > 0 {
        let prefix = origins.drop_last();
        lemma_valid_origins_exact(prefix);
        let v = valid_origins(origins);
        let pv = valid_origins(prefix);
        assert forall|k: int| 0 <= k < v.len() implies header_value_ok((#[trigger] v[k])@)
            && origins.contains(v[k]) by {
            if k < pv.len() {
                assert(v[k] == pv[k]);
                let j = choose|j: int| 0 <= j < prefix.len() && prefix[j] == pv[k];
                assert(origins[j] == prefix[j]);
            } else {
                assert(v[k] == origins.last());
                assert(origins[origins.len() - 1] == origins.last());
            }
        }
        assert forall|i: int| 0 <= i < origins.len() && header_value_ok((#[trigger] origins[i])@)
            implies v.contains(origins[i]) by {
            if i < prefix.len() {
                assert(prefix[i] == origins[i]);
                let k = choose|k: int| 0 <= k < pv.len() && pv[k] == prefix[i];
                assert(v[k] == pv[k]);
            } else {
                assert(v[v.len() - 1] == origins[i]);
            }
        }
        if forall|i: int| 0 <= i < origins.len() ==> header_value_ok((#[trigger] origins[i])@) {
            assert forall|i: int| 0 <= i < prefix.len() implies header_value_ok((#[trigger] prefix[i])@) by {
                assert(prefix[i] == origins[i]);
            }
            assert(header_value_ok(origins[origins.len() - 1]@));
            assert(v =~= origins);
        }
    } else {
        assert(valid_origins(origins) =~= origins);
    }
}

} // verus!
