use inicio_faucet::http::{
    check_mint_request, cors_origins, default_note_type, health, readiness, reply_for, HttpReply,
    MintRequest, ReplyBody, TokenMeta, WorkerReply, MINT_TIMEOUT_SECS,
};
use inicio_faucet::mint::{MintOutcome, NoteKind};

const SAMPLE_ID: u128 = 0xaa0000000000bb11_0000cc000000dd00;
const SAMPLE_HEX: &str = "0xaa0000000000bb110000cc000000dd";

fn token(symbol: &str, max_amount: Option<u64>) -> TokenMeta {
    TokenMeta { symbol: symbol.to_string(), name: format!("Token {symbol}"), decimals: 8, max_amount }
}

fn tokens() -> Vec<TokenMeta> {
    vec![token("TOKA", None), token("TOKB", Some(1000))]
}

fn request(token: &str, address: &str, amount: u64, note_type: &str) -> MintRequest {
    MintRequest {
        token: token.to_string(),
        address: address.to_string(),
        amount,
        note_type: note_type.to_string(),
    }
}

fn text(reply: &HttpReply) -> (u16, String) {
    match &reply.body {
        ReplyBody::Text(t) => (reply.status, t.clone()),
        ReplyBody::Minted(_) => panic!("expected a text reply"),
    }
}

#[test]
fn valid_request_becomes_an_order() {
    let order = check_mint_request(&tokens(), &request("TOKA", SAMPLE_HEX, 5, "public")).unwrap();
    assert_eq!(order.target, SAMPLE_ID);
    assert_eq!(order.amount, 5);
    assert_eq!(order.note_type, NoteKind::Public);
    let order = check_mint_request(&tokens(), &request("TOKB", SAMPLE_HEX, 1000, "PRIVATE")).unwrap();
    assert_eq!(order.note_type, NoteKind::Private);
}

#[test]
fn unknown_token_is_not_found() {
    let reply = check_mint_request(&tokens(), &request("TOKZ", "garbage", 0, "x")).unwrap_err();
    assert_eq!(text(&reply), (404, "unknown token \"TOKZ\"".to_string()));
    // symbols are case sensitive
    let reply = check_mint_request(&tokens(), &request("toka", SAMPLE_HEX, 1, "public")).unwrap_err();
    assert_eq!(reply.status, 404);
}

#[test]
fn zero_amount_is_rejected_before_the_address() {
    let reply = check_mint_request(&tokens(), &request("TOKA", "garbage", 0, "x")).unwrap_err();
    assert_eq!(text(&reply), (400, "amount must be greater than 0".to_string()));
}

#[test]
fn amount_over_cap_is_rejected() {
    let reply = check_mint_request(&tokens(), &request("TOKB", SAMPLE_HEX, 1001, "public")).unwrap_err();
    assert_eq!(
        text(&reply),
        (400, "amount 1001 exceeds the per-request cap of 1000 for TOKB".to_string())
    );
}

#[test]
fn uncapped_token_takes_any_amount() {
    let order = check_mint_request(&tokens(), &request("TOKA", SAMPLE_HEX, u64::MAX, "public")).unwrap();
    assert_eq!(order.amount, u64::MAX);
}

#[test]
fn the_first_token_with_a_symbol_gives_the_cap() {
    let list = vec![token("TOKA", Some(10)), token("TOKA", None)];
    let reply = check_mint_request(&list, &request("TOKA", SAMPLE_HEX, 11, "public")).unwrap_err();
    assert_eq!(reply.status, 400);
}

#[test]
fn bad_address_and_note_type_are_bad_requests() {
    let reply = check_mint_request(&tokens(), &request("TOKA", "0x12", 1, "public")).unwrap_err();
    let (status, msg) = text(&reply);
    assert_eq!(status, 400);
    assert!(msg.starts_with("invalid hex account id: "));
    let reply = check_mint_request(&tokens(), &request("TOKA", SAMPLE_HEX, 1, "loud")).unwrap_err();
    assert_eq!(
        text(&reply),
        (400, "note_type must be \"public\" or \"private\", got \"loud\"".to_string())
    );
}

#[test]
fn default_note_type_is_public() {
    assert_eq!(default_note_type(), "public");
    let order =
        check_mint_request(&tokens(), &request("TOKA", SAMPLE_HEX, 1, &default_note_type())).unwrap();
    assert_eq!(order.note_type, NoteKind::Public);
}

#[test]
fn worker_outcomes_map_to_status_codes() {
    let outcome = MintOutcome { tx_id: "0xaa".into(), note_id: "0xbb".into(), note_b64: None };
    let reply = reply_for(WorkerReply::Answered(Ok(outcome)));
    assert_eq!(reply.status, 200);
    match reply.body {
        ReplyBody::Minted(o) => {
            assert_eq!(o.tx_id, "0xaa");
            assert_eq!(o.note_id, "0xbb");
            assert!(o.note_b64.is_none());
        }
        ReplyBody::Text(_) => panic!("expected the outcome"),
    }
    assert_eq!(
        text(&reply_for(WorkerReply::Answered(Err("boom".into())))),
        (502, "boom".to_string())
    );
    assert_eq!(text(&reply_for(WorkerReply::QueueClosed)), (503, "faucet worker unavailable".to_string()));
    assert_eq!(text(&reply_for(WorkerReply::NoAnswer)), (502, "no response from faucet worker".to_string()));
    assert_eq!(
        text(&reply_for(WorkerReply::TimedOut)),
        (504, "mint timed out (proving took too long)".to_string())
    );
    assert_eq!(MINT_TIMEOUT_SECS, 300);
}

#[test]
fn readiness_follows_the_workers() {
    assert_eq!(text(&readiness(&vec![])), (200, "ready".to_string()));
    assert_eq!(text(&readiness(&vec![false, false])), (200, "ready".to_string()));
    assert_eq!(text(&readiness(&vec![false, true])), (503, "a faucet worker is down".to_string()));
    assert_eq!(text(&health()), (200, "ok".to_string()));
}

#[test]
fn cors_keeps_only_valid_origins() {
    assert!(cors_origins(&vec![]).is_none());
    assert!(cors_origins(&vec!["bad\nvalue".to_string()]).is_none());
    let kept = cors_origins(&vec![
        "https://ui.example".to_string(),
        "bad\u{7f}".to_string(),
        "http://localhost:3000".to_string(),
        "tab\tand unicode é".to_string(),
    ])
    .unwrap();
    assert_eq!(kept, vec!["https://ui.example", "http://localhost:3000", "tab\tand unicode é"]);
}
