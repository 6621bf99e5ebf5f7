//! The values that cross from the HTTP layer to a faucet worker and back, and
//! the parsing of the user-supplied recipient address and note type.

use vstd::prelude::*;
use vstd::string::*;

use crate::text::{
    all_white_space,
    ascii_lowercase, concat2, debug_quoted, debug_str, has_hex_prefix, same_text,
    starts_with_hex_prefix, to_ascii_lowercase, trim, trimmed,
};

use miden_protocol::account::AccountId;
use miden_protocol::address::{Address, AddressId};

verus! {

/// Whether a minted note is published on chain or only its hash is.
///
/// Stands for the protocol's `NoteType`.
#[derive(Debug, Clone, Copy, PartialEq, Eq, Structural)]
pub enum NoteKind {
    /// The note is fully shared with the network; the wallet discovers it on sync.
    Public,
    /// Only the note's hash is published; the recipient imports the note file.
    Private,
}

/// A mint request that passed validation, as a worker receives it.
///
/// `target` is the recipient account id in its 128-bit integer form (the
/// protocol's `u128::from(AccountId)`).
#[derive(Debug, Clone, Copy, PartialEq, Eq, Structural)]
pub struct MintOrder {
    pub target: u128,
    pub amount: u64,
    pub note_type: NoteKind,
}

/// What the user gets back after a successful mint.
#[derive(Debug, Clone)]
pub struct MintOutcome {
    /// Hex transaction id (every request of a batch shares one transaction).
    pub tx_id: String,
    /// Hex note id of this request's note.
    pub note_id: String,
    /// For private notes only: base64 of the serialized note file that the
    /// recipient imports into the wallet. `None` for public notes.
    pub note_b64: Option<String>,
}

/// A `Result` whose error text is taken by its characters.
pub open spec fn text_result<T>(r: Result<T, String>) -> Result<T, Seq<char>> {
    match r {
        Ok(v) => Ok(v),
        Err(e) => Err(e@),
    }
}

// ---------------------------------------------------------------------------
// Note type
// ---------------------------------------------------------------------------

/// The message for a note type other than `public` or `private`; `given` is
/// the input after ASCII lower-casing.
pub open spec fn note_type_rejection(given: Seq<char>) -> Seq<char> {
    "note_type must be \"public\" or \"private\", got "@ + debug_quoted(given)
}

/// What [`parse_note_type`] returns for the text `s`: the choice is made on
/// the ASCII-lower-cased text.
pub open spec fn note_type_parse(s: Seq<char>) -> Result<NoteKind, Seq<char>> {
    let lower = ascii_lowercase(s);
    if lower == "public"@ {
        Ok(NoteKind::Public)
    } else if lower == "private"@ {
        Ok(NoteKind::Private)
    } else {
        Err(note_type_rejection(lower))
    }
}

/// Parses the `note_type` field of a mint request, ignoring ASCII case.
pub fn parse_note_type(input: &str) -> (r: Result<NoteKind, String>)
    ensures
        text_result(r) == note_type_parse(input@),
{
    let lower = to_ascii_lowercase(input);
    if same_text(lower.as_str(), "public") {
        Ok(NoteKind::Public)
    } else if same_text(lower.as_str(), "private") {
        Ok(NoteKind::Private)
    } else {
        let quoted = debug_str(lower.as_str());
        Err(concat2("note_type must be \"public\" or \"private\", got ", quoted.as_str()))
    }
}

// ---------------------------------------------------------------------------
// Recipient address
// ---------------------------------------------------------------------------

/// What the protocol's `AccountId::from_hex` makes of `s`: the id in its
/// 128-bit form, or the text of the error it reports.
pub uninterp spec fn hex_account_id(s: Seq<char>) -> Result<u128, Seq<char>>;

/// What the protocol's `Address::decode` makes of `s`: `Some(id)` for an
/// address whose identifier is an account id (128-bit form), `None` for any
/// other kind of identifier, or the text of the decoding error.
pub uninterp spec fn bech32_address(s: Seq<char>) -> Result<Option<u128>, Seq<char>>;

/// Calls `AccountId::from_hex` and converts the id to its 128-bit form.
#[verifier::external_body]
fn account_id_from_hex(s: &str) -> (r: Result<u128, String>)
    ensures
        text_result(r) == hex_account_id(s@),
{
    match AccountId::from_hex(s) {
        Ok(id) => Ok(u128::from(id)),
        Err(e) => Err(e.to_string()),
    }
}

/// Calls `Address::decode` and keeps the account id the address points to.
#[verifier::external_body]
fn decode_bech32_address(s: &str) -> (r: Result<Option<u128>, String>)
    ensures
        text_result(r) == bech32_address(s@),
{
    match Address::decode(s) {
        Ok((_network, address)) => match address.id() {
            AddressId::AccountId(id) => Ok(Some(u128::from(id))),
            _ => Ok(None),
        },
        Err(e) => Err(e.to_string()),
    }
}

/// What [`parse_address`] returns for the text `s`.
pub open spec fn address_parse(s: Seq<char>) -> Result<u128, Seq<char>> {
    let t = trimmed(s);
    if has_hex_prefix(t) {
        match hex_account_id(t) {
            Ok(id) => Ok(id),
            Err(e) => Err("invalid hex account id: "@ + e),
        }
    } else {
        match bech32_address(t) {
            Ok(Some(id)) => Ok(id),
            Ok(None) => Err("address is not an account-id based address"@),
            Err(e) => Err("invalid bech32 address: "@ + e),
        }
    }
}

/// Parses a user-supplied recipient into an account id (128-bit form).
///
/// Surrounding white space is ignored. Text starting with `0x` is read as a
/// hex account id, anything else as a bech32 address, which must point to an
/// account.
pub fn parse_address(input: &str) -> (r: Result<u128, String>)
    ensures
        text_result(r) == address_parse(input@),
{
    let t = trim(input);
    if starts_with_hex_prefix(t) {
        match account_id_from_hex(t) {
            Ok(id) => Ok(id),
            Err(e) => Err(concat2("invalid hex account id: ", e.as_str())),
        }
    } else {
        match decode_bech32_address(t) {
            Ok(Some(id)) => Ok(id),
            Ok(None) => Err(String::from_str("address is not an account-id based address")),
            Err(e) => Err(concat2("invalid bech32 address: ", e.as_str())),
        }
    }
}

// ---------------------------------------------------------------------------
// Laws
// ---------------------------------------------------------------------------

/// The note type is read without regard to ASCII case: text and its
/// lower-cased form parse alike.
pub proof fn lemma_note_type_ignores_case(s: Seq<char>)
    ensures
        note_type_parse(ascii_lowercase(s)) == note_type_parse(s),
{
    crate::text::lemma_ascii_lowercase_idempotent(s);
}

/// White space around an address is ignored: the address with white space
/// added before and after it parses as the address alone does.
pub proof fn lemma_address_ignores_surrounding_space(before: Seq<char>, s: Seq<char>, after: Seq<char>)
    requires
        all_white_space(before),
        all_white_space(after),
    ensures
        address_parse(before + s + after) == address_parse(s),
{
    crate::text::lemma_trimmed_surrounded(before, s, after);
}

/// Both address forms are accepted: text (after trimming) starting with `0x`
/// yields the account id the hex parser reads, any other text yields the
/// account id of the bech32 address it decodes to; an address naming no
/// account, or text neither parser reads, is refused.
pub proof fn lemma_address_forms(s: Seq<char>)
    ensures
        has_hex_prefix(trimmed(s)) ==> (hex_account_id(trimmed(s)) matches Ok(id) ==> address_parse(s)
            == Ok::<u128, Seq<char>>(id)),
        has_hex_prefix(trimmed(s)) ==> (hex_account_id(trimmed(s)) is Err ==> address_parse(s) is Err),
        !has_hex_prefix(trimmed(s)) ==> (bech32_address(trimmed(s)) matches Ok(Some(id)) ==> address_parse(s)
            == Ok::<u128, Seq<char>>(id)),
        !has_hex_prefix(trimmed(s)) ==> (!(bech32_address(trimmed(s)) matches Ok(Some(_))) ==> address_parse(
            s,
        ) is Err),
{
}

/// `public` and `private` are read as the two note types whatever their
/// ASCII case, and every other text is refused.
pub proof fn lemma_note_type_words(s: Seq<char>)
    ensures
        ascii_lowercase(s) == "public"@ ==> note_type_parse(s) == Ok::<NoteKind, Seq<char>>(NoteKind::Public),
        ascii_lowercase(s) == "private"@ ==> note_type_parse(s) == Ok::<NoteKind, Seq<char>>(NoteKind::Private),
        ascii_lowercase(s) != "public"@ && ascii_lowercase(s) != "private"@ ==> note_type_parse(s) is Err,
{
    reveal_strlit("public");
    reveal_strlit("private");
    assert("public"@.len() != "private"@.len());
}

} // verus!
