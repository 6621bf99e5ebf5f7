//! The `create-faucet` command: the checks on its arguments and the report it
//! prints once the faucet account file is written.

use vstd::prelude::*;
use vstd::string::*;

use crate::text::{concat2, debug_quoted, debug_str, decimal, decimal_digits};
use crate::worker::{asset_amount_error, asset_amount_new, MAX_ASSET_AMOUNT};

use miden_protocol::asset::{AssetAmount, TokenSymbol};
use miden_standards::account::faucets::{FungibleFaucet, TokenName};

verus! {

/// Arguments of `create-faucet`.
#[derive(Debug, Clone)]
pub struct CreateFaucetArgs {
    /// Token ticker, e.g. "TOKA".
    pub symbol: String,
    /// Human-readable token name. Empty: the symbol is used.
    pub name: String,
    pub decimals: u8,
    /// Maximum supply, in base units.
    pub max_supply: u64,
    /// Output path for the account file.
    pub out: String,
}

/// A token symbol the protocol accepts: 1 to 12 characters, each `A`..`Z`.
pub open spec fn symbol_ok(s: Seq<char>) -> bool {
    &&& 1 <= s.len() <= 12
    &&& forall|i: int| 0 <= i < s.len() ==> 'A' <= #[trigger] s[i] <= 'Z'
}

/// A token name the standards accept: at most 32 bytes in UTF-8.
pub open spec fn name_ok(s: Seq<char>) -> bool {
    vstd::utf8::encode_utf8(s).len() <= 32
}

/// The text of the error `TokenSymbol::new` reports for `s`.
pub uninterp spec fn symbol_error(s: Seq<char>) -> Seq<char>;

/// The text of the error `TokenName::new` reports for `s`.
pub uninterp spec fn name_error(s: Seq<char>) -> Seq<char>;

/// The text of the error the fungible faucet builder reports for too many
/// decimals.
pub uninterp spec fn decimals_error(decimals: u8) -> Seq<char>;

/// The most decimals a fungible faucet supports.
pub const MAX_DECIMALS: u8 = 12;

#[verifier::external_type_specification]
#[verifier::external_body]
pub struct ExTokenSymbol(TokenSymbol);

#[verifier::external_type_specification]
#[verifier::external_body]
pub struct ExTokenName(TokenName);

/// Calls `TokenSymbol::new`, which accepts 1 to 12 characters, all `A`..`Z`.
#[verifier::external_body]
fn token_symbol_new(s: &str) -> (r: Result<TokenSymbol, String>)
    ensures
        r is Ok <==> symbol_ok(s@),
        r matches Err(e) ==> e@ == symbol_error(s@),
{
    match TokenSymbol::new(s) {
        Ok(symbol) => Ok(symbol),
        Err(e) => Err(e.to_string()),
    }
}

/// Calls `TokenName::new`, which accepts names of at most 32 bytes.
#[verifier::external_body]
fn token_name_new(s: &str) -> (r: Result<TokenName, String>)
    ensures
        r is Ok <==> name_ok(s@),
        r matches Err(e) ==> e@ == name_error(s@),
{
    match TokenName::new(s) {
        Ok(name) => Ok(name),
        Err(e) => Err(e.to_string()),
    }
}

/// Calls the fungible faucet builder (name, symbol, decimals, max supply,
/// no initial supply). With an initial supply of zero it fails exactly when
/// there are more than [`MAX_DECIMALS`] decimals.
#[verifier::external_body]
fn fungible_faucet_new(
    name: TokenName,
    symbol: TokenSymbol,
    decimals: u8,
    max_supply: AssetAmount,
) -> (r: Result<(), String>)
    ensures
        r is Ok <==> decimals <= MAX_DECIMALS,
        r matches Err(e) ==> e@ == decimals_error(decimals),
{
    match FungibleFaucet::builder().name(name).symbol(symbol).decimals(decimals).max_supply(max_supply).build() {
        Ok(_) => Ok(()),
        Err(e) => Err(e.to_string()),
    }
}

impl CreateFaucetArgs {
    /// The name the token gets: the given name, or the symbol when it is empty.
    pub open spec fn chosen_name(&self) -> Seq<char> {
        if self.name@.len() == 0 {
            self.symbol@
        } else {
            self.name@
        }
    }

    /// What [`CreateFaucetArgs::check`] answers: the symbol is checked first,
    /// then the chosen name, then the token metadata (maximum supply, then
    /// decimals).
    pub open spec fn checked(&self) -> Result<(), Seq<char>> {
        if !symbol_ok(self.symbol@) {
            Err("invalid token symbol "@ + debug_quoted(self.symbol@) + ": "@ + symbol_error(self.symbol@))
        } else if !name_ok(self.chosen_name()) {
            Err("invalid token name "@ + debug_quoted(self.chosen_name()) + ": "@ + name_error(
                self.chosen_name(),
            ))
        } else if self.max_supply > MAX_ASSET_AMOUNT {
            Err("failed to build token metadata: "@ + asset_amount_error(self.max_supply))
        } else if self.decimals > MAX_DECIMALS {
            Err("failed to build token metadata: "@ + decimals_error(self.decimals))
        } else {
            Ok(())
        }
    }

    /// The name the token gets.
    pub fn name_or_symbol(&self) -> (r: &str)
        ensures
            r@ == self.chosen_name(),
    {
        if self.name.as_str().is_empty() {
            self.symbol.as_str()
        } else {
            self.name.as_str()
        }
    }

    /// Checks the symbol, the name and the token metadata before the faucet
    /// account is built.
    pub fn check(&self) -> (r: Result<(), String>)
        ensures
            r is Ok <==> self.checked() is Ok,
            r matches Err(e) ==> self.checked() == Err::<(), Seq<char>>(e@),
    {
        let symbol = match token_symbol_new(self.symbol.as_str()) {
            Ok(symbol) => symbol,
            Err(e) => {
                let m = String::from_str("invalid token symbol ");
                let m = m.concat(debug_str(self.symbol.as_str()).as_str());
                let m = m.concat(": ");
                return Err(m.concat(e.as_str()));
            },
        };
        let name_text = self.name_or_symbol();
        let name = match token_name_new(name_text) {
            Ok(name) => name,
            Err(e) => {
                let m = String::from_str("invalid token name ");
                let m = m.concat(debug_str(name_text).as_str());
                let m = m.concat(": ");
                return Err(m.concat(e.as_str()));
            },
        };
        let max_supply = match asset_amount_new(self.max_supply) {
            Ok(amount) => amount,
            Err(e) => return Err(concat2("failed to build token metadata: ", e.as_str())),
        };
        match fungible_faucet_new(name, symbol, self.decimals, max_supply) {
            Ok(()) => Ok(()),
            Err(e) => Err(concat2("failed to build token metadata: ", e.as_str())),
        }
    }

    /// The lines printed after the account file is written, for the account
    /// with the given hex id.
    pub open spec fn report(&self, account_id: Seq<char>) -> Seq<Seq<char>> {
        seq![
            "Created public fungible faucet"@,
            "  symbol:     "@ + self.symbol@,
            "  decimals:   "@ + decimal_digits(self.decimals as nat),
            "  account id: "@ + account_id,
            "  written to: "@ + self.out@,
            ""@,
            "Add a [[tokens]] entry to faucet.toml referencing this .mac, with its own"@,
            "store_path and keystore_path. The faucet deploys on-chain on its first mint."@,
        ]
    }

    /// The report printed after the account file is written.
    pub fn report_lines(&self, account_id: &str) -> (r: Vec<String>)
        ensures
            r@.len() == 8,
            forall|i: int| 0 <= i < 8 ==> #[trigger] r@[i]@ == self.report(account_id@)[i],
    {
        let mut lines: Vec<String> = Vec::new();
        lines.push(String::from_str("Created public fungible faucet"));
        lines.push(String::from_str("  symbol:     ").concat(self.symbol.as_str()));
        lines.push(String::from_str("  decimals:   ").concat(decimal(self.decimals as u64).as_str()));
        lines.push(String::from_str("  account id: ").concat(account_id));
        lines.push(String::from_str("  written to: ").concat(self.out.as_str()));
        lines.push(String::from_str(""));
        lines.push(
            String::from_str(
                "Add a [[tokens]] entry to faucet.toml referencing this .mac, with its own",
            ),
        );
        lines.push(
            String::from_str(
                "store_path and keystore_path. The faucet deploys on-chain on its first mint.",
            ),
        );
        lines
    }
}

/// The creation report shows the given symbol, decimals, account id and
/// output path, and does not depend on the token's name: two argument sets
/// that differ only in name (or maximum supply) give the same report.
pub proof fn lemma_report_shows_arguments(a: CreateFaucetArgs, b: CreateFaucetArgs, account_id: Seq<char>)
    requires
        a.symbol@ == b.symbol@,
        a.decimals == b.decimals,
        a.out@ == b.out@,
    ensures
        a.report(account_id).len() == 8,
        a.report(account_id)[1] == "  symbol:     "@ + a.symbol@,
        a.report(account_id)[2] == "  decimals:   "@ + decimal_digits(a.decimals as nat),
        a.report(account_id)[3] == "  account id: "@ + account_id,
        a.report(account_id)[4] == "  written to: "@ + a.out@,
        a.report(account_id) == b.report(account_id),
{
}

/// The arguments are accepted exactly when the symbol is 1 to 12 letters
/// `A`..`Z`, the name used (the given one, or the symbol when none is given)
/// has at most 32 bytes, the maximum supply is a valid asset amount and there
/// are at most 12 decimals.
pub proof fn lemma_faucet_args_accepted_exactly(a: CreateFaucetArgs)
    ensures
        a.checked() is Ok <==> {
            &&& 1 <= a.symbol@.len() <= 12
            &&& forall|i: int| 0 <= i < a.symbol@.len() ==> 'A' <= #[trigger] a.symbol@[i] <= 'Z'
            &&& vstd::utf8::encode_utf8(if a.name@.len() == 0 { a.symbol@ } else { a.name@ }).len() <= 32
            &&& a.max_supply <= 9223372034707292160
            &&& a.decimals <= 12
        },
        a.name@.len() > 0 ==> a.chosen_name() == a.name@,
        a.name@.len() == 0 ==> a.chosen_name() == a.symbol@,
{
}

} // verus!
