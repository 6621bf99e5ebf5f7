//! Runtime configuration: the model of the TOML file and the checks that a
//! parsed configuration must pass before the service starts.

use vstd::prelude::*;
use vstd::string::*;

verus! {

/// Top-level faucet service configuration.
#[derive(Debug, Clone)]
pub struct FaucetConfig {
    pub rpc: RpcConfig,
    pub server: ServerConfig,
    /// One entry per faucet/token. Four are expected, but any number works.
    pub tokens: Vec<TokenConfig>,
}

/// Connection to the node.
#[derive(Debug, Clone)]
pub struct RpcConfig {
    /// Node gRPC endpoint, e.g. `https://rpc.devnet.miden.io`.
    pub endpoint: String,
    pub timeout_ms: u64,
    /// Optional remote transaction prover. When unset, transactions are proved
    /// locally.
    pub remote_prover_url: Option<String>,
}

/// The HTTP side of the service.
#[derive(Debug, Clone)]
pub struct ServerConfig {
    /// Socket address to bind, e.g. `127.0.0.1:8080`.
    pub bind: String,
    /// Maximum number of notes minted per transaction: a worker drains up to
    /// this many queued requests at once.
    pub max_batch_size: usize,
    /// Directory served for the static frontend.
    pub static_dir: String,
    /// Origins allowed to call the API from another site (CORS). Empty: none.
    pub cors_allowed_origins: Vec<String>,
}

/// One faucet account, imported from the account file made by `create-faucet`.
#[derive(Debug, Clone)]
pub struct TokenConfig {
    /// Short ticker, used as the API key for this token (e.g. "TOKA").
    pub symbol: String,
    /// Human-readable name shown in the UI.
    pub name: String,
    pub decimals: u8,
    /// Path to the account file (account + signing key).
    pub account_file: String,
    /// Per-faucet store path (each worker is isolated).
    pub store_path: String,
    /// Per-faucet keystore directory.
    pub keystore_path: String,
    /// Optional cap on the amount mintable per request (base units).
    pub max_mint_amount: Option<u64>,
}

/// The batch size used when the configuration gives none.
pub fn default_max_batch_size() -> (r: usize)
    ensures
        r == 256,
{
    256
}

/// The static directory used when the configuration gives none.
pub fn default_static_dir() -> (r: String)
    ensures
        r@ == "static"@,
{
    String::from_str("static")
}

/// The message for a configuration without tokens.
pub open spec fn no_tokens_message() -> Seq<char> {
    "config has no [[tokens]] entries"@
}

/// The message for a configuration whose batch size is zero.
pub open spec fn zero_batch_message() -> Seq<char> {
    "server.max_batch_size must be at least 1"@
}

impl FaucetConfig {
    /// A configuration the service can start from: at least one token and a
    /// batch size of at least one.
    pub open spec fn well_formed(&self) -> bool {
        &&& self.tokens.len() > 0
        &&& self.server.max_batch_size >= 1
    }

    /// What [`FaucetConfig::validate`] answers: the token list is checked
    /// first, then the batch size.
    pub open spec fn validation(&self) -> Result<(), Seq<char>> {
        if self.tokens.len() == 0 {
            Err(no_tokens_message())
        } else if self.server.max_batch_size == 0 {
            Err(zero_batch_message())
        } else {
            Ok(())
        }
    }

    /// Any number of tokens of at least one, with a batch size of at least one,
    /// is accepted; nothing else is refused.
    pub proof fn lemma_accepted_exactly(&self)
        ensures
            self.validation() is Ok <==> (self.tokens@.len() >= 1 && self.server.max_batch_size >= 1),
            self.tokens@.len() == 0 ==> self.validation() == Err::<(), Seq<char>>(no_tokens_message()),
            self.tokens@.len() >= 1 && self.server.max_batch_size == 0 ==> self.validation() == Err::<
                (),
                Seq<char>,
            >(zero_batch_message()),
    {
    }

    /// Checks a parsed configuration, as loading the file does after parsing.
    pub fn validate(&self) -> (r: Result<(), String>)
        ensures
            r is Ok <==> self.well_formed(),
            r is Ok <==> (self.tokens@.len() > 0 && self.server.max_batch_size >= 1),
            self.tokens@.len() == 0 ==> (r matches Err(e) && e@ == no_tokens_message()),
            self.tokens@.len() > 0 && self.server.max_batch_size == 0 ==> (r matches Err(e) && e@
                == zero_batch_message()),
            r matches Err(e) ==> Err::<(), Seq<char>>(e@) == self.validation(),
            r is Ok ==> self.validation() is Ok,
    {
        if self.tokens.len() == 0 {
            return Err(String::from_str("config has no [[tokens]] entries"));
        }
        if self.server.max_batch_size == 0 {
            return Err(String::from_str("server.max_batch_size must be at least 1"));
        }
        Ok(())
    }
}

} // verus!
