//! Service startup: one worker per configured token, the token list shown
//! by the API, and the readiness check of each worker.

use vstd::prelude::*;
use vstd::string::*;

use crate::config::{FaucetConfig, TokenConfig};
use crate::http::TokenMeta;
use crate::text::same_text;

verus! {

/// Capacity of each worker's order queue.
pub const QUEUE_CAPACITY: usize = 1024;

/// The index of the first token whose symbol repeats an earlier token's.
pub open spec fn first_duplicate(tokens: Seq<TokenConfig>) -> Option<int>
    decreases tokens.len(),
{
    if tokens.len() == 0 {
        None
    } else {
        match first_duplicate(tokens.drop_last()) {
            Some(i) => Some(i),
            None => if exists|j: int| 0 <= j < tokens.len() - 1 && tokens[j].symbol@ == tokens.last().symbol@ {
                Some(tokens.len() - 1)
            } else {
                None
            },
        }
    }
}

/// The metadata the API shows for a configured token.
pub open spec fn meta_of(meta: TokenMeta, token: TokenConfig) -> bool {
    &&& meta.symbol@ == token.symbol@
    &&& meta.name@ == token.name@
    &&& meta.decimals == token.decimals
    &&& meta.max_amount == token.max_mint_amount
}

/// The message for a configuration that repeats a token symbol.
pub open spec fn duplicate_message(symbol: Seq<char>) -> Seq<char> {
    "duplicate token symbol in config: "@ + symbol
}

/// The token list of the API, one entry per configured token in order, or
/// the error for the first symbol that repeats an earlier one.
pub fn token_metas(config: &FaucetConfig) -> (r: Result<Vec<TokenMeta>, String>)
    ensures
        first_duplicate(config.tokens@) matches Some(i) ==> (r matches Err(e) && e@ == duplicate_message(
            config.tokens@[i].symbol@,
        )),
        first_duplicate(config.tokens@) is None ==> (r matches Ok(v) && v@.len() == config.tokens@.len()
            && forall|i: int| 0 <= i < v@.len() ==> meta_of(#[trigger] v@[i], config.tokens@[i])),
        r matches Ok(v) ==> forall|i: int| 0 <= i < v@.len() ==> {
            &&& (#[trigger] v@[i]).symbol@ == config.tokens@[i].symbol@
            &&& v@[i].name@ == config.tokens@[i].name@
            &&& v@[i].decimals == config.tokens@[i].decimals
            &&& v@[i].max_amount == config.tokens@[i].max_mint_amount
        },
        r is Ok ==> first_duplicate(config.tokens@) is None,
{
    let tokens = &config.tokens;
    let n: usize = tokens.len();
    let mut metas: Vec<TokenMeta> = Vec::new();
    let mut i: usize = 0;
    while i < n
        invariant
            n == tokens@.len(),
            i <= n,
            first_duplicate(tokens@.take(i as int)) is None,
            tokens@ == config.tokens@,
            metas@.len() == i,
            forall|k: int| 0 <= k < i ==> meta_of(#[trigger] metas@[k], tokens@[k]),
        decreases n - i,
    {
        let ghost prefix = tokens@.take(i + 1);
        assert(prefix.drop_last() =~= tokens@.take(i as int));
        let token = &tokens[i];
        let mut j: usize = 0;
        while j < i
            invariant
                n == tokens@.len(),
                i < n,
                j <= i,
                metas@.len() == i,
                forall|k: int| 0 <= k < i ==> meta_of(#[trigger] metas@[k], tokens@[k]),
                forall|k: int| 0 <= k < j ==> tokens@[k].symbol@ != tokens@[i as int].symbol@,
                prefix == tokens@.take(i + 1),
                prefix.drop_last() == tokens@.take(i as int),
                first_duplicate(tokens@.take(i as int)) is None,
                token == &tokens@[i as int],
                tokens@ == config.tokens@,
            decreases i - j,
        {
            assert(meta_of(metas@[j as int], tokens@[j as int]));
            if same_text(metas[j].symbol.as_str(), token.symbol.as_str()) {
                proof {
                    assert(prefix[j as int] == tokens@[j as int]);
                    assert(first_duplicate(prefix) == Some(i as int));
                    lemma_duplicate_prefix(tokens@, i as int + 1);
                    assert(first_duplicate(config.tokens@) == Some(i as int));
                }
                let msg = String::from_str("duplicate token symbol in config: ");
                return Err(msg.concat(token.symbol.as_str()));
            }
            j = j + 1;
        }
        assert(!(exists|k: int| 0 <= k < prefix.len() - 1 && prefix[k].symbol@ == prefix.last().symbol@));
        metas.push(
            TokenMeta {
                symbol: token.symbol.clone(),
                name: token.name.clone(),
                decimals: token.decimals,
                max_amount: token.max_mint_amount,
            },
        );
        i = i + 1;
    }
    assert(tokens@.take(n as int) =~= tokens@);
    Ok(metas)
}

/// A duplicate found within a prefix is the first duplicate of the whole list.
proof fn lemma_duplicate_prefix(tokens: Seq<TokenConfig>, k: int)
    requires
        0 <= k <= tokens.len(),
        first_duplicate(tokens.take(k)) is Some,
    ensures
        first_duplicate(tokens) == first_duplicate(tokens.take(k)),
    decreases tokens.len() - k,
{
    if k < tokens.len() {
        assert(tokens.take(k + 1).drop_last() =~= tokens.take(k));
        lemma_duplicate_prefix(tokens, k + 1);
    } else {
        assert(tokens.take(k) =~= tokens);
    }
}

/// Every two tokens of a list without a repeated symbol have different symbols.
pub proof fn lemma_no_duplicate_distinct(tokens: Seq<TokenConfig>)
    requires
        first_duplicate(tokens) is None,
    ensures
        forall|a: int, b: int|
            0 <= a < b < tokens.len() ==> #[trigger] tokens[a].symbol@ != #[trigger] tokens[b].symbol@,
    decreases tokens.len(),
{
    if tokens.len() > 0 {
        let prefix = tokens.drop_last();
        lemma_no_duplicate_distinct(prefix);
        assert forall|a: int, b: int| 0 <= a < b < tokens.len() implies #[trigger] tokens[a].symbol@
            != #[trigger] tokens[b].symbol@ by {
            if b < tokens.len() - 1 {
                assert(prefix[a] == tokens[a]);
                assert(prefix[b] == tokens[b]);
            }
        }
    }
}

/// What a worker reported at startup.
#[derive(Debug, Clone)]
pub enum ReadyReport {
    /// Client built, account imported: the worker is serving.
    Ready,
    /// The worker could not start; its error.
    Failed(String),
    /// The worker went away without reporting.
    Vanished,
}

/// The startup gate for one worker: `Ok` when it is ready, else the error
/// that stops the service.
pub fn gate(symbol: &str, report: ReadyReport) -> (r: Result<(), String>)
    ensures
        report is Ready <==> r is Ok,
        report matches ReadyReport::Failed(e) ==> (r matches Err(m) && m@ == "faucet "@ + symbol@
            + " failed to start: "@ + e@),
        report is Vanished ==> (r matches Err(m) && m@ == "faucet "@ + symbol@
            + " worker exited before signalling readiness"@),
{
    match report {
        ReadyReport::Ready => Ok(()),
        ReadyReport::Failed(e) => {
            let m = String::from_str("faucet ");
            let m = m.concat(symbol);
            let m = m.concat(" failed to start: ");
            Err(m.concat(e.as_str()))
        },
        ReadyReport::Vanished => {
            let m = String::from_str("faucet ");
            let m = m.concat(symbol);
            Err(m.concat(" worker exited before signalling readiness"))
        },
    }
}

/// The token list the API serves has no two entries with the same symbol, so
/// a symbol names exactly one faucet.
pub proof fn lemma_api_symbols_distinct(config: FaucetConfig, metas: Seq<TokenMeta>)
    requires
        first_duplicate(config.tokens@) is None,
        metas.len() == config.tokens@.len(),
        forall|i: int| 0 <= i < metas.len() ==> meta_of(#[trigger] metas[i], config.tokens@[i]),
    ensures
        forall|a: int, b: int|
            0 <= a < b < metas.len() ==> #[trigger] metas[a].symbol@ != #[trigger] metas[b].symbol@,
{
    lemma_no_duplicate_distinct(config.tokens@);
    assert forall|a: int, b: int| 0 <= a < b < metas.len() implies #[trigger] metas[a].symbol@
        != #[trigger] metas[b].symbol@ by {
        assert(meta_of(metas[a], config.tokens@[a]));
        assert(meta_of(metas[b], config.tokens@[b]));
    }
}

/// Startup refuses a token list only for a repeated symbol: the token it
/// reports repeats the symbol of an earlier token, and a list whose symbols
/// are all different is accepted.
pub proof fn lemma_refused_only_for_repeated_symbol(tokens: Seq<TokenConfig>)
    ensures
        first_duplicate(tokens) matches Some(i) ==> 0 <= i < tokens.len() && exists|j: int|
            0 <= j < i && #[trigger] tokens[j].symbol@ == tokens[i].symbol@,
        (forall|a: int, b: int|
            0 <= a < b < tokens.len() ==> #[trigger] tokens[a].symbol@ != #[trigger] tokens[b].symbol@)
            ==> first_duplicate(tokens) is None,
    decreases tokens.len(),
{
    if tokens.len() > 0 {
        let prefix = tokens.drop_last();
        lemma_refused_only_for_repeated_symbol(prefix);
        assert forall|j: int| 0 <= j < prefix.len() implies prefix[j] == tokens[j] by {}
        if first_duplicate(prefix) is Some {
            let i = first_duplicate(prefix)->0;
            let j = choose|j: int| 0 <= j < i && #[trigger] prefix[j].symbol@ == prefix[i].symbol@;
            assert(tokens[j].symbol@ == tokens[i].symbol@);
        }
        if forall|a: int, b: int|
            0 <= a < b < tokens.len() ==> #[trigger] tokens[a].symbol@ != #[trigger] tokens[b].symbol@ {
            assert forall|a: int, b: int| 0 <= a < b < prefix.len() implies #[trigger] prefix[a].symbol@
                != #[trigger] prefix[b].symbol@ by {
                assert(tokens[a].symbol@ != tokens[b].symbol@);
            }
            assert(!exists|j: int|
                0 <= j < tokens.len() - 1 && tokens[j].symbol@ == tokens.last().symbol@) by {
                if exists|j: int| 0 <= j < tokens.len() - 1 && tokens[j].symbol@ == tokens.last().symbol@ {
                    let j = choose|j: int| 0 <= j < tokens.len() - 1 && tokens[j].symbol@ == tokens.last().symbol@;
                    assert(tokens[j].symbol@ != tokens[tokens.len() - 1].symbol@);
                }
            }
        }
    }
}

} // verus!
