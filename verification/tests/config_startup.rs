use inicio_faucet::config::{
    default_max_batch_size, default_static_dir, FaucetConfig, RpcConfig, ServerConfig, TokenConfig,
};
use inicio_faucet::create_faucet::CreateFaucetArgs;
use inicio_faucet::startup::{gate, token_metas, ReadyReport, QUEUE_CAPACITY};

fn token(symbol: &str, cap: Option<u64>) -> TokenConfig {
    TokenConfig {
        symbol: symbol.to_string(),
        name: format!("Token {symbol}"),
        decimals: 6,
        account_file: format!("faucets/{symbol}.mac"),
        store_path: format!("stores/{symbol}.sqlite3"),
        keystore_path: format!("keystores/{symbol}"),
        max_mint_amount: cap,
    }
}

fn config(tokens: Vec<TokenConfig>, max_batch_size: usize) -> FaucetConfig {
    FaucetConfig {
        rpc: RpcConfig {
            endpoint: "https://rpc.devnet.miden.io".into(),
            timeout_ms: 10_000,
            remote_prover_url: None,
        },
        server: ServerConfig {
            bind: "127.0.0.1:8080".into(),
            max_batch_size,
            static_dir: default_static_dir(),
            cors_allowed_origins: vec![],
        },
        tokens,
    }
}

#[test]
fn defaults() {
    assert_eq!(default_max_batch_size(), 256);
    assert_eq!(default_static_dir(), "static");
    assert_eq!(QUEUE_CAPACITY, 1024);
}

#[test]
fn config_needs_tokens_and_a_batch_size() {
    assert!(config(vec![token("TOKA", None)], 256).validate().is_ok());
    assert!(config(vec![token("TOKA", None)], 1).validate().is_ok());
    assert_eq!(
        config(vec![], 256).validate().unwrap_err(),
        "config has no [[tokens]] entries"
    );
    assert_eq!(
        config(vec![token("TOKA", None)], 0).validate().unwrap_err(),
        "server.max_batch_size must be at least 1"
    );
    // the token list is checked first
    assert_eq!(config(vec![], 0).validate().unwrap_err(), "config has no [[tokens]] entries");
}

#[test]
fn token_list_mirrors_the_config() {
    let cfg = config(vec![token("TOKA", None), token("TOKB", Some(500))], 8);
    let metas = token_metas(&cfg).unwrap();
    assert_eq!(metas.len(), 2);
    assert_eq!(metas[0].symbol, "TOKA");
    assert_eq!(metas[0].name, "Token TOKA");
    assert_eq!(metas[0].decimals, 6);
    assert_eq!(metas[0].max_amount, None);
    assert_eq!(metas[1].max_amount, Some(500));
}

#[test]
fn repeated_symbol_stops_startup_at_the_first_repeat() {
    let cfg = config(
        vec![token("TOKA", None), token("TOKB", None), token("TOKB", None), token("TOKA", None)],
        8,
    );
    assert_eq!(token_metas(&cfg).unwrap_err(), "duplicate token symbol in config: TOKB");
}

#[test]
fn startup_gate_messages() {
    assert!(gate("TOKA", ReadyReport::Ready).is_ok());
    assert_eq!(
        gate("TOKA", ReadyReport::Failed("[TOKA] bad key".into())).unwrap_err(),
        "faucet TOKA failed to start: [TOKA] bad key"
    );
    assert_eq!(
        gate("TOKB", ReadyReport::Vanished).unwrap_err(),
        "faucet TOKB worker exited before signalling readiness"
    );
}

fn args(symbol: &str, name: &str) -> CreateFaucetArgs {
    CreateFaucetArgs {
        symbol: symbol.into(),
        name: name.into(),
        decimals: 8,
        max_supply: 1_000_000_000_000,
        out: "./faucets/toka.mac".into(),
    }
}

#[test]
fn faucet_arguments_are_checked() {
    assert!(args("TOKA", "Token A").check().is_ok());
    assert!(args("ABCDEFGHIJKL", "").check().is_ok());
    let err = args("toka", "Token A").check().unwrap_err();
    assert!(err.starts_with("invalid token symbol \"toka\": "), "{err}");
    assert!(err.len() > "invalid token symbol \"toka\": ".len());
    assert!(args("ABCDEFGHIJKLM", "x").check().is_err());
    assert!(args("", "x").check().is_err());
    let long = "n".repeat(33);
    let err = args("TOKA", &long).check().unwrap_err();
    assert!(err.starts_with(&format!("invalid token name \"{long}\": ")), "{err}");
    assert!(args("TOKA", &"n".repeat(32)).check().is_ok());
    // 11 three-byte characters are 33 bytes
    assert!(args("TOKA", &"€".repeat(11)).check().is_err());
    assert!(args("TOKA", &"€".repeat(10)).check().is_ok());
}

#[test]
fn faucet_metadata_limits_are_checked() {
    let mut a = args("TOKA", "Token A");
    a.decimals = 12;
    assert!(a.check().is_ok());
    a.decimals = 13;
    let err = a.check().unwrap_err();
    assert!(err.starts_with("failed to build token metadata: "), "{err}");
    assert!(err.contains("13"), "{err}");
    let mut a = args("TOKA", "Token A");
    a.max_supply = (1u64 << 63) - (1u64 << 31);
    assert!(a.check().is_ok());
    a.max_supply += 1;
    let err = a.check().unwrap_err();
    assert!(err.starts_with("failed to build token metadata: "), "{err}");
    // the symbol is checked before the metadata
    let mut a = args("bad", "Token A");
    a.decimals = 200;
    assert!(a.check().unwrap_err().starts_with("invalid token symbol"));
}

#[test]
fn empty_name_falls_back_to_the_symbol() {
    assert_eq!(args("TOKA", "").name_or_symbol(), "TOKA");
    assert_eq!(args("TOKA", "Token A").name_or_symbol(), "Token A");
}

#[test]
fn creation_report_lines() {
    let lines = args("TOKA", "").report_lines("0xaa0000000000bb110000cc000000dd");
    assert_eq!(
        lines,
        vec![
            "Created public fungible faucet",
            "  symbol:     TOKA",
            "  decimals:   8",
            "  account id: 0xaa0000000000bb110000cc000000dd",
            "  written to: ./faucets/toka.mac",
            "",
            "Add a [[tokens]] entry to faucet.toml referencing this .mac, with its own",
            "store_path and keystore_path. The faucet deploys on-chain on its first mint.",
        ]
    );
}
