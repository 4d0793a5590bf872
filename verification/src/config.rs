//! Startup configuration. Reading and parsing a configuration file is the
//! embedding process's job; this module holds the parsed shape and the
//! built-in demo configuration.

use vstd::prelude::*;

use crate::state::AppMode;

verus! {

/// Ledger connection settings.
#[derive(Clone)]
pub struct SolanaConfig {
    pub rpc_url: String,
    pub keypair_path: String,
    pub treasury_address: String,
}

/// Command-interface settings.
#[derive(Clone)]
pub struct TelegramConfig {
    pub bot_token: String,
    pub authorized_user_ids: Vec<u64>,
}

/// Operational settings.
#[derive(Clone)]
pub struct Settings {
    pub scan_interval_hours: u64,
    pub dry_run: bool,
    pub demo_only: Option<bool>,
    pub whitelist: Vec<String>,
}

/// The whole startup configuration.
#[derive(Clone)]
pub struct Config {
    pub mode: AppMode,
    pub solana: SolanaConfig,
    pub telegram: TelegramConfig,
    pub settings: Settings,
}

impl Config {
    /// The built-in demo configuration: demo mode, hourly dry-run scans
    /// against the development ledger, no credentials and no whitelist.
    pub fn demo() -> (c: Config)
        ensures
            c.mode == AppMode::Demo,
            c.solana.rpc_url@ == "https://api.devnet.solana.com"@,
            c.solana.keypair_path@ == "demo-keypair.json"@,
            c.solana.treasury_address@ == "DemoTreasury111111111111111111111111111111"@,
            c.telegram.bot_token@ == Seq::<char>::empty(),
            c.telegram.authorized_user_ids@ == Seq::<u64>::empty(),
            c.settings.scan_interval_hours == 1,
            c.settings.dry_run == true,
            c.settings.demo_only == Some(true),
            c.settings.whitelist@ == Seq::<String>::empty(),
    {
        Config {
            mode: AppMode::Demo,
            solana: SolanaConfig {
                rpc_url: "https://api.devnet.solana.com".to_owned(),
                keypair_path: "demo-keypair.json".to_owned(),
                treasury_address: "DemoTreasury111111111111111111111111111111".to_owned(),
            },
            telegram: TelegramConfig { bot_token: String::new(), authorized_user_ids: Vec::new() },
            settings: Settings {
                scan_interval_hours: 1,
                dry_run: true,
                demo_only: Some(true),
                whitelist: Vec::new(),
            },
        }
    }
}

} // verus!
