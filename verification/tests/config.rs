use std::path::PathBuf;

use tf2_terminal::error::AppError;
use tf2_terminal::infra::config::{AppPaths, Config};
use tf2_terminal::infra::keychain::{
    keys, store_candidates, Keychain, Platform, StoreAnswer, StoreKind, SERVICE,
};

#[test]
fn default_config_polls_every_minute() {
    let config = Config::default();
    assert_eq!(config.log_level, "info");
    assert_eq!(config.market_poll_interval_secs, 60);
    assert_eq!(config.inventory_refresh_interval_secs, 300);
    assert!(config.steam_id.is_none());
}

#[test]
fn app_paths_live_under_the_app_directory() {
    let paths = AppPaths::from_base_dirs(
        Some(PathBuf::from("/home/u/.config")),
        Some(PathBuf::from("/home/u/.local/share")),
    )
    .unwrap();
    assert_eq!(paths.config_dir, PathBuf::from("/home/u/.config/tf2-terminal"));
    assert_eq!(paths.config_file(), PathBuf::from("/home/u/.config/tf2-terminal/config.toml"));
    assert_eq!(paths.db_file(), PathBuf::from("/home/u/.local/share/tf2-terminal/tf2-terminal.db"));
    assert_eq!(paths.log_dir(), PathBuf::from("/home/u/.local/share/tf2-terminal/logs"));
}

#[test]
fn app_paths_need_both_base_directories() {
    match AppPaths::from_base_dirs(None, None) {
        Err(AppError::Config(m)) => assert_eq!(m, "could not resolve OS config directory"),
        other => panic!("unexpected: {:?}", other.map(|p| p.config_dir)),
    }
    match AppPaths::from_base_dirs(Some(PathBuf::from("/c")), None) {
        Err(AppError::Config(m)) => assert_eq!(m, "could not resolve OS data directory"),
        other => panic!("unexpected: {:?}", other.map(|p| p.config_dir)),
    }
}

#[test]
fn keychain_answers_map_to_results() {
    assert_eq!(SERVICE, "tf2-terminal");
    assert_eq!(keys::DISCORD_WEBHOOK_URL, "discord_webhook_url");
    assert_eq!(
        Keychain::get_result(StoreAnswer::Done("secret".to_string())),
        Ok(Some("secret".to_string()))
    );
    assert_eq!(Keychain::get_result(StoreAnswer::NoEntry), Ok(None));
    assert_eq!(
        Keychain::get_result(StoreAnswer::Failed("locked".to_string())),
        Err(AppError::Keychain("locked".to_string()))
    );
    assert_eq!(Keychain::delete_result(StoreAnswer::NoEntry), Ok(()));
    assert_eq!(
        Keychain::delete_result(StoreAnswer::Failed("locked".to_string())),
        Err(AppError::Keychain("locked".to_string()))
    );
    assert_eq!(Keychain::set_result(StoreAnswer::Done(())), Ok(()));
}

#[test]
fn linux_falls_back_to_the_kernel_keyring_after_secret_service() {
    assert_eq!(
        store_candidates(Platform::Linux),
        vec![StoreKind::SecretService, StoreKind::KernelKeyring]
    );
    assert_eq!(store_candidates(Platform::MacOs), vec![StoreKind::AppleKeychain]);
    assert_eq!(store_candidates(Platform::Windows), vec![StoreKind::WindowsCredentialManager]);
    assert_eq!(store_candidates(Platform::OtherUnix), vec![StoreKind::SecretService]);
    assert!(store_candidates(Platform::Other).is_empty());
    assert!(StoreKind::KernelKeyring.cleared_on_reboot());
    assert!(!StoreKind::SecretService.cleared_on_reboot());
}
