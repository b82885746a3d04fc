use wavs_frontend::client::ClientKeyKind;
use wavs_frontend::config::ConfigDebug;
use wavs_frontend::pages::landing::LandingUi;
use wavs_frontend::pages::wallet_connect::{
    ConnectAction, Phase, SignerKind, WalletConnectUi, WalletConnectView,
};
use wavs_frontend::route::Route;

const ANVIL: &str = "test test test test test test test test test test test junk";

#[test]
fn landing_page_leads_to_the_wallet_page_first() {
    let view = LandingUi::new().render(false);
    assert_eq!(view.title, "WAVS Rust Demo");
    assert_eq!(view.subtitle, "This is a demo of integrating with WAVS in the browser");
    assert_eq!(view.button, "Start");
    assert_eq!(view.target, Route::WalletConnect);
}

#[test]
fn landing_page_leads_to_the_application_once_connected() {
    assert_eq!(LandingUi::new().render(true).target, Route::App);
    assert_eq!(LandingUi::new(), LandingUi {});
}

#[test]
fn wallet_page_starts_empty_in_release_mode() {
    let ui = WalletConnectUi::new(&ConfigDebug::release_mode());
    assert_eq!(
        ui,
        WalletConnectUi {
            wallet_connected: false,
            client_key_kind: None,
            error: None,
            phase: Phase::Init,
        }
    );
    assert_eq!(ui.render(), WalletConnectView::WalletSelect(None));
}

#[test]
fn wallet_page_takes_the_automatic_choice() {
    let ui = WalletConnectUi::new(&ConfigDebug::dev_mode(true));
    assert_eq!(ui.client_key_kind, Some(ClientKeyKind::Metamask));
    assert_eq!(ui.phase, Phase::Init);
    let manual = WalletConnectUi::new(&ConfigDebug::dev_mode(false));
    assert_eq!(manual.client_key_kind, None);
}

#[test]
fn automatic_choice_connects_without_a_click() {
    let mut ui = WalletConnectUi::new(&ConfigDebug::dev_mode(true));
    assert_eq!(ui.on_phase(), ConnectAction::Reconsider);
    assert_eq!(ui.phase, Phase::Connecting);
    assert_eq!(ui.render(), WalletConnectView::Connecting);
    assert_eq!(ui.on_phase(), ConnectAction::Connect(ClientKeyKind::Metamask));
    assert_eq!(ui.phase, Phase::Connecting);
    assert_eq!(ui.on_connect_result(None), ConnectAction::GoTo(Route::App));
    assert!(ui.wallet_connected);
    assert_eq!(ui.render(), WalletConnectView::Connected);
}

#[test]
fn nothing_happens_until_a_signer_is_picked() {
    let mut ui = WalletConnectUi::new(&ConfigDebug::release_mode());
    assert_eq!(ui.on_phase(), ConnectAction::Idle);
    assert_eq!(ui.phase, Phase::Init);
    assert!(WalletConnectUi::connect_disabled(None));
    assert!(!WalletConnectUi::connect_disabled(Some(SignerKind::Anvil)));
    ui.press_connect();
    assert_eq!(ui.on_phase(), ConnectAction::Idle);
}

#[test]
fn menu_entries_stand_for_key_choices() {
    let mut ui = WalletConnectUi::new(&ConfigDebug::release_mode());
    ui.select_signer(SignerKind::Anvil);
    assert_eq!(ui.client_key_kind, Some(ClientKeyKind::Mnemonic(ANVIL.to_string())));
    ui.select_signer(SignerKind::Metamask);
    assert_eq!(ui.client_key_kind, Some(ClientKeyKind::Metamask));
    ui.select_signer(SignerKind::Mnemonic);
    assert_eq!(ui.client_key_kind, Some(ClientKeyKind::Mnemonic(String::new())));
    ui.set_mnemonic(Some("abandon ability".to_string()));
    assert_eq!(ui.client_key_kind, Some(ClientKeyKind::Mnemonic("abandon ability".to_string())));
    ui.set_mnemonic(None);
    assert_eq!(ui.client_key_kind, Some(ClientKeyKind::Mnemonic(String::new())));
    assert_eq!(ui.phase, Phase::Init);
    assert!(!ui.wallet_connected);
}

#[test]
fn picked_signer_connects_on_click() {
    let mut ui = WalletConnectUi::new(&ConfigDebug::release_mode());
    ui.select_signer(SignerKind::Anvil);
    ui.press_connect();
    assert_eq!(ui.phase, Phase::Connecting);
    assert_eq!(ui.on_phase(), ConnectAction::Connect(ClientKeyKind::Mnemonic(ANVIL.to_string())));
}

#[test]
fn mnemonic_failure_shows_a_fixed_text() {
    let mut ui = WalletConnectUi::new(&ConfigDebug::release_mode());
    ui.select_signer(SignerKind::Mnemonic);
    ui.press_connect();
    let action = ui.on_connect_result(Some("invalid word count".to_string()));
    assert_eq!(action, ConnectAction::Idle);
    assert_eq!(ui.error, Some("Unable to connect".to_string()));
    assert_eq!(ui.phase, Phase::Connecting);
    assert!(!ui.wallet_connected);
    assert_eq!(ui.render(), WalletConnectView::Connecting);
}

#[test]
fn injected_wallet_failure_shows_its_own_text_for_a_retry() {
    let mut ui = WalletConnectUi::new(&ConfigDebug::release_mode());
    ui.select_signer(SignerKind::Metamask);
    ui.press_connect();
    let action = ui.on_connect_result(Some("No accounts".to_string()));
    assert_eq!(action, ConnectAction::Idle);
    assert_eq!(ui.phase, Phase::MetamaskError("No accounts".to_string()));
    assert_eq!(ui.error, None);
    assert_eq!(ui.render(), WalletConnectView::WalletSelect(Some("No accounts".to_string())));
    assert_eq!(ui.on_phase(), ConnectAction::Idle);
    ui.press_connect();
    assert_eq!(ui.on_phase(), ConnectAction::Connect(ClientKeyKind::Metamask));
    assert_eq!(ui.phase.clone(), Phase::Connecting);
}
