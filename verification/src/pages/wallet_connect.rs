//! The page on which the user picks a signer and connects.

use vstd::prelude::*;
use vstd::string::*;
use crate::client::{ClientKeyKind, KeyKindView};
use crate::config::ConfigDebug;
use crate::route::Route;

verus! {

/// Progress of a connection attempt.
#[derive(Debug, PartialEq, Eq)]
pub enum Phase {
    Init,
    Connecting,
    /// The injected wallet refused; the text says why.
    MetamaskError(String),
}

/// Mathematical form of a phase.
pub enum PhaseView {
    Init,
    Connecting,
    MetamaskError(Seq<char>),
}

impl View for Phase {
    type V = PhaseView;

    open spec fn view(&self) -> PhaseView {
        match self {
            Phase::Init => PhaseView::Init,
            Phase::Connecting => PhaseView::Connecting,
            Phase::MetamaskError(text) => PhaseView::MetamaskError(text@),
        }
    }
}

impl Clone for Phase {
    fn clone(&self) -> (r: Self)
        ensures
            r == *self,
    {
        match self {
            Phase::Init => Phase::Init,
            Phase::Connecting => Phase::Connecting,
            Phase::MetamaskError(text) => Phase::MetamaskError(text.clone()),
        }
    }
}

/// The entries of the signer menu.
#[derive(Debug, Clone, Copy, PartialEq, Eq, Structural)]
pub enum SignerKind {
    Mnemonic,
    Metamask,
    Anvil,
}

/// What the page asks its host to do next.
#[derive(Debug, PartialEq, Eq)]
pub enum ConnectAction {
    /// Nothing.
    Idle,
    /// Look at the phase again: it has changed.
    Reconsider,
    /// Connect with this choice and report the outcome.
    Connect(ClientKeyKind),
    /// Go to this page.
    GoTo(Route),
}

/// Mathematical form of an action.
pub enum ConnectActionView {
    Idle,
    Reconsider,
    Connect(KeyKindView),
    GoTo(Route),
}

impl View for ConnectAction {
    type V = ConnectActionView;

    open spec fn view(&self) -> ConnectActionView {
        match self {
            ConnectAction::Idle => ConnectActionView::Idle,
            ConnectAction::Reconsider => ConnectActionView::Reconsider,
            ConnectAction::Connect(kind) => ConnectActionView::Connect(kind@),
            ConnectAction::GoTo(route) => ConnectActionView::GoTo(*route),
        }
    }
}

/// What the page shows.
#[derive(Debug, PartialEq, Eq)]
pub enum WalletConnectView {
    /// Connected: nothing but the heading, for a moment.
    Connected,
    /// The signer menu, under an error text if the last attempt failed.
    WalletSelect(Option<String>),
    /// The notice that a connection is being made.
    Connecting,
}

/// Mathematical form of what the page shows.
pub enum WalletConnectViewModel {
    Connected,
    WalletSelect(Option<Seq<char>>),
    Connecting,
}

impl View for WalletConnectView {
    type V = WalletConnectViewModel;

    open spec fn view(&self) -> WalletConnectViewModel {
        match self {
            WalletConnectView::Connected => WalletConnectViewModel::Connected,
            WalletConnectView::WalletSelect(Some(text)) => WalletConnectViewModel::WalletSelect(
                Some(text@),
            ),
            WalletConnectView::WalletSelect(None) => WalletConnectViewModel::WalletSelect(None),
            WalletConnectView::Connecting => WalletConnectViewModel::Connecting,
        }
    }
}

/// State of the wallet page.
#[derive(Debug, PartialEq, Eq)]
pub struct WalletConnectUi {
    pub wallet_connected: bool,
    pub client_key_kind: Option<ClientKeyKind>,
    pub error: Option<String>,
    pub phase: Phase,
}

/// Mathematical form of the page's state.
pub struct WalletConnectModel {
    pub wallet_connected: bool,
    pub client_key_kind: Option<KeyKindView>,
    pub error: Option<Seq<char>>,
    pub phase: PhaseView,
}

impl View for WalletConnectUi {
    type V = WalletConnectModel;

    open spec fn view(&self) -> WalletConnectModel {
        WalletConnectModel {
            wallet_connected: self.wallet_connected,
            client_key_kind: match self.client_key_kind {
                Some(kind) => Some(kind@),
                None => None,
            },
            error: match self.error {
                Some(text) => Some(text@),
                None => None,
            },
            phase: self.phase@,
        }
    }
}

/// The key choice that a menu entry stands for: an empty phrase to be typed
/// over, the injected wallet, or the development chain's well-known phrase.
pub open spec fn key_kind_of(signer: SignerKind) -> KeyKindView {
    match signer {
        SignerKind::Mnemonic => KeyKindView::Mnemonic(Seq::empty()),
        SignerKind::Metamask => KeyKindView::Metamask,
        SignerKind::Anvil => KeyKindView::Mnemonic(
            "test test test test test test test test test test test junk"@,
        ),
    }
}

/// The state after the phase has been looked at, and what is asked of the
/// host: from `Init` with a choice made the page moves to `Connecting`; in
/// `Connecting` it asks for the connection; otherwise nothing happens.
pub open spec fn phase_step(m: WalletConnectModel) -> (WalletConnectModel, ConnectActionView) {
    match m.phase {
        PhaseView::Init => if m.client_key_kind is Some {
            (WalletConnectModel { phase: PhaseView::Connecting, ..m }, ConnectActionView::Reconsider)
        } else {
            (m, ConnectActionView::Idle)
        },
        PhaseView::Connecting => match m.client_key_kind {
            Some(kind) => (m, ConnectActionView::Connect(kind)),
            None => (m, ConnectActionView::Idle),
        },
        PhaseView::MetamaskError(_) => (m, ConnectActionView::Idle),
    }
}

/// The state after a connection attempt has ended. Success marks the wallet
/// as connected. A failure with a mnemonic shows a fixed text; a failure of
/// the injected wallet moves to the error phase with the wallet's own text.
pub open spec fn result_step(m: WalletConnectModel, failure: Option<Seq<char>>) -> (
    WalletConnectModel,
    ConnectActionView,
) {
    match failure {
        None => (
            WalletConnectModel { wallet_connected: true, ..m },
            ConnectActionView::GoTo(Route::App),
        ),
        Some(text) => match m.client_key_kind {
            Some(KeyKindView::Mnemonic(_)) => (
                WalletConnectModel { error: Some("Unable to connect"@), ..m },
                ConnectActionView::Idle,
            ),
            Some(KeyKindView::Metamask) => (
                WalletConnectModel { phase: PhaseView::MetamaskError(text), ..m },
                ConnectActionView::Idle,
            ),
            None => (m, ConnectActionView::Idle),
        },
    }
}

/// What a state shows.
pub open spec fn shown(m: WalletConnectModel) -> WalletConnectViewModel {
    if m.wallet_connected {
        WalletConnectViewModel::Connected
    } else {
        match m.phase {
            PhaseView::Init => WalletConnectViewModel::WalletSelect(None),
            PhaseView::Connecting => WalletConnectViewModel::Connecting,
            PhaseView::MetamaskError(text) => WalletConnectViewModel::WalletSelect(Some(text)),
        }
    }
}

impl WalletConnectUi {
    /// The page as first shown: not connected, no error, and the choice of
    /// signer already made if the configuration asks for an automatic
    /// connection.
    pub fn new(debug: &ConfigDebug) -> (ui: Self)
        ensures
            ui@ == (WalletConnectModel {
                wallet_connected: false,
                client_key_kind: match debug.auto_connect {
                    Some(auto) => Some(auto.key_kind@),
                    None => None,
                },
                error: None,
                phase: PhaseView::Init,
            }),
    {
        WalletConnectUi {
            wallet_connected: false,
            client_key_kind: match &debug.auto_connect {
                Some(auto) => Some(auto.key_kind.clone()),
                None => None,
            },
            error: None,
            phase: Phase::Init,
        }
    }

    /// Whether the connect button is disabled: it is until a signer is picked
    /// from the menu.
    pub fn connect_disabled(picked: Option<SignerKind>) -> (disabled: bool)
        ensures
            disabled == (picked is None),
    {
        picked.is_none()
    }

    /// Records the menu entry that the user picked.
    pub fn select_signer(&mut self, signer: SignerKind)
        ensures
            final(self)@ == (WalletConnectModel {
                client_key_kind: Some(key_kind_of(signer)),
                ..old(self)@
            }),
    {
        let kind = match signer {
            SignerKind::Mnemonic => ClientKeyKind::Mnemonic(String::new()),
            SignerKind::Metamask => ClientKeyKind::Metamask,
            SignerKind::Anvil => ClientKeyKind::Mnemonic(
                String::from_str("test test test test test test test test test test test junk"),
            ),
        };
        self.client_key_kind = Some(kind);
    }

    /// Records the phrase typed into the mnemonic field; an empty field
    /// counts as the empty phrase.
    pub fn set_mnemonic(&mut self, mnemonic: Option<String>)
        ensures
            final(self)@ == (WalletConnectModel {
                client_key_kind: Some(
                    KeyKindView::Mnemonic(
                        match mnemonic {
                            Some(text) => text@,
                            None => Seq::empty(),
                        },
                    ),
                ),
                ..old(self)@
            }),
    {
        let phrase = match mnemonic {
            Some(text) => text,
            None => String::new(),
        };
        self.client_key_kind = Some(ClientKeyKind::Mnemonic(phrase));
    }

    /// The connect button was pressed.
    pub fn press_connect(&mut self)
        ensures
            final(self)@ == (WalletConnectModel { phase: PhaseView::Connecting, ..old(self)@ }),
    {
        self.phase = Phase::Connecting;
    }

    /// Looks at the phase and says what the host is to do.
    pub fn on_phase(&mut self) -> (action: ConnectAction)
        ensures
            (final(self)@, action@) == phase_step(old(self)@),
    {
        match &self.phase {
            Phase::Init => {
                if self.client_key_kind.is_some() {
                    self.phase = Phase::Connecting;
                    ConnectAction::Reconsider
                } else {
                    ConnectAction::Idle
                }
            },
            Phase::Connecting => match &self.client_key_kind {
                Some(kind) => ConnectAction::Connect(kind.clone()),
                None => ConnectAction::Idle,
            },
            Phase::MetamaskError(_) => ConnectAction::Idle,
        }
    }

    /// Takes the outcome of the connection that `on_phase` asked for: `None`
    /// for success, the failure's text otherwise.
    pub fn on_connect_result(&mut self, failure: Option<String>) -> (action: ConnectAction)
        ensures
            (final(self)@, action@) == result_step(
                old(self)@,
                match failure {
                    Some(text) => Some(text@),
                    None => None,
                },
            ),
    {
        match failure {
            None => {
                self.wallet_connected = true;
                ConnectAction::GoTo(Route::App)
            },
            Some(text) => {
                match &self.client_key_kind {
                    Some(ClientKeyKind::Mnemonic(_)) => {
                        self.error = Some(String::from_str("Unable to connect"));
                    },
                    Some(ClientKeyKind::Metamask) => {
                        self.phase = Phase::MetamaskError(text);
                    },
                    None => {},
                }
                ConnectAction::Idle
            },
        }
    }

    /// What the page shows in its present state.
    pub fn render(&self) -> (view: WalletConnectView)
        ensures
            view@ == shown(self@),
    {
        if self.wallet_connected {
            WalletConnectView::Connected
        } else {
            match &self.phase {
                Phase::Init => WalletConnectView::WalletSelect(None),
                Phase::Connecting => WalletConnectView::Connecting,
                Phase::MetamaskError(text) => WalletConnectView::WalletSelect(Some(text.clone())),
            }
        }
    }
}

} // verus!
