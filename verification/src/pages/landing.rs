//! The landing page.

use vstd::prelude::*;
use vstd::string::*;
use crate::route::Route;

verus! {

/// The landing page. It keeps no state of its own.
#[derive(Debug, Clone, Copy, PartialEq, Eq, Structural)]
pub struct LandingUi {}

/// What the landing page shows.
#[derive(Debug, PartialEq, Eq)]
pub struct LandingView {
    pub title: String,
    pub subtitle: String,
    /// Label of the one button.
    pub button: String,
    /// Where the button leads.
    pub target: Route,
}

impl LandingUi {
    pub fn new() -> (ui: Self)
        ensures
            ui == (LandingUi {  }),
    {
        LandingUi {  }
    }

    /// Where the start button leads: to the application once a wallet is
    /// connected, to the wallet page before.
    pub open spec fn start_target(connected: bool) -> Route {
        if connected {
            Route::App
        } else {
            Route::WalletConnect
        }
    }

    /// The content of the page, given whether a wallet is connected.
    pub fn render(&self, connected: bool) -> (view: LandingView)
        ensures
            view.title@ == "WAVS Rust Demo"@,
            view.subtitle@ == "This is a demo of integrating with WAVS in the browser"@,
            view.button@ == "Start"@,
            view.target == Self::start_target(connected),
    {
        LandingView {
            title: String::from_str("WAVS Rust Demo"),
            subtitle: String::from_str("This is a demo of integrating with WAVS in the browser"),
            button: String::from_str("Start"),
            target: if connected {
                Route::App
            } else {
                Route::WalletConnect
            },
        }
    }
}

} // verus!
