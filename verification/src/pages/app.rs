//! The application page: one button that starts a run of the protocol, and
//! what the run has come to.

use vstd::prelude::*;
use vstd::string::*;
use crate::contract::{
    PriceFeedData, PriceFeedModel, TriggerCall, TriggerContract, TRIGGER_GAS_LIMIT,
};
use crate::primitives::{decimal_text, u128_to_decimal};
use crate::protocol::{StateModel, TriggerState};

verus! {

impl Clone for PriceFeedData {
    fn clone(&self) -> (r: Self)
        ensures
            r@ == self@,
    {
        PriceFeedData {
            symbol: self.symbol.clone(),
            timestamp: self.timestamp.clone(),
            price_bits: self.price_bits,
        }
    }
}

/// State of the application page.
#[derive(Debug, PartialEq, Eq)]
pub struct AppUi {
    pub error: Option<String>,
    pub trigger_id: Option<u64>,
    pub price_feed: Option<PriceFeedData>,
    /// Whether a run is under way.
    pub loading: bool,
}

/// Mathematical form of the page's state.
pub struct AppModel {
    pub error: Option<Seq<char>>,
    pub trigger_id: Option<u64>,
    pub price_feed: Option<PriceFeedModel>,
    pub loading: bool,
}

impl View for AppUi {
    type V = AppModel;

    open spec fn view(&self) -> AppModel {
        AppModel {
            error: match self.error {
                Some(text) => Some(text@),
                None => None,
            },
            trigger_id: self.trigger_id,
            price_feed: match self.price_feed {
                Some(data) => Some(data@),
                None => None,
            },
            loading: self.loading,
        }
    }
}

/// What the page shows below its button, line by line. A line that is
/// `None` is not shown. The price is left as the bits of its floating-point
/// form, for the host to write out.
#[derive(Debug, PartialEq, Eq)]
pub struct AppView {
    pub loading: Option<String>,
    pub trigger_id: Option<String>,
    pub symbol: Option<String>,
    pub timestamp: Option<String>,
    pub price_bits: Option<u64>,
    pub error: Option<String>,
}

/// Mathematical form of what the page shows.
pub struct AppViewModel {
    pub loading: Option<Seq<char>>,
    pub trigger_id: Option<Seq<char>>,
    pub symbol: Option<Seq<char>>,
    pub timestamp: Option<Seq<char>>,
    pub price_bits: Option<u64>,
    pub error: Option<Seq<char>>,
}

/// View of an optional line.
pub open spec fn line_view(line: Option<String>) -> Option<Seq<char>> {
    match line {
        Some(text) => Some(text@),
        None => None,
    }
}

impl View for AppView {
    type V = AppViewModel;

    open spec fn view(&self) -> AppViewModel {
        AppViewModel {
            loading: line_view(self.loading),
            trigger_id: line_view(self.trigger_id),
            symbol: line_view(self.symbol),
            timestamp: line_view(self.timestamp),
            price_bits: self.price_bits,
            error: line_view(self.error),
        }
    }
}

/// What a state of the page shows: a notice while a run is under way, the
/// trigger's id once it is known, the result once it is there, and the error
/// text if the run failed.
pub open spec fn shown(page: AppModel) -> AppViewModel {
    AppViewModel {
        loading: if page.loading {
            Some("Loading..."@)
        } else {
            None
        },
        trigger_id: match page.trigger_id {
            Some(id) => Some("Trigger ID: "@ + decimal_text(id as nat)),
            None => None,
        },
        symbol: match page.price_feed {
            Some(data) => Some("Symbol: "@ + data.symbol),
            None => None,
        },
        timestamp: match page.price_feed {
            Some(data) => Some("Timestamp: "@ + data.timestamp),
            None => None,
        },
        price_bits: match page.price_feed {
            Some(data) => Some(data.price_bits),
            None => None,
        },
        error: page.error,
    }
}

/// A label followed by a text.
fn labelled(label: &str, text: &str) -> (line: String)
    ensures
        line@ == label@ + text@,
{
    let mut line = String::from_str(label);
    line.append(text);
    line
}

/// The payload that the button submits: the one character `1`.
pub open spec fn button_payload() -> Seq<u8> {
    seq![49u8]
}

/// The page after a run has reached `state`: polling shows the trigger's id;
/// a result is shown and ends the run; a timeout shows `Timeout!` and a
/// failure its text, and either ends the run.
pub open spec fn observed(page: AppModel, state: StateModel) -> AppModel {
    match state {
        StateModel::Polling { trigger_id, .. } => AppModel {
            trigger_id: Some(trigger_id),
            ..page
        },
        StateModel::Resolved(data) => AppModel { price_feed: Some(data), loading: false, ..page },
        StateModel::TimedOut => AppModel { error: Some("Timeout!"@), loading: false, ..page },
        StateModel::Failed(e) => AppModel { error: Some(e.message()), loading: false, ..page },
        _ => page,
    }
}

impl AppUi {
    /// The page as first shown: empty, nothing under way.
    pub fn new() -> (ui: Self)
        ensures
            ui@ == (AppModel { error: None, trigger_id: None, price_feed: None, loading: false }),
    {
        AppUi { error: None, trigger_id: None, price_feed: None, loading: false }
    }

    /// The button was pressed: what an earlier run left is cleared and a new
    /// run begins with the call that the host is to send.
    pub fn send_transaction(&mut self, contract: &TriggerContract) -> (r: (
        TriggerState,
        TriggerCall,
    ))
        ensures
            final(self)@ == (AppModel {
                error: None,
                trigger_id: None,
                price_feed: None,
                loading: true,
            }),
            r.0@ == StateModel::Submitting,
            r.1.to == contract.address,
            r.1.payload@ == button_payload(),
            r.1.gas == TRIGGER_GAS_LIMIT,
    {
        self.error = None;
        self.trigger_id = None;
        self.price_feed = None;
        self.loading = true;
        let mut payload: Vec<u8> = Vec::new();
        payload.push(49u8);
        assert(payload@ =~= button_payload());
        (TriggerState::Submitting, contract.add_trigger(payload))
    }

    /// Shows what the run has come to.
    pub fn observe(&mut self, state: &TriggerState)
        ensures
            final(self)@ == observed(old(self)@, state@),
    {
        match state {
            TriggerState::Polling { trigger_id, .. } => {
                self.trigger_id = Some(*trigger_id);
            },
            TriggerState::Resolved(data) => {
                self.price_feed = Some(data.clone());
                self.loading = false;
            },
            TriggerState::TimedOut => {
                self.error = state.error_message();
                self.loading = false;
            },
            TriggerState::Failed(_) => {
                self.error = state.error_message();
                self.loading = false;
            },
            _ => {},
        }
    }

    /// What the page shows in its present state.
    pub fn render(&self) -> (view: AppView)
        ensures
            view@ == shown(self@),
    {
        let loading = if self.loading {
            Some(String::from_str("Loading..."))
        } else {
            None
        };
        let trigger_id = match self.trigger_id {
            Some(id) => {
                let number = u128_to_decimal(id as u128);
                Some(labelled("Trigger ID: ", number.as_str()))
            },
            None => None,
        };
        let (symbol, timestamp, price_bits) = match &self.price_feed {
            Some(data) => (
                Some(labelled("Symbol: ", data.symbol.as_str())),
                Some(labelled("Timestamp: ", data.timestamp.as_str())),
                Some(data.price_bits),
            ),
            None => (None, None, None),
        };
        let error = match &self.error {
            Some(text) => Some(text.clone()),
            None => None,
        };
        AppView { loading, trigger_id, symbol, timestamp, price_bits, error }
    }
}

} // verus!
