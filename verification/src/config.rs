//! Chain and deployment configuration, handed in by the host application.

use vstd::prelude::*;
use vstd::string::*;
use crate::client::ClientKeyKind;
use crate::contract::{SubmitContract, TriggerContract};
use crate::local::{EthClientConfig, EthClientTransport};
use crate::primitives::Address;
use crate::route::Route;

verus! {

/// A copy of an optional string.
pub fn clone_opt_string(s: &Option<String>) -> (r: Option<String>)
    ensures
        r == *s,
{
    match s {
        Some(text) => Some(text.clone()),
        None => None,
    }
}

/// Descriptor of one Ethereum-style chain.
#[derive(Debug, PartialEq, Eq)]
pub struct EthereumChainConfig {
    pub chain_id: String,
    pub ws_endpoint: Option<String>,
    pub http_endpoint: Option<String>,
    pub aggregator_endpoint: Option<String>,
    pub faucet_endpoint: Option<String>,
}

impl Clone for EthereumChainConfig {
    fn clone(&self) -> (r: Self)
        ensures
            r == *self,
    {
        EthereumChainConfig {
            chain_id: self.chain_id.clone(),
            ws_endpoint: clone_opt_string(&self.ws_endpoint),
            http_endpoint: clone_opt_string(&self.http_endpoint),
            aggregator_endpoint: clone_opt_string(&self.aggregator_endpoint),
            faucet_endpoint: clone_opt_string(&self.faucet_endpoint),
        }
    }
}

impl EthereumChainConfig {
    /// The client configuration for this chain: its two endpoints, with the
    /// given key index and transport preference.
    pub fn to_client_config(
        &self,
        hd_index: Option<u32>,
        transport: Option<EthClientTransport>,
    ) -> (c: EthClientConfig)
        ensures
            c.ws_endpoint == self.ws_endpoint,
            c.http_endpoint == self.http_endpoint,
            c.hd_index == hd_index,
            c.transport == transport,
    {
        EthClientConfig {
            ws_endpoint: clone_opt_string(&self.ws_endpoint),
            http_endpoint: clone_opt_string(&self.http_endpoint),
            transport,
            hd_index,
        }
    }
}

/// A connection to make without asking the user.
#[derive(Debug, PartialEq, Eq)]
pub struct ConfigDebugAutoConnect {
    pub key_kind: ClientKeyKind,
}

impl Clone for ConfigDebugAutoConnect {
    fn clone(&self) -> (r: Self)
        ensures
            r == *self,
    {
        ConfigDebugAutoConnect { key_kind: self.key_kind.clone() }
    }
}

/// Switches for development.
#[derive(Debug, PartialEq, Eq)]
pub struct ConfigDebug {
    pub auto_connect: Option<ConfigDebugAutoConnect>,
    /// The page to jump to once, after the first connection.
    pub start_route: Option<Route>,
}

impl ConfigDebug {
    /// Development: start on the application page, and connect to the
    /// injected wallet at once if `autoconnect` is set.
    pub fn dev_mode(autoconnect: bool) -> (d: Self)
        ensures
            d.start_route == Some(Route::App),
            autoconnect ==> d.auto_connect == Some(
                ConfigDebugAutoConnect { key_kind: ClientKeyKind::Metamask },
            ),
            !autoconnect ==> d.auto_connect is None,
    {
        ConfigDebug {
            auto_connect: if autoconnect {
                Some(ConfigDebugAutoConnect { key_kind: ClientKeyKind::Metamask })
            } else {
                None
            },
            start_route: Some(Route::App),
        }
    }

    /// Release: nothing automatic.
    pub fn release_mode() -> (d: Self)
        ensures
            d.auto_connect is None,
            d.start_route is None,
    {
        ConfigDebug { auto_connect: None, start_route: None }
    }

    /// Hands out the start page, once: afterwards there is none.
    pub fn take_start_route(&mut self) -> (r: Option<Route>)
        ensures
            r == old(self).start_route,
            final(self).start_route is None,
            final(self).auto_connect == old(self).auto_connect,
    {
        let r = self.start_route;
        self.start_route = None;
        r
    }
}

/// Descriptor of one Cosmos-style chain. The gas price is held as the bits
/// of its 32-bit floating-point form.
#[derive(Debug, PartialEq, Eq)]
pub struct CosmosChainConfig {
    pub chain_id: String,
    pub bech32_prefix: String,
    pub rpc_endpoint: Option<String>,
    pub grpc_endpoint: Option<String>,
    pub gas_price_bits: u32,
    pub gas_denom: String,
    pub faucet_endpoint: Option<String>,
}

/// An entry of a table that is keyed by name.
#[derive(Debug, PartialEq, Eq)]
pub struct Named<T> {
    pub name: String,
    pub value: T,
}

/// Whether text `a` comes before text `b`: at the first place where they
/// differ `a` has the lower character, or `a` ends there and `b` goes on.
pub open spec fn text_before(a: Seq<char>, b: Seq<char>) -> bool
    decreases a.len(),
{
    if b.len() == 0 {
        false
    } else if a.len() == 0 {
        true
    } else if a[0] != b[0] {
        (a[0] as u32) < (b[0] as u32)
    } else {
        text_before(a.skip(1), b.skip(1))
    }
}

/// Compares with `<` on `str`. Believed of it, as std documents: texts are
/// ordered lexicographically, character by character in the order of their
/// code points.
#[verifier::external_body]
fn str_before(a: &str, b: &str) -> (r: bool)
    ensures
        r == text_before(a@, b@),
{
    a < b
}

/// Whether the names of a table ascend strictly, as the keys of an ordered
/// map do.
pub open spec fn names_ascend<T>(entries: Seq<Named<T>>) -> bool {
    forall|i: int|
        0 <= i < entries.len() - 1 ==> text_before(
            (#[trigger] entries[i]).name@,
            entries[i + 1].name@,
        )
}

/// No text comes before itself.
pub proof fn text_before_is_strict(a: Seq<char>)
    ensures
        !text_before(a, a),
    decreases a.len(),
{
    if a.len() > 0 {
        text_before_is_strict(a.skip(1));
    }
}

/// What comes before a text comes before all that the text comes before.
pub proof fn text_before_is_transitive(a: Seq<char>, b: Seq<char>, c: Seq<char>)
    requires
        text_before(a, b),
        text_before(b, c),
    ensures
        text_before(a, c),
    decreases a.len(),
{
    if a.len() > 0 && a[0] == b[0] && b[0] == c[0] {
        text_before_is_transitive(a.skip(1), b.skip(1), c.skip(1));
    }
}

/// In a table whose names ascend, an earlier entry's name comes before a
/// later entry's, so no name occurs twice.
pub proof fn ascending_names_are_unique<T>(entries: Seq<Named<T>>, i: int, j: int)
    requires
        names_ascend(entries),
        0 <= i < j < entries.len(),
    ensures
        text_before(entries[i].name@, entries[j].name@),
        entries[i].name@ != entries[j].name@,
    decreases j - i,
{
    if j > i + 1 {
        ascending_names_are_unique(entries, i, j - 1);
        assert(text_before(entries[j - 1].name@, entries[j - 1 + 1].name@));
        text_before_is_transitive(entries[i].name@, entries[j - 1].name@, entries[j].name@);
    } else {
        assert(text_before(entries[i].name@, entries[i + 1].name@));
    }
    text_before_is_strict(entries[i].name@);
}

/// The place of the first entry with the given name; the number of entries
/// where there is none.
pub open spec fn position<T>(entries: Seq<Named<T>>, name: Seq<char>) -> int
    decreases entries.len(),
{
    if entries.len() == 0 || entries[0].name@ == name {
        0
    } else {
        1 + position(entries.skip(1), name)
    }
}

/// `position` is the least place that holds the name.
pub proof fn position_is_least<T>(entries: Seq<Named<T>>, name: Seq<char>, i: int)
    requires
        0 <= i <= entries.len(),
        forall|j: int| 0 <= j < i ==> entries[j].name@ != name,
        i < entries.len() ==> entries[i].name@ == name,
    ensures
        position(entries, name) == i,
    decreases entries.len(),
{
    if entries.len() == 0 || entries[0].name@ == name {
    } else {
        let rest = entries.skip(1);
        assert forall|j: int| 0 <= j < i - 1 implies rest[j].name@ != name by {
            assert(rest[j] == entries[j + 1]);
        }
        position_is_least(rest, name, i - 1);
    }
}

/// In a table whose names ascend, each entry is the one found under its
/// name.
pub proof fn position_of_entry<T>(entries: Seq<Named<T>>, i: int)
    requires
        names_ascend(entries),
        0 <= i < entries.len(),
    ensures
        position(entries, entries[i].name@) == i,
{
    assert forall|j: int| 0 <= j < i implies entries[j].name@ != entries[i].name@ by {
        ascending_names_are_unique(entries, j, i);
    }
    position_is_least(entries, entries[i].name@, i);
}

/// The names of a table, in its order.
pub open spec fn names_of<T>(entries: Seq<Named<T>>) -> Seq<Seq<char>> {
    entries.map_values(|entry: Named<T>| entry.name@)
}

/// The views of a list of texts.
pub open spec fn texts_view(texts: Seq<String>) -> Seq<Seq<char>> {
    texts.map_values(|text: String| text@)
}

/// Whether the names of a table ascend strictly.
pub fn check_names_ascend<T>(entries: &Vec<Named<T>>) -> (ok: bool)
    ensures
        ok == names_ascend(entries@),
{
    if entries.len() < 2 {
        return true;
    }
    let mut i: usize = 0;
    while i < entries.len() - 1
        invariant
            entries.len() >= 2,
            i <= entries.len() - 1,
            forall|j: int|
                0 <= j < i ==> text_before((#[trigger] entries@[j]).name@, entries@[j + 1].name@),
        decreases entries.len() - i,
    {
        if !str_before(entries[i].name.as_str(), entries[i + 1].name.as_str()) {
            return false;
        }
        i = i + 1;
    }
    true
}

/// The place of the first entry with the given name.
pub fn find_named<T>(entries: &Vec<Named<T>>, name: &String) -> (r: Option<usize>)
    ensures
        match r {
            Some(i) => i == position(entries@, name@) && i < entries@.len(),
            None => position(entries@, name@) == entries@.len(),
        },
{
    let mut i: usize = 0;
    while i < entries.len()
        invariant
            i <= entries.len(),
            forall|j: int| 0 <= j < i ==> entries@[j].name@ != name@,
        decreases entries.len() - i,
    {
        if entries[i].name == *name {
            proof {
                position_is_least(entries@, name@, i as int);
            }
            return Some(i);
        }
        i = i + 1;
    }
    proof {
        position_is_least(entries@, name@, i as int);
    }
    None
}

/// The chains that are configured, by family and name.
#[derive(Debug, PartialEq, Eq)]
pub struct ChainConfigs {
    /// Cosmos-style chains
    pub cosmos: Vec<Named<CosmosChainConfig>>,
    /// Ethereum-style chains
    pub eth: Vec<Named<EthereumChainConfig>>,
}

/// Why a chain is not at hand as an Ethereum-style chain.
#[derive(Debug, Clone, Copy, PartialEq, Eq, Structural)]
pub enum ChainLookupError {
    /// The name is configured in both families.
    Ambiguous,
    /// The name is that of a Cosmos-style chain.
    IsCosmos,
    /// The name is not configured.
    Missing,
}

impl ChainLookupError {
    /// The text shown for this error about the chain of the given name.
    pub open spec fn spec_message(self, chain_name: Seq<char>) -> Seq<char> {
        "Chain "@ + chain_name + match self {
            ChainLookupError::Ambiguous => " is both ethereum and cosmos"@,
            ChainLookupError::IsCosmos => " is cosmos, expected ethereum"@,
            ChainLookupError::Missing => " does not exist"@,
        }
    }

    /// The text shown for this error about the chain of the given name.
    pub fn message(&self, chain_name: &str) -> (text: String)
        ensures
            text@ == self.spec_message(chain_name@),
    {
        let mut text = String::from_str("Chain ");
        text.append(chain_name);
        match self {
            ChainLookupError::Ambiguous => text.append(" is both ethereum and cosmos"),
            ChainLookupError::IsCosmos => text.append(" is cosmos, expected ethereum"),
            ChainLookupError::Missing => text.append(" does not exist"),
        }
        text
    }
}

impl ChainConfigs {
    /// Both tables are ordered by name, so that no name occurs twice in one.
    pub open spec fn wf(&self) -> bool {
        names_ascend(self.cosmos@) && names_ascend(self.eth@)
    }

    /// What looking up `name` as an Ethereum-style chain gives.
    pub open spec fn lookup(&self, name: Seq<char>) -> Result<EthereumChainConfig, ChainLookupError> {
        let e = position(self.eth@, name);
        let c = position(self.cosmos@, name);
        if e < self.eth@.len() {
            if c < self.cosmos@.len() {
                Err(ChainLookupError::Ambiguous)
            } else {
                Ok(self.eth@[e].value)
            }
        } else if c < self.cosmos@.len() {
            Err(ChainLookupError::IsCosmos)
        } else {
            Err(ChainLookupError::Missing)
        }
    }

    /// The two tables as one configuration, if each is ordered by name.
    pub fn new(cosmos: Vec<Named<CosmosChainConfig>>, eth: Vec<Named<EthereumChainConfig>>) -> (r:
        Option<Self>)
        ensures
            match r {
                Some(chains) => chains.wf() && chains.cosmos == cosmos && chains.eth == eth,
                None => !(names_ascend(cosmos@) && names_ascend(eth@)),
            },
    {
        if check_names_ascend(&cosmos) && check_names_ascend(&eth) {
            Some(ChainConfigs { cosmos, eth })
        } else {
            None
        }
    }

    /// The Ethereum-style chain of the given name.
    pub fn get_eth_chain(&self, chain_name: &String) -> (r: Result<
        EthereumChainConfig,
        ChainLookupError,
    >)
        ensures
            r == self.lookup(chain_name@),
    {
        match (find_named(&self.eth, chain_name), find_named(&self.cosmos, chain_name)) {
            (Some(_), Some(_)) => Err(ChainLookupError::Ambiguous),
            (Some(i), None) => Ok(self.eth[i].value.clone()),
            (None, Some(_)) => Err(ChainLookupError::IsCosmos),
            (None, None) => Err(ChainLookupError::Missing),
        }
    }

    /// The names of all chains: the Ethereum-style ones in their order, then
    /// the Cosmos-style ones in theirs.
    pub fn all_chain_names(&self) -> (names: Vec<String>)
        ensures
            texts_view(names@) == names_of(self.eth@) + names_of(self.cosmos@),
    {
        let mut names: Vec<String> = Vec::new();
        let mut i: usize = 0;
        while i < self.eth.len()
            invariant
                i <= self.eth.len(),
                names@.len() == i,
                forall|j: int| 0 <= j < i ==> names@[j]@ == self.eth@[j].name@,
            decreases self.eth.len() - i,
        {
            names.push(self.eth[i].name.clone());
            i = i + 1;
        }
        let mut k: usize = 0;
        while k < self.cosmos.len()
            invariant
                k <= self.cosmos.len(),
                names@.len() == self.eth@.len() + k,
                forall|j: int| 0 <= j < self.eth@.len() ==> names@[j]@ == self.eth@[j].name@,
                forall|j: int| 0 <= j < k ==> names@[self.eth@.len() + j]@ == self.cosmos@[j].name@,
            decreases self.cosmos.len() - k,
        {
            names.push(self.cosmos[k].name.clone());
            k = k + 1;
        }
        assert(texts_view(names@) =~= names_of(self.eth@) + names_of(self.cosmos@));
        names
    }
}

/// What starts a workflow.
#[derive(Debug, Clone, Copy, PartialEq, Eq)]
pub enum Trigger {
    /// An event of a contract on an Ethereum-style chain.
    EthContractEvent { address: Address },
    /// Anything else.
    Other,
}

/// Where a workflow's result goes.
#[derive(Debug, Clone, Copy, PartialEq, Eq)]
pub enum Submit {
    /// To a contract on an Ethereum-style chain.
    EthereumContract { address: Address },
    /// Anywhere else, or nowhere.
    Other,
}

/// One workflow of a service.
#[derive(Debug, Clone, Copy, PartialEq, Eq)]
pub struct Workflow {
    pub trigger: Trigger,
    pub submit: Submit,
}

/// A deployed service: its workflows by id.
#[derive(Debug, PartialEq, Eq)]
pub struct Service {
    pub workflows: Vec<Named<Workflow>>,
}

/// The deployment descriptor: services by id.
#[derive(Debug, PartialEq, Eq)]
pub struct ConfigDeployments {
    pub services: Vec<Named<Service>>,
}

impl ConfigDeployments {
    /// Services are ordered by id, and so are the workflows of each.
    pub open spec fn wf(&self) -> bool {
        &&& names_ascend(self.services@)
        &&& forall|i: int|
            0 <= i < self.services@.len() ==> names_ascend(
                (#[trigger] self.services@[i]).value.workflows@,
            )
    }

    /// The services as a deployment descriptor, if they are ordered by id
    /// and the workflows of each are.
    pub fn new(services: Vec<Named<Service>>) -> (r: Option<Self>)
        ensures
            match r {
                Some(deployments) => deployments.wf() && deployments.services == services,
                None => !(ConfigDeployments { services }).wf(),
            },
    {
        if !check_names_ascend(&services) {
            return None;
        }
        let mut i: usize = 0;
        while i < services.len()
            invariant
                i <= services.len(),
                forall|j: int|
                    0 <= j < i ==> names_ascend((#[trigger] services@[j]).value.workflows@),
            decreases services.len() - i,
        {
            if !check_names_ascend(&services[i].value.workflows) {
                return None;
            }
            i = i + 1;
        }
        Some(ConfigDeployments { services })
    }
}

impl TriggerContract {
    /// The workflow's trigger contract, where its trigger is a contract
    /// event.
    pub fn from_workflow(workflow: &Workflow) -> (r: Option<Self>)
        ensures
            r == match workflow.trigger {
                Trigger::EthContractEvent { address } => Some(TriggerContract { address }),
                Trigger::Other => None,
            },
    {
        match workflow.trigger {
            Trigger::EthContractEvent { address } => Some(TriggerContract { address }),
            Trigger::Other => None,
        }
    }
}

impl SubmitContract {
    /// The workflow's submit contract, where its result goes to a contract.
    pub fn from_workflow(workflow: &Workflow) -> (r: Option<Self>)
        ensures
            r == match workflow.submit {
                Submit::EthereumContract { address } => Some(SubmitContract { address }),
                Submit::Other => None,
            },
    {
        match workflow.submit {
            Submit::EthereumContract { address } => Some(SubmitContract { address }),
            Submit::Other => None,
        }
    }
}

/// The chain part of the configuration.
#[derive(Debug, PartialEq, Eq)]
pub struct CliConfig {
    pub chains: ChainConfigs,
}

/// What is loaded at start.
#[derive(Debug, PartialEq, Eq)]
pub struct ConfigData {
    pub deployments: ConfigDeployments,
    pub cli: CliConfig,
}

/// The application's configuration. The data is absent until it is loaded.
#[derive(Debug, PartialEq, Eq)]
pub struct Config {
    pub root_path: String,
    pub chain_name: String,
    pub debug: ConfigDebug,
    pub data: Option<ConfigData>,
}

impl Config {
    /// The configuration before anything is loaded: the chain named `local`
    /// at the root path, nothing automatic.
    pub fn new() -> (c: Self)
        ensures
            c.root_path@ == ""@,
            c.chain_name@ == "local"@,
            c.debug.auto_connect is None,
            c.debug.start_route is None,
            c.data is None,
    {
        Config {
            root_path: String::from_str(""),
            chain_name: String::from_str("local"),
            debug: ConfigDebug::release_mode(),
            data: None,
        }
    }

    /// Whether the data is loaded.
    pub fn is_ready(&self) -> (b: bool)
        ensures
            b == (self.data is Some),
    {
        self.data.is_some()
    }

    /// The active chain, looked up by the configured name.
    pub open spec fn active_chain(&self) -> Result<EthereumChainConfig, ChainLookupError> {
        self.data->Some_0.cli.chains.lookup(self.chain_name@)
    }

    /// The first service's first workflow is there.
    pub open spec fn has_workflow(&self) -> bool {
        &&& self.data is Some
        &&& self.data->Some_0.deployments.services@.len() > 0
        &&& self.data->Some_0.deployments.services@[0].value.workflows@.len() > 0
    }

    /// The loaded data.
    pub fn unchecked_data(&self) -> (d: &ConfigData)
        requires
            self.data is Some,
        ensures
            *d == self.data->Some_0,
    {
        match &self.data {
            Some(d) => d,
            None => unreached(),
        }
    }

    /// The descriptor of the active chain.
    pub fn unchecked_chain_config(&self) -> (c: EthereumChainConfig)
        requires
            self.data is Some,
            self.active_chain() is Ok,
        ensures
            Ok::<EthereumChainConfig, ChainLookupError>(c) == self.active_chain(),
    {
        match self.unchecked_data().cli.chains.get_eth_chain(&self.chain_name) {
            Ok(c) => c,
            Err(_) => unreached(),
        }
    }

    /// The descriptor of the active chain, or why there is none. `None`
    /// where the data is not loaded.
    pub fn chain_config(&self) -> (r: Option<Result<EthereumChainConfig, ChainLookupError>>)
        ensures
            r == if self.data is Some {
                Some(self.active_chain())
            } else {
                None
            },
    {
        match &self.data {
            Some(d) => Some(d.cli.chains.get_eth_chain(&self.chain_name)),
            None => None,
        }
    }

    /// The first service, by id.
    pub fn unchecked_service(&self) -> (s: &Named<Service>)
        requires
            self.data is Some,
            self.data->Some_0.deployments.services@.len() > 0,
        ensures
            *s == self.data->Some_0.deployments.services@[0],
    {
        &self.unchecked_data().deployments.services[0]
    }

    /// The first workflow, by id, of the first service.
    pub fn unchecked_workflow(&self) -> (w: &Named<Workflow>)
        requires
            self.has_workflow(),
        ensures
            *w == self.data->Some_0.deployments.services@[0].value.workflows@[0],
    {
        &self.unchecked_service().value.workflows[0]
    }

    /// The first workflow of the first service, where there is one.
    pub fn workflow(&self) -> (r: Option<Workflow>)
        ensures
            r == if self.has_workflow() {
                Some(self.data->Some_0.deployments.services@[0].value.workflows@[0].value)
            } else {
                None
            },
    {
        match &self.data {
            Some(d) => {
                if d.deployments.services.len() > 0
                    && d.deployments.services[0].value.workflows.len() > 0 {
                    Some(d.deployments.services[0].value.workflows[0].value)
                } else {
                    None
                }
            },
            None => None,
        }
    }
}

} // verus!
