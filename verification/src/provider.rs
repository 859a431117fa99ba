//! The provider's side of subnet management: which subnet a request is
//! for, whether it may go ahead, who sends it, and what is asked of the
//! subnet's manager. Talking to the subnet, and the wallets, are the
//! runtime's.

use crate::address::Address;
use crate::message::TokenAmount;
use vstd::prelude::*;

verus! {

/// Name of the directory, under the home directory, that holds the
/// provider's files.
pub const DEFAULT_REPO_PATH: &'static str = ".ipc-agent";

/// Name of the configuration file in that directory.
pub const DEFAULT_CONFIG_NAME: &'static str = "config.toml";

/// The name of a subnet: the chain at the root, and the path of subnet
/// actors that leads from it to the subnet.
#[derive(Debug, PartialEq, Eq, Hash)]
pub struct SubnetID {
    pub root: u64,
    pub children: Vec<Address>,
}

/// The name of a subnet as a mathematical value.
pub struct SubnetIDView {
    pub root: u64,
    pub children: Seq<Address>,
}

impl View for SubnetID {
    type V = SubnetIDView;

    open spec fn view(&self) -> SubnetIDView {
        SubnetIDView { root: self.root, children: self.children@ }
    }
}

impl SubnetID {
    /// Tells whether two names are the same name.
    pub fn same(&self, other: &SubnetID) -> (yes: bool)
        ensures
            yes == (self@ == other@),
    {
        if self.root != other.root || self.children.len() != other.children.len() {
            return false;
        }
        let mut i: usize = 0;
        while i < self.children.len()
            invariant
                i <= self.children.len(),
                self.children.len() == other.children.len(),
                forall|k: int| 0 <= k < i ==> self.children@[k] == other.children@[k],
            decreases self.children.len() - i,
        {
            if !self.children[i].same(&other.children[i]) {
                return false;
            }
            i = i + 1;
        }
        assert(self.children@ =~= other.children@);
        true
    }
}

impl Clone for SubnetID {
    /// The same name.
    fn clone(&self) -> (copy: SubnetID)
        ensures
            copy@ == self@,
    {
        let mut children: Vec<Address> = Vec::new();
        let mut i: usize = 0;
        while i < self.children.len()
            invariant
                i <= self.children.len(),
                children@ == self.children@.take(i as int),
            decreases self.children.len() - i,
        {
            children.push(self.children[i]);
            assert(children@ =~= self.children@.take(i + 1));
            i = i + 1;
        }
        assert(self.children@.take(self.children.len() as int) =~= self.children@);
        SubnetID { root: self.root, children }
    }
}

/// How to reach a subnet that runs the virtual machine's own chain.
#[derive(Debug, PartialEq, Eq)]
pub struct FvmSubnet {
    pub gateway_addr: Address,
    pub jsonrpc_api_http: String,
    pub auth_token: Option<String>,
}

/// How to reach a subnet that runs an Ethereum-style chain.
#[derive(Debug, PartialEq, Eq)]
pub struct EvmSubnet {
    pub provider_http: String,
    pub auth_token: Option<String>,
    pub registry_addr: Address,
    pub gateway_addr: Address,
}

/// How to reach a subnet, by the kind of chain that it runs.
#[derive(Debug, PartialEq, Eq)]
pub enum SubnetConfig {
    Fvm(FvmSubnet),
    Fevm(EvmSubnet),
}

/// A subnet that the provider is configured for.
#[derive(Debug, PartialEq, Eq)]
pub struct Subnet {
    pub id: SubnetID,
    pub config: SubnetConfig,
}

/// Copies a text that may be missing.
fn copy_token(token: &Option<String>) -> (copy: Option<String>)
    ensures
        copy == *token,
{
    match token {
        Some(text) => Some(text.clone()),
        None => None,
    }
}

impl Clone for SubnetConfig {
    /// The same configuration.
    fn clone(&self) -> (copy: SubnetConfig)
        ensures
            copy == *self,
    {
        match self {
            SubnetConfig::Fvm(fvm) => SubnetConfig::Fvm(
                FvmSubnet {
                    gateway_addr: fvm.gateway_addr,
                    jsonrpc_api_http: fvm.jsonrpc_api_http.clone(),
                    auth_token: copy_token(&fvm.auth_token),
                },
            ),
            SubnetConfig::Fevm(evm) => SubnetConfig::Fevm(
                EvmSubnet {
                    provider_http: evm.provider_http.clone(),
                    auth_token: copy_token(&evm.auth_token),
                    registry_addr: evm.registry_addr,
                    gateway_addr: evm.gateway_addr,
                },
            ),
        }
    }
}

impl Clone for Subnet {
    /// The same subnet.
    fn clone(&self) -> (copy: Subnet)
        ensures
            copy.id@ == self.id@,
            copy.config == self.config,
    {
        Subnet { id: self.id.clone(), config: self.config.clone() }
    }
}

/// The address of the gateway of a subnet of this configuration.
pub open spec fn gateway_of(config: SubnetConfig) -> Address {
    match config {
        SubnetConfig::Fvm(fvm) => fvm.gateway_addr,
        SubnetConfig::Fevm(evm) => evm.gateway_addr,
    }
}

impl Subnet {
    /// The address of the subnet's gateway.
    pub fn gateway_addr(&self) -> (addr: Address)
        ensures
            addr == gateway_of(self.config),
    {
        match &self.config {
            SubnetConfig::Fvm(fvm) => fvm.gateway_addr,
            SubnetConfig::Fevm(evm) => evm.gateway_addr,
        }
    }
}

/// The kind of manager that talks to a subnet.
#[derive(Clone, Copy, Debug, PartialEq, Eq, Structural)]
pub enum ManagerKind {
    /// The manager that speaks the JSON-RPC of a Lotus node.
    Lotus,
    /// The manager that speaks to an Ethereum-style node.
    Fevm,
}

/// The kind of manager that a subnet of this configuration needs.
pub open spec fn manager_kind(config: SubnetConfig) -> ManagerKind {
    match config {
        SubnetConfig::Fvm(_) => ManagerKind::Lotus,
        SubnetConfig::Fevm(_) => ManagerKind::Fevm,
    }
}

/// The connection to a subnet: its configuration, and the manager that
/// talks to it.
#[derive(Debug)]
pub struct Connection<M> {
    subnet: Subnet,
    manager: M,
}

impl<M> Connection<M> {
    /// Joins the configuration of a subnet with its manager.
    pub fn new(subnet: Subnet, manager: M) -> (conn: Connection<M>)
        ensures
            *conn.subnet() == subnet,
            *conn.manager() == manager,
    {
        Connection { subnet, manager }
    }

    /// The configuration of the subnet.
    #[verifier::when_used_as_spec(spec_subnet)]
    pub fn subnet(&self) -> (subnet: &Subnet)
        ensures
            subnet == self.spec_subnet(),
    {
        &self.subnet
    }

    /// The manager of the subnet.
    #[verifier::when_used_as_spec(spec_manager)]
    pub fn manager(&self) -> (manager: &M)
        ensures
            manager == self.spec_manager(),
    {
        &self.manager
    }

    /// The configuration of the subnet.
    pub closed spec fn spec_subnet(&self) -> &Subnet {
        &self.subnet
    }

    /// The manager of the subnet.
    pub closed spec fn spec_manager(&self) -> &M {
        &self.manager
    }

    /// Takes the connection apart.
    pub fn into_parts(self) -> (parts: (Subnet, M))
        ensures
            parts.0 == *self.subnet(),
            parts.1 == *self.manager(),
    {
        (self.subnet, self.manager)
    }
}

/// Why the provider turned a request down.
#[derive(Debug, PartialEq, Eq)]
pub enum ProviderError {
    /// The provider is not configured for the subnet.
    SubnetNotFound,
    /// The subnet needs an authentication token and has none.
    MissingAuthToken,
    /// The wallet has no default account.
    NoDefaultAccount,
    /// The wallet could not be read.
    WalletFailed(String),
}

/// What a reader is told of a request that was turned down.
pub open spec fn provider_error_text(error: ProviderError) -> Seq<char> {
    match error {
        ProviderError::SubnetNotFound => "target parent subnet not found"@,
        ProviderError::MissingAuthToken => "Internal server error"@,
        ProviderError::NoDefaultAccount => "no default evm account configured"@,
        ProviderError::WalletFailed(reason) => reason@,
    }
}

impl ProviderError {
    /// Says in words why the request was turned down.
    pub fn message(&self) -> (text: String)
        ensures
            text@ == provider_error_text(*self),
    {
        match self {
            ProviderError::SubnetNotFound => String::from_str("target parent subnet not found"),
            ProviderError::MissingAuthToken => String::from_str("Internal server error"),
            ProviderError::NoDefaultAccount => String::from_str(
                "no default evm account configured",
            ),
            ProviderError::WalletFailed(reason) => reason.clone(),
        }
    }
}

/// Whose account sends a request.
#[derive(Clone, Copy, Debug, PartialEq, Eq)]
pub enum SenderChoice {
    /// This account.
    Known(Address),
    /// The default account of the wallet that goes with this kind of
    /// manager; the runtime is to fetch it.
    WalletDefault(ManagerKind),
}

/// What a wallet says of its default account.
#[derive(Debug, PartialEq, Eq)]
pub enum WalletDefault {
    Found(Address),
    NoneConfigured,
    Failed(String),
}

/// The consensus that a new subnet runs.
#[derive(Clone, Copy, Debug, PartialEq, Eq, Structural)]
pub enum ConsensusType {
    Mir,
}

/// What the constructor of a subnet actor is given.
#[derive(Debug, PartialEq, Eq)]
pub struct ConstructParams {
    pub parent: SubnetID,
    pub name: String,
    pub ipc_gateway_addr: Address,
    pub consensus: ConsensusType,
    pub min_validators: u64,
    pub min_validator_stake: TokenAmount,
    pub bottomup_check_period: i64,
    pub topdown_check_period: i64,
    pub genesis: Vec<u8>,
}

/// The request to make a subnet, ready for the manager of its parent.
#[derive(Debug, PartialEq, Eq)]
pub struct SubnetCreation {
    /// The kind of manager that talks to the parent.
    pub manager: ManagerKind,
    /// Whose account sends the request.
    pub sender: SenderChoice,
    /// What the subnet actor is made with.
    pub params: ConstructParams,
}

/// The request for the balance of an account, ready for the manager of the
/// subnet.
#[derive(Clone, Copy, Debug, PartialEq, Eq)]
pub struct BalanceQuery {
    pub manager: ManagerKind,
    pub address: Address,
}

/// The subnets that the provider is configured for, and the account that
/// sends its requests unless a request names another.
#[derive(Debug, PartialEq, Eq)]
pub struct IpcProvider {
    pub sender: Option<Address>,
    pub subnets: Vec<Subnet>,
}

/// The place of the first subnet named `id` from the place `from` on.
pub open spec fn first_named(subnets: Seq<Subnet>, id: SubnetIDView, from: int) -> Option<int>
    decreases subnets.len() - from,
{
    if from < 0 || from >= subnets.len() {
        None
    } else if subnets[from].id@ == id {
        Some(from)
    } else {
        first_named(subnets, id, from + 1)
    }
}

/// Whether requests to a subnet may go ahead: a subnet of the virtual
/// machine's own chain needs an authentication token.
pub open spec fn subnet_is_usable(subnet: Subnet) -> bool {
    match subnet.config {
        SubnetConfig::Fvm(fvm) => fvm.auth_token is Some,
        SubnetConfig::Fevm(_) => true,
    }
}

/// The account that sends a request: the one that the request names, else
/// the provider's own, else the default account of the wallet.
pub open spec fn sender_choice(own: Option<Address>, subnet: Subnet, from: Option<Address>)
    -> SenderChoice {
    match from {
        Some(addr) => SenderChoice::Known(addr),
        None => match own {
            Some(addr) => SenderChoice::Known(addr),
            None => SenderChoice::WalletDefault(manager_kind(subnet.config)),
        },
    }
}

impl IpcProvider {
    /// The provider for these subnets. It has no account of its own yet.
    pub fn new(subnets: Vec<Subnet>) -> (provider: IpcProvider)
        ensures
            provider.sender is None,
            provider.subnets == subnets,
    {
        IpcProvider { sender: None, subnets }
    }

    /// Sets the account that sends the provider's requests.
    pub fn with_sender(&mut self, from: Address)
        ensures
            final(self).sender == Some(from),
            final(self).subnets == old(self).subnets,
    {
        self.sender = Some(from);
    }

    /// Finds the first subnet with this name among those configured.
    fn find(&self, subnet: &SubnetID) -> (found: Option<usize>)
        ensures
            match found {
                Some(i) => first_named(self.subnets@, subnet@, 0) == Some(i as int) && i
                    < self.subnets@.len() && self.subnets@[i as int].id@ == subnet@,
                None => first_named(self.subnets@, subnet@, 0) is None,
            },
    {
        let mut i: usize = 0;
        while i < self.subnets.len()
            invariant
                i <= self.subnets.len(),
                first_named(self.subnets@, subnet@, 0) == first_named(
                    self.subnets@,
                    subnet@,
                    i as int,
                ),
            decreases self.subnets.len() - i,
        {
            if self.subnets[i].id.same(subnet) {
                return Some(i);
            }
            i = i + 1;
        }
        None
    }

    /// The connection to the subnet named `subnet`: its configuration and
    /// the kind of manager that the runtime is to set up for it. `None`
    /// where the provider is not configured for the subnet.
    pub fn connection(&self, subnet: &SubnetID) -> (conn: Option<Connection<ManagerKind>>)
        ensures
            match first_named(self.subnets@, subnet@, 0) {
                Some(i) => conn matches Some(c) && c.subnet().id@ == subnet@ && c.subnet().config
                    == self.subnets@[i].config && *c.manager() == manager_kind(
                    self.subnets@[i].config,
                ),
                None => conn is None,
            },
    {
        match self.find(subnet) {
            Some(i) => {
                let found: &Subnet = &self.subnets[i];
                let kind = match &found.config {
                    SubnetConfig::Fvm(_) => ManagerKind::Lotus,
                    SubnetConfig::Fevm(_) => ManagerKind::Fevm,
                };
                Some(Connection { subnet: found.clone(), manager: kind })
            },
            None => None,
        }
    }

    /// Checks that requests to the subnet may go ahead.
    pub fn check_subnet(&self, subnet: &Subnet) -> (checked: Result<(), ProviderError>)
        ensures
            checked == if subnet_is_usable(*subnet) {
                Ok::<(), ProviderError>(())
            } else {
                Err(ProviderError::MissingAuthToken)
            },
    {
        match &subnet.config {
            SubnetConfig::Fvm(fvm) => {
                if fvm.auth_token.is_none() {
                    return Err(ProviderError::MissingAuthToken);
                }
            },
            SubnetConfig::Fevm(_) => {},
        }
        Ok(())
    }

    /// Says whose account sends a request to the subnet: the one that the
    /// request names, else the provider's own, else the default account of
    /// the wallet, which the runtime is to fetch and hand to
    /// `adopt_default_sender`.
    pub fn check_sender(&self, subnet: &Subnet, from: Option<Address>) -> (choice: SenderChoice)
        ensures
            choice == sender_choice(self.sender, *subnet, from),
    {
        if let Some(addr) = from {
            return SenderChoice::Known(addr);
        }
        if let Some(addr) = self.sender {
            return SenderChoice::Known(addr);
        }
        match &subnet.config {
            SubnetConfig::Fvm(_) => SenderChoice::WalletDefault(ManagerKind::Lotus),
            SubnetConfig::Fevm(_) => SenderChoice::WalletDefault(ManagerKind::Fevm),
        }
    }

    /// Takes the default account of the wallet as the sender of this and
    /// of later requests. A wallet without a default account, or one that
    /// could not be read, leaves the provider as it is.
    pub fn adopt_default_sender(&mut self, default: WalletDefault) -> (sender: Result<
        Address,
        ProviderError,
    >)
        ensures
            final(self).subnets == old(self).subnets,
            match default {
                WalletDefault::Found(addr) => sender == Ok::<Address, ProviderError>(addr)
                    && final(self).sender == Some(addr),
                WalletDefault::NoneConfigured => sender == Err::<Address, ProviderError>(
                    ProviderError::NoDefaultAccount,
                ) && final(self).sender == old(self).sender,
                WalletDefault::Failed(reason) => sender == Err::<Address, ProviderError>(
                    ProviderError::WalletFailed(reason),
                ) && final(self).sender == old(self).sender,
            },
    {
        match default {
            WalletDefault::Found(addr) => {
                self.sender = Some(addr);
                Ok(addr)
            },
            WalletDefault::NoneConfigured => Err(ProviderError::NoDefaultAccount),
            WalletDefault::Failed(reason) => Err(ProviderError::WalletFailed(reason)),
        }
    }

    /// Prepares the making of a subnet under `parent`: finds the parent,
    /// checks that requests to it may go ahead, says whose account sends
    /// the request, and puts together what the subnet actor is made with.
    pub fn create_subnet(
        &self,
        from: Option<Address>,
        parent: &SubnetID,
        subnet_name: String,
        min_validators: u64,
        min_validator_stake: TokenAmount,
        bottomup_check_period: i64,
        topdown_check_period: i64,
    ) -> (request: Result<SubnetCreation, ProviderError>)
        ensures
            match first_named(self.subnets@, parent@, 0) {
                None => request == Err::<SubnetCreation, ProviderError>(
                    ProviderError::SubnetNotFound,
                ),
                Some(i) => if !subnet_is_usable(self.subnets@[i]) {
                    request == Err::<SubnetCreation, ProviderError>(ProviderError::MissingAuthToken)
                } else {
                    request matches Ok(creation) && creation.manager == manager_kind(
                        self.subnets@[i].config,
                    ) && creation.sender == sender_choice(self.sender, self.subnets@[i], from)
                        && creation.params.parent@ == parent@ && creation.params.name
                        == subnet_name && creation.params.ipc_gateway_addr
                        == gateway_of(self.subnets@[i].config) && creation.params.consensus
                        == ConsensusType::Mir && creation.params.min_validators == min_validators
                        && creation.params.min_validator_stake == min_validator_stake
                        && creation.params.bottomup_check_period == bottomup_check_period
                        && creation.params.topdown_check_period == topdown_check_period
                        && creation.params.genesis@ == Seq::<u8>::empty()
                },
            },
    {
        let i: usize = match self.find(parent) {
            Some(i) => i,
            None => {
                return Err(ProviderError::SubnetNotFound);
            },
        };
        let subnet: &Subnet = &self.subnets[i];
        match self.check_subnet(subnet) {
            Ok(_) => {},
            Err(error) => {
                return Err(error);
            },
        }
        let sender = self.check_sender(subnet, from);
        let manager = match &subnet.config {
            SubnetConfig::Fvm(_) => ManagerKind::Lotus,
            SubnetConfig::Fevm(_) => ManagerKind::Fevm,
        };
        let params = ConstructParams {
            parent: parent.clone(),
            name: subnet_name,
            ipc_gateway_addr: subnet.gateway_addr(),
            consensus: ConsensusType::Mir,
            min_validators,
            min_validator_stake,
            bottomup_check_period,
            topdown_check_period,
            genesis: Vec::new(),
        };
        Ok(SubnetCreation { manager, sender, params })
    }

    /// Prepares the query for the balance of `address` in a subnet: finds
    /// the subnet and checks that requests to it may go ahead.
    pub fn wallet_balance(&self, subnet: &SubnetID, address: &Address) -> (query: Result<
        BalanceQuery,
        ProviderError,
    >)
        ensures
            query == match first_named(self.subnets@, subnet@, 0) {
                None => Err::<BalanceQuery, ProviderError>(ProviderError::SubnetNotFound),
                Some(i) => if subnet_is_usable(self.subnets@[i]) {
                    Ok(
                        BalanceQuery {
                            manager: manager_kind(self.subnets@[i].config),
                            address: *address,
                        },
                    )
                } else {
                    Err(ProviderError::MissingAuthToken)
                },
            },
    {
        let i: usize = match self.find(subnet) {
            Some(i) => i,
            None => {
                return Err(ProviderError::SubnetNotFound);
            },
        };
        let found: &Subnet = &self.subnets[i];
        match self.check_subnet(found) {
            Ok(_) => {},
            Err(error) => {
                return Err(error);
            },
        }
        let manager = match &found.config {
            SubnetConfig::Fvm(_) => ManagerKind::Lotus,
            SubnetConfig::Fevm(_) => ManagerKind::Fevm,
        };
        Ok(BalanceQuery { manager, address: *address })
    }
}

/// The directory of the provider's files under the home directory `home`.
pub fn default_repo_path(home: &str) -> (path: String)
    ensures
        path@ == home@ + "/"@ + DEFAULT_REPO_PATH@,
{
    let path = String::from_str(home);
    let path = path.concat("/");
    path.concat(DEFAULT_REPO_PATH)
}

/// The provider's configuration file under the home directory `home`.
pub fn default_config_path(home: &str) -> (path: String)
    ensures
        path@ == home@ + "/"@ + DEFAULT_REPO_PATH@ + "/"@ + DEFAULT_CONFIG_NAME@,
{
    let path = default_repo_path(home);
    let path = path.concat("/");
    path.concat(DEFAULT_CONFIG_NAME)
}

} // verus!
