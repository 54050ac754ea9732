//! Registering a contract package: what a request asks for, what is answered,
//! and the decisions in between.

use crate::config::Config;
use crate::network::{resolve_network, resolved_network};
use vstd::prelude::*;
use vstd::string::*;

verus! {

/// The envelope of every answer.
#[derive(Debug, PartialEq, Eq)]
pub struct ApiResponse<T, E> {
    pub success: bool,
    pub message: String,
    pub error: Option<E>,
    pub data: Option<T>,
}

/// A request to register a package.
#[derive(Debug, PartialEq, Eq)]
pub struct RegisterContractRequest {
    pub package_hash: String,
    pub package_name: String,
    pub network: String,
}

/// A registered package as it is stored.
#[derive(Debug, PartialEq, Eq)]
pub struct ContractPackage {
    pub package_hash: String,
    pub user_id: String,
    pub contract_name: String,
    pub owner_id: String,
    pub network: String,
    pub lock_status: bool,
    pub age: String,
}

pub struct ContractPackageView {
    pub package_hash: Seq<char>,
    pub user_id: Seq<char>,
    pub contract_name: Seq<char>,
    pub owner_id: Seq<char>,
    pub network: Seq<char>,
    pub lock_status: bool,
    pub age: Seq<char>,
}

impl View for ContractPackage {
    type V = ContractPackageView;

    open spec fn view(&self) -> ContractPackageView {
        ContractPackageView {
            package_hash: self.package_hash@,
            user_id: self.user_id@,
            contract_name: self.contract_name@,
            owner_id: self.owner_id@,
            network: self.network@,
            lock_status: self.lock_status,
            age: self.age@,
        }
    }
}

impl ContractPackage {
    /// A package record with the fields given.
    pub fn new(
        package_hash: String,
        user_id: String,
        contract_name: String,
        owner_id: String,
        network: String,
        lock_status: bool,
        age: String,
    ) -> (r: Self)
        ensures
            r@ == (ContractPackageView {
                package_hash: package_hash@,
                user_id: user_id@,
                contract_name: contract_name@,
                owner_id: owner_id@,
                network: network@,
                lock_status,
                age: age@,
            }),
    {
        ContractPackage { package_hash, user_id, contract_name, owner_id, network, lock_status, age }
    }
}

/// What the chain tells of a package that is about to be registered.
#[derive(Debug, PartialEq, Eq)]
pub struct PackageDetails {
    pub owner_id: String,
    pub lock_status: bool,
    pub age: String,
}

/// Where a registration stands.
#[derive(Debug, Clone, Copy, PartialEq, Eq)]
pub enum RegisterState {
    /// Nothing was done yet.
    Idle,
    /// The chain was asked for the package.
    AwaitingPackage,
    /// The record was handed to the database.
    AwaitingInsert,
    /// The request was answered.
    Done,
}

/// What happened since the last step.
#[derive(Debug, PartialEq, Eq)]
pub enum RegisterEvent {
    /// The request came in.
    Begin,
    /// The chain gave the package, or did not.
    Package { details: Option<PackageDetails> },
    /// The database took the record, or did not.
    Inserted { stored: bool },
}

/// What is to be done next.
#[derive(Debug, PartialEq, Eq)]
pub enum RegisterAction {
    /// Ask the node at `node_address` for the package `package_hash`.
    FetchPackage { node_address: String, package_hash: String },
    /// Store `package`.
    Insert { package: ContractPackage },
    /// Answer the request.
    Respond { response: ApiResponse<(), String> },
}

/// The four answers a registration can end with.
#[derive(Debug, Clone, Copy, PartialEq, Eq)]
pub enum RegisterOutcome {
    Registered,
    InvalidNetwork,
    PackageUnavailable,
    NotStored,
}

/// The step of a registration in outline: what is done next, and, where the
/// request is answered, which answer it gets.
pub enum RegisterPlan {
    FetchPackage,
    Insert,
    Respond(RegisterOutcome),
}

/// The next state and what to do, for each state and event. A request for an
/// unknown network is refused at once; a package that the chain does not give
/// and a record that the database does not take end the registration.
pub open spec fn register_plan(
    network: Seq<char>,
    state: RegisterState,
    event: RegisterEvent,
) -> (RegisterState, RegisterPlan) {
    match (state, event) {
        (RegisterState::Idle, RegisterEvent::Begin) => if resolved_network(network) is Some {
            (RegisterState::AwaitingPackage, RegisterPlan::FetchPackage)
        } else {
            (RegisterState::Done, RegisterPlan::Respond(RegisterOutcome::InvalidNetwork))
        },
        (RegisterState::AwaitingPackage, RegisterEvent::Package { details }) => if resolved_network(
            network,
        ) is Some && details is Some {
            (RegisterState::AwaitingInsert, RegisterPlan::Insert)
        } else {
            (RegisterState::Done, RegisterPlan::Respond(RegisterOutcome::PackageUnavailable))
        },
        (RegisterState::AwaitingInsert, RegisterEvent::Inserted { stored }) => if stored {
            (RegisterState::Done, RegisterPlan::Respond(RegisterOutcome::Registered))
        } else {
            (RegisterState::Done, RegisterPlan::Respond(RegisterOutcome::NotStored))
        },
        _ => (RegisterState::Done, RegisterPlan::Respond(RegisterOutcome::NotStored)),
    }
}

/// The answer that goes with an outcome holds no data, succeeds only where the
/// package was registered, and says what went wrong otherwise.
pub open spec fn is_response_for(response: ApiResponse<(), String>, outcome: RegisterOutcome) -> bool {
    &&& response.data is None
    &&& match outcome {
        RegisterOutcome::Registered => response.success && response.message@
            == "Contract registered successfully"@ && response.error is None,
        RegisterOutcome::InvalidNetwork => !response.success && response.message@
            == "Invalid network provided"@ && response.error is Some && response.error->0@
            == "Network must be one of: mainnet, testnet, localnet"@,
        RegisterOutcome::PackageUnavailable => !response.success && response.message@
            == "Failed to register contract"@ && response.error is Some && response.error->0@
            == "Database error."@,
        RegisterOutcome::NotStored => !response.success && response.message@
            == "Failed to register contract"@ && response.error is Some && response.error->0@
            == "Database error"@,
    }
}

/// The answer that goes with an outcome.
pub fn response_for(outcome: RegisterOutcome) -> (response: ApiResponse<(), String>)
    ensures
        is_response_for(response, outcome),
{
    match outcome {
        RegisterOutcome::Registered => ApiResponse {
            success: true,
            message: String::from_str("Contract registered successfully"),
            error: None,
            data: None,
        },
        RegisterOutcome::InvalidNetwork => ApiResponse {
            success: false,
            message: String::from_str("Invalid network provided"),
            error: Some(String::from_str("Network must be one of: mainnet, testnet, localnet")),
            data: None,
        },
        RegisterOutcome::PackageUnavailable => ApiResponse {
            success: false,
            message: String::from_str("Failed to register contract"),
            error: Some(String::from_str("Database error.")),
            data: None,
        },
        RegisterOutcome::NotStored => ApiResponse {
            success: false,
            message: String::from_str("Failed to register contract"),
            error: Some(String::from_str("Database error")),
            data: None,
        },
    }
}

/// Takes one step in registering the package that `payload` names for the
/// user `user_id`: start with [`RegisterState::Idle`] and
/// [`RegisterEvent::Begin`], do what the action says, and come back with the
/// state returned and the event that tells how it went, until the action is
/// `Respond`.
pub fn register_contract_handler(
    config: &Config,
    payload: &RegisterContractRequest,
    user_id: &str,
    state: RegisterState,
    event: RegisterEvent,
) -> (r: (RegisterState, RegisterAction))
    ensures
        r.0 == register_plan(payload.network@, state, event).0,
        match register_plan(payload.network@, state, event).1 {
            RegisterPlan::FetchPackage => r.1 matches RegisterAction::FetchPackage {
                node_address,
                package_hash,
            } && package_hash@ == payload.package_hash@ && node_address@ == (if payload.network@
                == "mainnet"@ {
                config.mainnet_node_address@
            } else {
                config.testnet_node_address@
            }),
            RegisterPlan::Insert => r.1 matches RegisterAction::Insert { package } && package@ == (
            ContractPackageView {
                package_hash: payload.package_hash@,
                user_id: user_id@,
                contract_name: payload.package_name@,
                owner_id: event->details->0.owner_id@,
                network: payload.network@,
                lock_status: event->details->0.lock_status,
                age: event->details->0.age@,
            }),
            RegisterPlan::Respond(outcome) => r.1 matches RegisterAction::Respond { response }
                && is_response_for(response, outcome),
        },
{
    let network = resolve_network(&payload.network);
    match (state, event) {
        (RegisterState::Idle, RegisterEvent::Begin) => {
            match network {
                Some(name) => (
                    RegisterState::AwaitingPackage,
                    RegisterAction::FetchPackage {
                        node_address: config.node_address(name.as_str()).clone(),
                        package_hash: payload.package_hash.clone(),
                    },
                ),
                None => (
                    RegisterState::Done,
                    RegisterAction::Respond {
                        response: response_for(RegisterOutcome::InvalidNetwork),
                    },
                ),
            }
        },
        (RegisterState::AwaitingPackage, RegisterEvent::Package { details }) => {
            match (network, details) {
                (Some(name), Some(found)) => (
                    RegisterState::AwaitingInsert,
                    RegisterAction::Insert {
                        package: ContractPackage::new(
                            payload.package_hash.clone(),
                            String::from_str(user_id),
                            payload.package_name.clone(),
                            found.owner_id,
                            name,
                            found.lock_status,
                            found.age,
                        ),
                    },
                ),
                _ => (
                    RegisterState::Done,
                    RegisterAction::Respond {
                        response: response_for(RegisterOutcome::PackageUnavailable),
                    },
                ),
            }
        },
        (RegisterState::AwaitingInsert, RegisterEvent::Inserted { stored }) => {
            if stored {
                (
                    RegisterState::Done,
                    RegisterAction::Respond { response: response_for(RegisterOutcome::Registered) },
                )
            } else {
                (
                    RegisterState::Done,
                    RegisterAction::Respond { response: response_for(RegisterOutcome::NotStored) },
                )
            }
        },
        _ => (
            RegisterState::Done,
            RegisterAction::Respond { response: response_for(RegisterOutcome::NotStored) },
        ),
    }
}

} // verus!
