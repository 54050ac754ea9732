use casperlens::api::{
    register_contract_handler, response_for, ApiResponse, ContractPackage, PackageDetails,
    RegisterAction, RegisterContractRequest, RegisterEvent, RegisterOutcome, RegisterState,
};
use casperlens::config::{default_web_url, get_cors_config, load_config, Config};
use casperlens::network::{chain_name, resolve_network, Network};

fn config() -> Config {
    load_config(Some("postgres://db".to_string()), Some("signing-key".to_string()), None, None, None)
}

fn request(network: &str) -> RegisterContractRequest {
    RegisterContractRequest {
        package_hash: "hash-ab".to_string(),
        package_name: "token".to_string(),
        network: network.to_string(),
    }
}

#[test]
fn networks_by_name() {
    assert_eq!(Network::from_name("mainnet"), Some(Network::Mainnet));
    assert_eq!(Network::from_name("testnet"), Some(Network::Testnet));
    assert_eq!(Network::from_name("localnet"), None);
    assert_eq!(Network::from_name("Mainnet"), None);
    assert_eq!(Network::Mainnet.name(), "mainnet");
    assert_eq!(Network::Testnet.name(), "testnet");
}

#[test]
fn three_network_names_are_accepted() {
    assert_eq!(resolve_network(&"mainnet".to_string()), Some("mainnet".to_string()));
    assert_eq!(resolve_network(&"testnet".to_string()), Some("testnet".to_string()));
    assert_eq!(resolve_network(&"localnet".to_string()), Some("localnet".to_string()));
    assert_eq!(resolve_network(&"devnet".to_string()), None);
    assert_eq!(resolve_network(&"".to_string()), None);
}

#[test]
fn chain_names() {
    assert_eq!(chain_name("mainnet"), "casper");
    assert_eq!(chain_name("testnet"), "casper-test");
    assert_eq!(chain_name("localnet"), "casper-test");
    assert_eq!(chain_name(""), "casper-test");
}

#[test]
fn settings_have_defaults() {
    let c = config();
    assert_eq!(c.database_url, "postgres://db");
    assert_eq!(c.jwt_secret, "signing-key");
    assert_eq!(c.web_url, "http://localhost:3000");
    assert_eq!(c.web_url, default_web_url());
    assert_eq!(c.mainnet_node_address, "https://node.mainnet.casper.network");
    assert_eq!(c.testnet_node_address, "https://node.testnet.casper.network");
    assert_eq!(c.clone(), c);
    assert_eq!(c.node_address("mainnet"), "https://node.mainnet.casper.network");
    assert_eq!(c.node_address("testnet"), "https://node.testnet.casper.network");
    assert_eq!(c.node_address("localnet"), "https://node.testnet.casper.network");
}

#[test]
fn settings_that_are_given_are_kept() {
    let c = load_config(
        Some("postgres://db".to_string()),
        Some("signing-key".to_string()),
        Some("https://web".to_string()),
        Some("https://main".to_string()),
        Some("https://test".to_string()),
    );
    assert_eq!(c.web_url, "https://web");
    assert_eq!(c.mainnet_node_address, "https://main");
    assert_eq!(c.testnet_node_address, "https://test");
}

#[test]
fn a_package_is_registered_in_three_steps() {
    let c = config();
    let r = request("mainnet");
    let (state, action) =
        register_contract_handler(&c, &r, "user-1", RegisterState::Idle, RegisterEvent::Begin);
    assert_eq!(state, RegisterState::AwaitingPackage);
    assert_eq!(
        action,
        RegisterAction::FetchPackage {
            node_address: "https://node.mainnet.casper.network".to_string(),
            package_hash: "hash-ab".to_string(),
        }
    );
    let details = PackageDetails {
        owner_id: "owner".to_string(),
        lock_status: true,
        age: "2025-01-01T00:00:00Z".to_string(),
    };
    let (state, action) = register_contract_handler(
        &c,
        &r,
        "user-1",
        state,
        RegisterEvent::Package { details: Some(details) },
    );
    assert_eq!(state, RegisterState::AwaitingInsert);
    assert_eq!(
        action,
        RegisterAction::Insert {
            package: ContractPackage::new(
                "hash-ab".to_string(),
                "user-1".to_string(),
                "token".to_string(),
                "owner".to_string(),
                "mainnet".to_string(),
                true,
                "2025-01-01T00:00:00Z".to_string(),
            ),
        }
    );
    let (state, action) =
        register_contract_handler(&c, &r, "user-1", state, RegisterEvent::Inserted { stored: true });
    assert_eq!(state, RegisterState::Done);
    assert_eq!(
        action,
        RegisterAction::Respond {
            response: ApiResponse {
                success: true,
                message: "Contract registered successfully".to_string(),
                error: None,
                data: None,
            },
        }
    );
}

#[test]
fn a_registration_can_fail_in_three_ways() {
    let c = config();
    let (state, action) = register_contract_handler(
        &c,
        &request("devnet"),
        "user-1",
        RegisterState::Idle,
        RegisterEvent::Begin,
    );
    assert_eq!(state, RegisterState::Done);
    assert_eq!(
        action,
        RegisterAction::Respond {
            response: ApiResponse {
                success: false,
                message: "Invalid network provided".to_string(),
                error: Some("Network must be one of: mainnet, testnet, localnet".to_string()),
                data: None,
            },
        }
    );

    let (state, action) = register_contract_handler(
        &c,
        &request("testnet"),
        "user-1",
        RegisterState::AwaitingPackage,
        RegisterEvent::Package { details: None },
    );
    assert_eq!(state, RegisterState::Done);
    assert_eq!(
        action,
        RegisterAction::Respond { response: response_for(RegisterOutcome::PackageUnavailable) }
    );
    assert_eq!(
        response_for(RegisterOutcome::PackageUnavailable).error,
        Some("Database error.".to_string())
    );

    let (state, action) = register_contract_handler(
        &c,
        &request("testnet"),
        "user-1",
        RegisterState::AwaitingInsert,
        RegisterEvent::Inserted { stored: false },
    );
    assert_eq!(state, RegisterState::Done);
    let expected = ApiResponse {
        success: false,
        message: "Failed to register contract".to_string(),
        error: Some("Database error".to_string()),
        data: None,
    };
    assert_eq!(action, RegisterAction::Respond { response: expected });

    let (state, _) = register_contract_handler(
        &c,
        &request("testnet"),
        "user-1",
        RegisterState::Done,
        RegisterEvent::Begin,
    );
    assert_eq!(state, RegisterState::Done);
}

#[test]
fn a_local_network_is_asked_at_the_testnet_node() {
    let c = config();
    let (_, action) = register_contract_handler(
        &c,
        &request("localnet"),
        "user-1",
        RegisterState::Idle,
        RegisterEvent::Begin,
    );
    assert_eq!(
        action,
        RegisterAction::FetchPackage {
            node_address: "https://node.testnet.casper.network".to_string(),
            package_hash: "hash-ab".to_string(),
        }
    );
}

#[test]
fn the_policy_across_origins() {
    let policy = get_cors_config(None);
    assert_eq!(policy.allowed_origin, "http://localhost:3000");
    assert_eq!(policy.allowed_methods, vec!["GET", "POST", "OPTIONS"]);
    assert_eq!(
        policy.allowed_headers,
        vec![
            "cookie",
            "set-cookie",
            "content-length",
            "content-type",
            "access-control-allow-origin",
            "access-control-allow-headers",
            "access-control-allow-credentials",
            "access-control-allow-methods",
            "Credentials",
        ]
    );
    assert!(policy.allow_credentials);
    assert_eq!(get_cors_config(Some("https://web".to_string())).allowed_origin, "https://web");
}
