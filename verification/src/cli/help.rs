//! The texts of the tool's detailed help: per command and per contract.
use vstd::prelude::*;
use crate::cli::command::texts;
use crate::text::same_text;

verus! {

/// The lines `help <command>` shows; `None` for a command without help.
pub open spec fn command_help_text(command: Seq<char>) -> Option<Seq<Seq<char>>> {
    if command == "contracts"@ {
        Some(seq![
            "CONTRACTS COMMAND:"@,
            ""@,
            "USAGE: stellarforge contracts [OPTIONS]"@,
            ""@,
            "OPTIONS:"@,
            "  -n, --name <NAME>    Show detailed information about a specific contract"@,
            "  -h, --help           Print help information"@,
            ""@,
            "AVAILABLE CONTRACTS:"@,
            "  vesting     Token vesting with cliff and linear release"@,
            "  stream     Streaming payments contract"@,
            "  multisig     Multi-signature wallet"@,
            "  governor     Governance voting contract"@,
            "  oracle     Price oracle contract"@,
        ])
    } else if command == "build"@ {
        Some(seq![
            "BUILD COMMAND:"@,
            ""@,
            "USAGE: stellarforge build [OPTIONS]"@,
            ""@,
            "OPTIONS:"@,
            "  -c, --contract <NAME>    Build only a specific contract"@,
            "  -r, --release       Build in release mode"@,
            "  -h, --help           Print help information"@,
        ])
    } else if command == "test"@ {
        Some(seq![
            "TEST COMMAND:"@,
            ""@,
            "USAGE: stellarforge test [OPTIONS]"@,
            ""@,
            "OPTIONS:"@,
            "  -c, --contract <NAME>    Run tests only for a specific contract"@,
            "  -h, --help           Print help information"@,
        ])
    } else if command == "deploy"@ {
        Some(seq![
            "DEPLOY COMMAND:"@,
            ""@,
            "USAGE: stellarforge deploy <CONTRACT_TYPE> [OPTIONS]"@,
            ""@,
            "ARGUMENTS:"@,
            "  <CONTRACT_TYPE>    Contract type to deploy (vesting, stream, multisig, governor, oracle)"@,
            ""@,
            "OPTIONS:"@,
            "  -n, --network <NETWORK>    Network to deploy to (futurenet, testnet, mainnet) [default: futurenet]"@,
            "  -h, --help           Print help information"@,
        ])
    } else if command == "quickstart"@ {
        Some(seq![
            "QUICKSTART COMMAND:"@,
            ""@,
            "USAGE: stellarforge quickstart [OPTIONS]"@,
            ""@,
            "OPTIONS:"@,
            "  -p, --path <PATH>    Create a new project directory"@,
            "  -h, --help           Print help information"@,
        ])
    } else {
        None
    }
}
/// The lines describing the contract `name`; `None` for an unknown contract.
pub open spec fn contract_info_text(name: Seq<char>) -> Option<Seq<Seq<char>>> {
    if name == "vesting"@ {
        Some(seq![
            "📋 Token Vesting Contract"@,
            ""@,
            "Description: Token vesting with configurable cliff and linear release schedule."@,
            ""@,
            "Features:"@,
            "  • Configurable cliff period"@,
            "  • Linear token release after cliff"@,
            "  • Beneficiary can claim unlocked tokens"@,
            "  • Admin can cancel and reclaim unvested tokens"@,
            ""@,
            "Use Cases:"@,
            "  • Employee token vesting"@,
            "  • Investor token lockups"@,
            "  • Team token distribution"@,
        ])
    } else if name == "stream"@ {
        Some(seq![
            "💰 Streaming Payments Contract"@,
            ""@,
            "Description: Continuous streaming payments between two parties."@,
            ""@,
            "Features:"@,
            "  • Real-time token streaming"@,
            "  • Configurable flow rate"@,
            "  • Pause and resume functionality"@,
            "  • Withdraw accumulated funds"@,
            ""@,
            "Use Cases:"@,
            "  • Salary payments"@,
            "  • Subscription services"@,
            "  • Revenue sharing"@,
        ])
    } else if name == "multisig"@ {
        Some(seq![
            "🔐 Multi-Signature Wallet"@,
            ""@,
            "Description: Secure multi-signature wallet requiring multiple approvals."@,
            ""@,
            "Features:"@,
            "  • Configurable threshold"@,
            "  • Multiple signers"@,
            "  • Transaction proposals"@,
            "  • Execution after threshold reached"@,
            ""@,
            "Use Cases:"@,
            "  • Treasury management"@,
            "  • Joint accounts"@,
            "  • Escrow services"@,
        ])
    } else if name == "governor"@ {
        Some(seq![
            "🗳️ Governance Contract"@,
            ""@,
            "Description: Decentralized governance and voting system."@,
            ""@,
            "Features:"@,
            "  • Proposal creation"@,
            "  • Token-weighted voting"@,
            "  • Time-locked execution"@,
            "  • Quorum requirements"@,
            ""@,
            "Use Cases:"@,
            "  • DAO governance"@,
            "  • Protocol upgrades"@,
            "  • Parameter changes"@,
        ])
    } else if name == "oracle"@ {
        Some(seq![
            "📊 Price Oracle Contract"@,
            ""@,
            "Description: Decentralized price feed for asset pricing."@,
            ""@,
            "Features:"@,
            "  • Multiple price sources"@,
            "  • Price aggregation"@,
            "  • Update authorization"@,
            "  • Historical price data"@,
            ""@,
            "Use Cases:"@,
            "  • DeFi protocol pricing"@,
            "  • Asset valuation"@,
            "  • Risk management"@,
        ])
    } else {
        None
    }
}
/// The help of `contracts`.
fn command_help_contracts() -> (v: Vec<String>)
    ensures
        texts(v@) == seq![
            "CONTRACTS COMMAND:"@,
            ""@,
            "USAGE: stellarforge contracts [OPTIONS]"@,
            ""@,
            "OPTIONS:"@,
            "  -n, --name <NAME>    Show detailed information about a specific contract"@,
            "  -h, --help           Print help information"@,
            ""@,
            "AVAILABLE CONTRACTS:"@,
            "  vesting     Token vesting with cliff and linear release"@,
            "  stream     Streaming payments contract"@,
            "  multisig     Multi-signature wallet"@,
            "  governor     Governance voting contract"@,
            "  oracle     Price oracle contract"@,
        ],
{
    let mut v: Vec<String> = Vec::new();
    v.push(String::from_str("CONTRACTS COMMAND:"));
    v.push(String::from_str(""));
    v.push(String::from_str("USAGE: stellarforge contracts [OPTIONS]"));
    v.push(String::from_str(""));
    v.push(String::from_str("OPTIONS:"));
    v.push(String::from_str("  -n, --name <NAME>    Show detailed information about a specific contract"));
    v.push(String::from_str("  -h, --help           Print help information"));
    v.push(String::from_str(""));
    v.push(String::from_str("AVAILABLE CONTRACTS:"));
    v.push(String::from_str("  vesting     Token vesting with cliff and linear release"));
    v.push(String::from_str("  stream     Streaming payments contract"));
    v.push(String::from_str("  multisig     Multi-signature wallet"));
    v.push(String::from_str("  governor     Governance voting contract"));
    v.push(String::from_str("  oracle     Price oracle contract"));
    proof {
        assert(texts(v@) =~= seq![
            "CONTRACTS COMMAND:"@,
            ""@,
            "USAGE: stellarforge contracts [OPTIONS]"@,
            ""@,
            "OPTIONS:"@,
            "  -n, --name <NAME>    Show detailed information about a specific contract"@,
            "  -h, --help           Print help information"@,
            ""@,
            "AVAILABLE CONTRACTS:"@,
            "  vesting     Token vesting with cliff and linear release"@,
            "  stream     Streaming payments contract"@,
            "  multisig     Multi-signature wallet"@,
            "  governor     Governance voting contract"@,
            "  oracle     Price oracle contract"@,
        ]);
    }
    v
}

/// The help of `build`.
fn command_help_build() -> (v: Vec<String>)
    ensures
        texts(v@) == seq![
            "BUILD COMMAND:"@,
            ""@,
            "USAGE: stellarforge build [OPTIONS]"@,
            ""@,
            "OPTIONS:"@,
            "  -c, --contract <NAME>    Build only a specific contract"@,
            "  -r, --release       Build in release mode"@,
            "  -h, --help           Print help information"@,
        ],
{
    let mut v: Vec<String> = Vec::new();
    v.push(String::from_str("BUILD COMMAND:"));
    v.push(String::from_str(""));
    v.push(String::from_str("USAGE: stellarforge build [OPTIONS]"));
    v.push(String::from_str(""));
    v.push(String::from_str("OPTIONS:"));
    v.push(String::from_str("  -c, --contract <NAME>    Build only a specific contract"));
    v.push(String::from_str("  -r, --release       Build in release mode"));
    v.push(String::from_str("  -h, --help           Print help information"));
    proof {
        assert(texts(v@) =~= seq![
            "BUILD COMMAND:"@,
            ""@,
            "USAGE: stellarforge build [OPTIONS]"@,
            ""@,
            "OPTIONS:"@,
            "  -c, --contract <NAME>    Build only a specific contract"@,
            "  -r, --release       Build in release mode"@,
            "  -h, --help           Print help information"@,
        ]);
    }
    v
}

/// The help of `test`.
fn command_help_test() -> (v: Vec<String>)
    ensures
        texts(v@) == seq![
            "TEST COMMAND:"@,
            ""@,
            "USAGE: stellarforge test [OPTIONS]"@,
            ""@,
            "OPTIONS:"@,
            "  -c, --contract <NAME>    Run tests only for a specific contract"@,
            "  -h, --help           Print help information"@,
        ],
{
    let mut v: Vec<String> = Vec::new();
    v.push(String::from_str("TEST COMMAND:"));
    v.push(String::from_str(""));
    v.push(String::from_str("USAGE: stellarforge test [OPTIONS]"));
    v.push(String::from_str(""));
    v.push(String::from_str("OPTIONS:"));
    v.push(String::from_str("  -c, --contract <NAME>    Run tests only for a specific contract"));
    v.push(String::from_str("  -h, --help           Print help information"));
    proof {
        assert(texts(v@) =~= seq![
            "TEST COMMAND:"@,
            ""@,
            "USAGE: stellarforge test [OPTIONS]"@,
            ""@,
            "OPTIONS:"@,
            "  -c, --contract <NAME>    Run tests only for a specific contract"@,
            "  -h, --help           Print help information"@,
        ]);
    }
    v
}

/// The help of `deploy`.
fn command_help_deploy() -> (v: Vec<String>)
    ensures
        texts(v@) == seq![
            "DEPLOY COMMAND:"@,
            ""@,
            "USAGE: stellarforge deploy <CONTRACT_TYPE> [OPTIONS]"@,
            ""@,
            "ARGUMENTS:"@,
            "  <CONTRACT_TYPE>    Contract type to deploy (vesting, stream, multisig, governor, oracle)"@,
            ""@,
            "OPTIONS:"@,
            "  -n, --network <NETWORK>    Network to deploy to (futurenet, testnet, mainnet) [default: futurenet]"@,
            "  -h, --help           Print help information"@,
        ],
{
    let mut v: Vec<String> = Vec::new();
    v.push(String::from_str("DEPLOY COMMAND:"));
    v.push(String::from_str(""));
    v.push(String::from_str("USAGE: stellarforge deploy <CONTRACT_TYPE> [OPTIONS]"));
    v.push(String::from_str(""));
    v.push(String::from_str("ARGUMENTS:"));
    v.push(String::from_str("  <CONTRACT_TYPE>    Contract type to deploy (vesting, stream, multisig, governor, oracle)"));
    v.push(String::from_str(""));
    v.push(String::from_str("OPTIONS:"));
    v.push(String::from_str("  -n, --network <NETWORK>    Network to deploy to (futurenet, testnet, mainnet) [default: futurenet]"));
    v.push(String::from_str("  -h, --help           Print help information"));
    proof {
        assert(texts(v@) =~= seq![
            "DEPLOY COMMAND:"@,
            ""@,
            "USAGE: stellarforge deploy <CONTRACT_TYPE> [OPTIONS]"@,
            ""@,
            "ARGUMENTS:"@,
            "  <CONTRACT_TYPE>    Contract type to deploy (vesting, stream, multisig, governor, oracle)"@,
            ""@,
            "OPTIONS:"@,
            "  -n, --network <NETWORK>    Network to deploy to (futurenet, testnet, mainnet) [default: futurenet]"@,
            "  -h, --help           Print help information"@,
        ]);
    }
    v
}

/// The help of `quickstart`.
fn command_help_quickstart() -> (v: Vec<String>)
    ensures
        texts(v@) == seq![
            "QUICKSTART COMMAND:"@,
            ""@,
            "USAGE: stellarforge quickstart [OPTIONS]"@,
            ""@,
            "OPTIONS:"@,
            "  -p, --path <PATH>    Create a new project directory"@,
            "  -h, --help           Print help information"@,
        ],
{
    let mut v: Vec<String> = Vec::new();
    v.push(String::from_str("QUICKSTART COMMAND:"));
    v.push(String::from_str(""));
    v.push(String::from_str("USAGE: stellarforge quickstart [OPTIONS]"));
    v.push(String::from_str(""));
    v.push(String::from_str("OPTIONS:"));
    v.push(String::from_str("  -p, --path <PATH>    Create a new project directory"));
    v.push(String::from_str("  -h, --help           Print help information"));
    proof {
        assert(texts(v@) =~= seq![
            "QUICKSTART COMMAND:"@,
            ""@,
            "USAGE: stellarforge quickstart [OPTIONS]"@,
            ""@,
            "OPTIONS:"@,
            "  -p, --path <PATH>    Create a new project directory"@,
            "  -h, --help           Print help information"@,
        ]);
    }
    v
}
/// The description of the `vesting` contract.
fn contract_info_vesting() -> (v: Vec<String>)
    ensures
        texts(v@) == seq![
            "📋 Token Vesting Contract"@,
            ""@,
            "Description: Token vesting with configurable cliff and linear release schedule."@,
            ""@,
            "Features:"@,
            "  • Configurable cliff period"@,
            "  • Linear token release after cliff"@,
            "  • Beneficiary can claim unlocked tokens"@,
            "  • Admin can cancel and reclaim unvested tokens"@,
            ""@,
            "Use Cases:"@,
            "  • Employee token vesting"@,
            "  • Investor token lockups"@,
            "  • Team token distribution"@,
        ],
{
    let mut v: Vec<String> = Vec::new();
    v.push(String::from_str("📋 Token Vesting Contract"));
    v.push(String::from_str(""));
    v.push(String::from_str("Description: Token vesting with configurable cliff and linear release schedule."));
    v.push(String::from_str(""));
    v.push(String::from_str("Features:"));
    v.push(String::from_str("  • Configurable cliff period"));
    v.push(String::from_str("  • Linear token release after cliff"));
    v.push(String::from_str("  • Beneficiary can claim unlocked tokens"));
    v.push(String::from_str("  • Admin can cancel and reclaim unvested tokens"));
    v.push(String::from_str(""));
    v.push(String::from_str("Use Cases:"));
    v.push(String::from_str("  • Employee token vesting"));
    v.push(String::from_str("  • Investor token lockups"));
    v.push(String::from_str("  • Team token distribution"));
    proof {
        assert(texts(v@) =~= seq![
            "📋 Token Vesting Contract"@,
            ""@,
            "Description: Token vesting with configurable cliff and linear release schedule."@,
            ""@,
            "Features:"@,
            "  • Configurable cliff period"@,
            "  • Linear token release after cliff"@,
            "  • Beneficiary can claim unlocked tokens"@,
            "  • Admin can cancel and reclaim unvested tokens"@,
            ""@,
            "Use Cases:"@,
            "  • Employee token vesting"@,
            "  • Investor token lockups"@,
            "  • Team token distribution"@,
        ]);
    }
    v
}

/// The description of the `stream` contract.
fn contract_info_stream() -> (v: Vec<String>)
    ensures
        texts(v@) == seq![
            "💰 Streaming Payments Contract"@,
            ""@,
            "Description: Continuous streaming payments between two parties."@,
            ""@,
            "Features:"@,
            "  • Real-time token streaming"@,
            "  • Configurable flow rate"@,
            "  • Pause and resume functionality"@,
            "  • Withdraw accumulated funds"@,
            ""@,
            "Use Cases:"@,
            "  • Salary payments"@,
            "  • Subscription services"@,
            "  • Revenue sharing"@,
        ],
{
    let mut v: Vec<String> = Vec::new();
    v.push(String::from_str("💰 Streaming Payments Contract"));
    v.push(String::from_str(""));
    v.push(String::from_str("Description: Continuous streaming payments between two parties."));
    v.push(String::from_str(""));
    v.push(String::from_str("Features:"));
    v.push(String::from_str("  • Real-time token streaming"));
    v.push(String::from_str("  • Configurable flow rate"));
    v.push(String::from_str("  • Pause and resume functionality"));
    v.push(String::from_str("  • Withdraw accumulated funds"));
    v.push(String::from_str(""));
    v.push(String::from_str("Use Cases:"));
    v.push(String::from_str("  • Salary payments"));
    v.push(String::from_str("  • Subscription services"));
    v.push(String::from_str("  • Revenue sharing"));
    proof {
        assert(texts(v@) =~= seq![
            "💰 Streaming Payments Contract"@,
            ""@,
            "Description: Continuous streaming payments between two parties."@,
            ""@,
            "Features:"@,
            "  • Real-time token streaming"@,
            "  • Configurable flow rate"@,
            "  • Pause and resume functionality"@,
            "  • Withdraw accumulated funds"@,
            ""@,
            "Use Cases:"@,
            "  • Salary payments"@,
            "  • Subscription services"@,
            "  • Revenue sharing"@,
        ]);
    }
    v
}

/// The description of the `multisig` contract.
fn contract_info_multisig() -> (v: Vec<String>)
    ensures
        texts(v@) == seq![
            "🔐 Multi-Signature Wallet"@,
            ""@,
            "Description: Secure multi-signature wallet requiring multiple approvals."@,
            ""@,
            "Features:"@,
            "  • Configurable threshold"@,
            "  • Multiple signers"@,
            "  • Transaction proposals"@,
            "  • Execution after threshold reached"@,
            ""@,
            "Use Cases:"@,
            "  • Treasury management"@,
            "  • Joint accounts"@,
            "  • Escrow services"@,
        ],
{
    let mut v: Vec<String> = Vec::new();
    v.push(String::from_str("🔐 Multi-Signature Wallet"));
    v.push(String::from_str(""));
    v.push(String::from_str("Description: Secure multi-signature wallet requiring multiple approvals."));
    v.push(String::from_str(""));
    v.push(String::from_str("Features:"));
    v.push(String::from_str("  • Configurable threshold"));
    v.push(String::from_str("  • Multiple signers"));
    v.push(String::from_str("  • Transaction proposals"));
    v.push(String::from_str("  • Execution after threshold reached"));
    v.push(String::from_str(""));
    v.push(String::from_str("Use Cases:"));
    v.push(String::from_str("  • Treasury management"));
    v.push(String::from_str("  • Joint accounts"));
    v.push(String::from_str("  • Escrow services"));
    proof {
        assert(texts(v@) =~= seq![
            "🔐 Multi-Signature Wallet"@,
            ""@,
            "Description: Secure multi-signature wallet requiring multiple approvals."@,
            ""@,
            "Features:"@,
            "  • Configurable threshold"@,
            "  • Multiple signers"@,
            "  • Transaction proposals"@,
            "  • Execution after threshold reached"@,
            ""@,
            "Use Cases:"@,
            "  • Treasury management"@,
            "  • Joint accounts"@,
            "  • Escrow services"@,
        ]);
    }
    v
}

/// The description of the `governor` contract.
fn contract_info_governor() -> (v: Vec<String>)
    ensures
        texts(v@) == seq![
            "🗳️ Governance Contract"@,
            ""@,
            "Description: Decentralized governance and voting system."@,
            ""@,
            "Features:"@,
            "  • Proposal creation"@,
            "  • Token-weighted voting"@,
            "  • Time-locked execution"@,
            "  • Quorum requirements"@,
            ""@,
            "Use Cases:"@,
            "  • DAO governance"@,
            "  • Protocol upgrades"@,
            "  • Parameter changes"@,
        ],
{
    let mut v: Vec<String> = Vec::new();
    v.push(String::from_str("🗳️ Governance Contract"));
    v.push(String::from_str(""));
    v.push(String::from_str("Description: Decentralized governance and voting system."));
    v.push(String::from_str(""));
    v.push(String::from_str("Features:"));
    v.push(String::from_str("  • Proposal creation"));
    v.push(String::from_str("  • Token-weighted voting"));
    v.push(String::from_str("  • Time-locked execution"));
    v.push(String::from_str("  • Quorum requirements"));
    v.push(String::from_str(""));
    v.push(String::from_str("Use Cases:"));
    v.push(String::from_str("  • DAO governance"));
    v.push(String::from_str("  • Protocol upgrades"));
    v.push(String::from_str("  • Parameter changes"));
    proof {
        assert(texts(v@) =~= seq![
            "🗳️ Governance Contract"@,
            ""@,
            "Description: Decentralized governance and voting system."@,
            ""@,
            "Features:"@,
            "  • Proposal creation"@,
            "  • Token-weighted voting"@,
            "  • Time-locked execution"@,
            "  • Quorum requirements"@,
            ""@,
            "Use Cases:"@,
            "  • DAO governance"@,
            "  • Protocol upgrades"@,
            "  • Parameter changes"@,
        ]);
    }
    v
}

/// The description of the `oracle` contract.
fn contract_info_oracle() -> (v: Vec<String>)
    ensures
        texts(v@) == seq![
            "📊 Price Oracle Contract"@,
            ""@,
            "Description: Decentralized price feed for asset pricing."@,
            ""@,
            "Features:"@,
            "  • Multiple price sources"@,
            "  • Price aggregation"@,
            "  • Update authorization"@,
            "  • Historical price data"@,
            ""@,
            "Use Cases:"@,
            "  • DeFi protocol pricing"@,
            "  • Asset valuation"@,
            "  • Risk management"@,
        ],
{
    let mut v: Vec<String> = Vec::new();
    v.push(String::from_str("📊 Price Oracle Contract"));
    v.push(String::from_str(""));
    v.push(String::from_str("Description: Decentralized price feed for asset pricing."));
    v.push(String::from_str(""));
    v.push(String::from_str("Features:"));
    v.push(String::from_str("  • Multiple price sources"));
    v.push(String::from_str("  • Price aggregation"));
    v.push(String::from_str("  • Update authorization"));
    v.push(String::from_str("  • Historical price data"));
    v.push(String::from_str(""));
    v.push(String::from_str("Use Cases:"));
    v.push(String::from_str("  • DeFi protocol pricing"));
    v.push(String::from_str("  • Asset valuation"));
    v.push(String::from_str("  • Risk management"));
    proof {
        assert(texts(v@) =~= seq![
            "📊 Price Oracle Contract"@,
            ""@,
            "Description: Decentralized price feed for asset pricing."@,
            ""@,
            "Features:"@,
            "  • Multiple price sources"@,
            "  • Price aggregation"@,
            "  • Update authorization"@,
            "  • Historical price data"@,
            ""@,
            "Use Cases:"@,
            "  • DeFi protocol pricing"@,
            "  • Asset valuation"@,
            "  • Risk management"@,
        ]);
    }
    v
}
/// The lines `help <command>` shows, if the command has detailed help.
pub fn command_help(command: &str) -> (r: Option<Vec<String>>)
    ensures
        command_help_text(command@) == (match r {
            Some(v) => Some(texts(v@)),
            None => None::<Seq<Seq<char>>>,
        }),
{
    if same_text(command, "contracts") {
        Some(command_help_contracts())
    } else if same_text(command, "build") {
        Some(command_help_build())
    } else if same_text(command, "test") {
        Some(command_help_test())
    } else if same_text(command, "deploy") {
        Some(command_help_deploy())
    } else if same_text(command, "quickstart") {
        Some(command_help_quickstart())
    } else {
        None
    }
}
/// The lines describing the contract `name`, if it is one of the tool's contracts.
pub fn contract_info(name: &str) -> (r: Option<Vec<String>>)
    ensures
        contract_info_text(name@) == (match r {
            Some(v) => Some(texts(v@)),
            None => None::<Seq<Seq<char>>>,
        }),
{
    if same_text(name, "vesting") {
        Some(contract_info_vesting())
    } else if same_text(name, "stream") {
        Some(contract_info_stream())
    } else if same_text(name, "multisig") {
        Some(contract_info_multisig())
    } else if same_text(name, "governor") {
        Some(contract_info_governor())
    } else if same_text(name, "oracle") {
        Some(contract_info_oracle())
    } else {
        None
    }
}
} // verus!
