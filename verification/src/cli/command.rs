//! Reading the command line: which command was asked for, with which options.
use vstd::prelude::*;
use crate::text::same_text;
use crate::cli::validation::{ValidationError, Validator, contract_message, known_contract, known_network, network_message};

verus! {

/// A command of the tool, as read from its arguments.
#[derive(Debug, PartialEq, Eq)]
pub enum Command {
    /// No command, or `help` alone.
    Help,
    /// `help <command>`.
    CommandHelp(String),
    /// `contracts`.
    ListContracts,
    /// `contracts --name <name>`.
    ContractInfo(String),
    /// `contracts --name` with no name.
    MissingContractName,
    /// `build [--release] [--contract <name>]`.
    Build { contract: Option<String>, release: bool },
    /// `test [--contract <name>]`.
    Test { contract: Option<String> },
    /// `deploy` with no contract type.
    MissingDeployType,
    /// `deploy <type> [--network <network>]`, the network defaulting to `futurenet`.
    Deploy { contract_type: String, network: String },
    /// `quickstart [--path <path>]`.
    Quickstart { path: Option<String> },
    /// `--version` or `-V`.
    Version,
    /// Anything else.
    Unknown(String),
}

/// The texts of the arguments.
pub open spec fn texts(args: Seq<String>) -> Seq<Seq<char>> {
    args.map_values(|s: String| s@)
}

/// The text of an optional argument.
pub open spec fn opt_text(o: Option<String>) -> Option<Seq<char>> {
    match o {
        Some(s) => Some(s@),
        None => None,
    }
}

/// Whether `t` is the long or the short spelling of an option.
pub open spec fn is_option(t: Seq<char>, long: Seq<char>, short: Seq<char>) -> bool {
    t == long || t == short
}

/// Scans `a` from `i` for an option taking a value (`long` or `short`), the
/// last occurrence winning; an option at the very end has no value and is
/// ignored, and the token after an option is its value and not read as an
/// option itself.
pub open spec fn scan_value(a: Seq<Seq<char>>, i: int, long: Seq<char>, short: Seq<char>, found: Option<Seq<char>>) -> Option<Seq<char>>
    decreases a.len() - i,
{
    if i < 0 || i >= a.len() {
        found
    } else if is_option(a[i], long, short) && i + 1 < a.len() {
        scan_value(a, i + 2, long, short, Some(a[i + 1]))
    } else {
        scan_value(a, i + 1, long, short, found)
    }
}

/// Scans the options of `build` from `i`: `--release`/`-r` and
/// `--contract`/`-c <name>`.
pub open spec fn scan_build(a: Seq<Seq<char>>, i: int, release: bool, contract: Option<Seq<char>>) -> (bool, Option<Seq<char>>)
    decreases a.len() - i,
{
    if i < 0 || i >= a.len() {
        (release, contract)
    } else if is_option(a[i], "--release"@, "-r"@) {
        scan_build(a, i + 1, true, contract)
    } else if is_option(a[i], "--contract"@, "-c"@) && i + 1 < a.len() {
        scan_build(a, i + 2, release, Some(a[i + 1]))
    } else {
        scan_build(a, i + 1, release, contract)
    }
}

/// Finds an option taking a value, from position `from` (see `scan_value`).
fn find_value(args: &Vec<String>, from: usize, long: &str, short: &str) -> (r: Option<String>)
    ensures
        opt_text(r) == scan_value(texts(args@), from as int, long@, short@, None),
{
    let ghost a = texts(args@);
    let mut i = from;
    let mut found: Option<String> = None;
    while i < args.len()
        invariant
            a == texts(args@),
            a.len() == args@.len(),
            scan_value(a, i as int, long@, short@, opt_text(found)) == scan_value(a, from as int, long@, short@, None),
        decreases args.len() - i,
    {
        assert(a[i as int] == args@[i as int]@);
        if (same_text(args[i].as_str(), long) || same_text(args[i].as_str(), short)) && i + 1 < args.len() {
            assert(a[i + 1] == args@[i + 1]@);
            found = Some(args[i + 1].clone());
            i = i + 2;
        } else {
            i = i + 1;
        }
    }
    found
}

/// Reads the options of `build`.
fn build_options(args: &Vec<String>) -> (r: (bool, Option<String>))
    requires
        args@.len() >= 2,
    ensures
        (r.0, opt_text(r.1)) == scan_build(texts(args@), 2, false, None),
{
    let ghost a = texts(args@);
    let mut i: usize = 2;
    let mut release = false;
    let mut contract: Option<String> = None;
    while i < args.len()
        invariant
            a == texts(args@),
            a.len() == args@.len(),
            scan_build(a, i as int, release, opt_text(contract)) == scan_build(a, 2, false, None),
        decreases args.len() - i,
    {
        assert(a[i as int] == args@[i as int]@);
        if same_text(args[i].as_str(), "--release") || same_text(args[i].as_str(), "-r") {
            release = true;
            i = i + 1;
        } else if (same_text(args[i].as_str(), "--contract") || same_text(args[i].as_str(), "-c")) && i + 1 < args.len() {
            assert(a[i + 1] == args@[i + 1]@);
            contract = Some(args[i + 1].clone());
            i = i + 2;
        } else {
            i = i + 1;
        }
    }
    (release, contract)
}

/// The command the arguments ask for; `args[0]` is the program's name.
pub fn parse_args(args: &Vec<String>) -> (c: Command)
    ensures
        ({
            let a = texts(args@);
            if a.len() < 2 {
                c == Command::Help
            } else if a[1] == "help"@ {
                if a.len() > 2 { c matches Command::CommandHelp(t) && t@ == a[2] } else { c == Command::Help }
            } else if a[1] == "contracts"@ {
                if a.len() > 2 && is_option(a[2], "--name"@, "-n"@) {
                    if a.len() > 3 { c matches Command::ContractInfo(t) && t@ == a[3] } else { c == Command::MissingContractName }
                } else {
                    c == Command::ListContracts
                }
            } else if a[1] == "build"@ {
                c matches Command::Build { contract, release } && (release, opt_text(contract)) == scan_build(a, 2, false, None)
            } else if a[1] == "test"@ {
                c matches Command::Test { contract } && opt_text(contract) == scan_value(a, 2, "--contract"@, "-c"@, None)
            } else if a[1] == "deploy"@ {
                if a.len() < 3 {
                    c == Command::MissingDeployType
                } else {
                    c matches Command::Deploy { contract_type, network } && contract_type@ == a[2] && network@ == (
                    match scan_value(a, 3, "--network"@, "-n"@, None) {
                        Some(n) => n,
                        None => "futurenet"@,
                    })
                }
            } else if a[1] == "quickstart"@ {
                c matches Command::Quickstart { path } && opt_text(path) == scan_value(a, 2, "--path"@, "-p"@, None)
            } else if is_option(a[1], "--version"@, "-V"@) {
                c == Command::Version
            } else {
                c matches Command::Unknown(t) && t@ == a[1]
            }
        }),
{
    let ghost a = texts(args@);
    if args.len() < 2 {
        return Command::Help;
    }
    assert(a[1] == args@[1]@);
    let cmd = args[1].as_str();
    if same_text(cmd, "help") {
        if args.len() > 2 {
            assert(a[2] == args@[2]@);
            return Command::CommandHelp(args[2].clone());
        }
        return Command::Help;
    }
    if same_text(cmd, "contracts") {
        if args.len() > 2 {
            assert(a[2] == args@[2]@);
            if same_text(args[2].as_str(), "--name") || same_text(args[2].as_str(), "-n") {
                if args.len() > 3 {
                    assert(a[3] == args@[3]@);
                    return Command::ContractInfo(args[3].clone());
                }
                return Command::MissingContractName;
            }
        }
        return Command::ListContracts;
    }
    if same_text(cmd, "build") {
        let (release, contract) = build_options(args);
        return Command::Build { contract, release };
    }
    if same_text(cmd, "test") {
        let contract = find_value(args, 2, "--contract", "-c");
        return Command::Test { contract };
    }
    if same_text(cmd, "deploy") {
        if args.len() < 3 {
            return Command::MissingDeployType;
        }
        assert(a[2] == args@[2]@);
        let contract_type = args[2].clone();
        let network = match find_value(args, 3, "--network", "-n") {
            Some(n) => n,
            None => String::from_str("futurenet"),
        };
        return Command::Deploy { contract_type, network };
    }
    if same_text(cmd, "quickstart") {
        let path = find_value(args, 2, "--path", "-p");
        return Command::Quickstart { path };
    }
    if same_text(cmd, "--version") || same_text(cmd, "-V") {
        return Command::Version;
    }
    Command::Unknown(args[1].clone())
}

/// The problems with a deployment request: an unknown contract type, then an
/// unknown network, each reported as its validator reports it.
pub fn deploy_problems(contract_type: &str, network: &str) -> (v: Vec<ValidationError>)
    ensures
        v@.len() == (if known_contract(contract_type@) { 0int } else { 1int }) + (if known_network(network@) { 0int } else { 1int }),
        !known_contract(contract_type@) ==> v@[0].field@ == "contract"@ && v@[0].message@ == contract_message(),
        !known_network(network@) ==> v@[v@.len() - 1].field@ == "network"@ && v@[v@.len() - 1].message@
            == network_message(),
{
    let mut v: Vec<ValidationError> = Vec::new();
    match Validator::valid_contract(contract_type) {
        Err(e) => v.push(e),
        Ok(_) => {},
    }
    match Validator::valid_network(network) {
        Err(e) => v.push(e),
        Ok(_) => {},
    }
    v
}


/// Once release mode is on, reading further options never turns it off.
proof fn lemma_release_stays(a: Seq<Seq<char>>, i: int, contract: Option<Seq<char>>)
    ensures
        scan_build(a, i, true, contract).0,
    decreases a.len() - i,
{
    if 0 <= i < a.len() {
        if is_option(a[i], "--release"@, "-r"@) {
            lemma_release_stays(a, i + 1, contract);
        } else if is_option(a[i], "--contract"@, "-c"@) && i + 1 < a.len() {
            lemma_release_stays(a, i + 2, Some(a[i + 1]));
        } else {
            lemma_release_stays(a, i + 1, contract);
        }
    }
}

proof fn lemma_release_found(a: Seq<Seq<char>>, i: int, k: int, release: bool, contract: Option<Seq<char>>)
    requires
        0 <= i <= k < a.len(),
        is_option(a[k], "--release"@, "-r"@),
        forall|j: int| i <= j < k ==> !is_option(#[trigger] a[j], "--contract"@, "-c"@),
    ensures
        scan_build(a, i, release, contract).0,
    decreases k - i,
{
    if is_option(a[i], "--release"@, "-r"@) {
        lemma_release_stays(a, i + 1, contract);
    } else {
        lemma_release_found(a, i + 1, k, release, contract);
    }
}

proof fn lemma_release_absent(a: Seq<Seq<char>>, i: int, contract: Option<Seq<char>>)
    requires
        forall|j: int| 0 <= i <= j < a.len() ==> !is_option(#[trigger] a[j], "--release"@, "-r"@),
    ensures
        !scan_build(a, i, false, contract).0,
    decreases a.len() - i,
{
    if 0 <= i < a.len() {
        if is_option(a[i], "--contract"@, "-c"@) && i + 1 < a.len() {
            lemma_release_absent(a, i + 2, Some(a[i + 1]));
        } else {
            lemma_release_absent(a, i + 1, contract);
        }
    }
}

/// `build` runs in release mode exactly as its help says: a `--release` or
/// `-r` among its options (before any `--contract`/`-c`, whose next token is
/// the contract's name) switches release mode on, and without either
/// spelling anywhere it stays off.
pub proof fn law_release_flag(a: Seq<Seq<char>>, k: int)
    requires
        a.len() >= 2,
    ensures
        2 <= k < a.len() && (a[k] == "--release"@ || a[k] == "-r"@) && (forall|j: int|
            2 <= j < k ==> (#[trigger] a[j] != "--contract"@ && a[j] != "-c"@)) ==> scan_build(a, 2, false, None).0,
        (forall|j: int| 2 <= j < a.len() ==> (#[trigger] a[j] != "--release"@ && a[j] != "-r"@)) ==> !scan_build(
            a,
            2,
            false,
            None,
        ).0,
{
    if 2 <= k < a.len() && (a[k] == "--release"@ || a[k] == "-r"@) && (forall|j: int|
        2 <= j < k ==> (#[trigger] a[j] != "--contract"@ && a[j] != "-c"@)) {
        lemma_release_found(a, 2, k, false, None);
    }
    if forall|j: int| 2 <= j < a.len() ==> (#[trigger] a[j] != "--release"@ && a[j] != "-r"@) {
        lemma_release_absent(a, 2, None);
    }
}

} // verus!
