//! Validation of command line input, with friendly error messages.
use vstd::prelude::*;
use crate::text::{same_text, trim, trimmed};

verus! {

/// A rejected input: which field, and why.
#[derive(Debug)]
pub struct ValidationError {
    pub field: String,
    pub message: String,
}

/// The message of a missing required field.
pub open spec fn required_message() -> Seq<char> {
    "This field is required"@
}

/// The message of an unknown network.
pub open spec fn network_message() -> Seq<char> {
    "Must be one of: futurenet, testnet, mainnet"@
}

/// The message of an unknown contract.
pub open spec fn contract_message() -> Seq<char> {
    "Must be one of: vesting, stream, multisig, governor, oracle"@
}

/// Networks one can deploy to.
pub open spec fn known_network(s: Seq<char>) -> bool {
    s == "futurenet"@ || s == "testnet"@ || s == "mainnet"@
}

/// Contracts of the suite.
pub open spec fn known_contract(s: Seq<char>) -> bool {
    s == "vesting"@ || s == "stream"@ || s == "multisig"@ || s == "governor"@ || s == "oracle"@
}

impl ValidationError {
    pub fn new(field: &str, message: &str) -> (e: Self)
        ensures
            e.field@ == field@,
            e.message@ == message@,
    {
        ValidationError { field: field.to_owned(), message: message.to_owned() }
    }

    /// The error as shown to the user: `❌ field: message`.
    pub fn display(&self) -> (s: String)
        ensures
            s@ == "❌ "@ + self.field@ + ": "@ + self.message@,
    {
        let s = String::from_str("❌ ");
        let s = s.concat(self.field.as_str());
        let s = s.concat(": ");
        s.concat(self.message.as_str())
    }
}

pub struct Validator;

impl Validator {
    /// A required field: present and not blank. Returns the trimmed value.
    pub fn required(value: &Option<String>, field_name: &str) -> (r: Result<String, ValidationError>)
        ensures
            match value {
                Some(v) if trimmed(v@).len() > 0 => (r matches Ok(t) && t@ == trimmed(v@)),
                _ => (r matches Err(e) && e.field@ == field_name@ && e.message@ == required_message()),
            },
    {
        match value {
            Some(v) => {
                let t = trim(v.as_str());
                if !t.is_empty() {
                    return Ok(t.to_owned());
                }
            },
            None => {},
        }
        Err(ValidationError::new(field_name, "This field is required"))
    }

    /// A required text: not blank. Returns the trimmed value.
    pub fn required_string(value: &str, field_name: &str) -> (r: Result<String, ValidationError>)
        ensures
            trimmed(value@).len() > 0 ==> (r matches Ok(t) && t@ == trimmed(value@)),
            trimmed(value@).len() == 0 ==> (r matches Err(e) && e.field@ == field_name@ && e.message@
                == required_message()),
    {
        let t = trim(value);
        if t.is_empty() {
            Err(ValidationError::new(field_name, "This field is required"))
        } else {
            Ok(t.to_owned())
        }
    }

    /// One of the networks `futurenet`, `testnet`, `mainnet`.
    pub fn valid_network(network: &str) -> (r: Result<String, ValidationError>)
        ensures
            known_network(network@) ==> (r matches Ok(t) && t@ == network@),
            !known_network(network@) ==> (r matches Err(e) && e.field@ == "network"@ && e.message@
                == network_message()),
    {
        if same_text(network, "futurenet") || same_text(network, "testnet") || same_text(network, "mainnet") {
            Ok(network.to_owned())
        } else {
            Err(ValidationError::new("network", "Must be one of: futurenet, testnet, mainnet"))
        }
    }

    /// One of the contracts `vesting`, `stream`, `multisig`, `governor`, `oracle`.
    pub fn valid_contract(name: &str) -> (r: Result<String, ValidationError>)
        ensures
            known_contract(name@) ==> (r matches Ok(t) && t@ == name@),
            !known_contract(name@) ==> (r matches Err(e) && e.field@ == "contract"@ && e.message@
                == contract_message()),
    {
        if same_text(name, "vesting") || same_text(name, "stream") || same_text(name, "multisig")
            || same_text(name, "governor") || same_text(name, "oracle") {
            Ok(name.to_owned())
        } else {
            Err(
                ValidationError::new(
                    "contract",
                    "Must be one of: vesting, stream, multisig, governor, oracle",
                ),
            )
        }
    }

    /// All collected errors at once: `Ok` exactly when there are none.
    pub fn validate_all(errors: Vec<ValidationError>) -> (r: Result<(), Vec<ValidationError>>)
        ensures
            errors@.len() == 0 ==> r is Ok,
            errors@.len() > 0 ==> (r matches Err(v) && v@ == errors@),
    {
        if errors.is_empty() {
            Ok(())
        } else {
            Err(errors)
        }
    }
}

} // verus!
