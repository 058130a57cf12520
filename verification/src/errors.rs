use vstd::prelude::*;
use vstd::string::StringExecFns;

verus! {

/// Every way a run of the assistant can fail. Each failure is terminal:
/// the caller reports the message and stops.
#[derive(Debug)]
pub enum CliError {
    /// Missing or conflicting command-line arguments.
    Usage,
    /// No configuration source could be resolved: no readable file and no
    /// complete set of environment overrides.
    ConfigMissing,
    /// A configuration source was present but malformed.
    ConfigInvalid,
    /// The network or the remote service failed; carries the cause.
    Transport(String),
    /// The remote response was not parsable or lacked the expected field.
    ResponseFormat,
}

/// The message each failure is reported with; a transport failure names
/// its underlying cause.
pub open spec fn spec_message(e: CliError) -> Seq<char> {
    match e {
        CliError::Usage => "Invalid usage. Use either `how-to <PROMPT>` or `how-to generate <API_KEY>`."@,
        CliError::ConfigMissing => "Cannot open the configuration file. Make sure to create one using `how-to generate`."@,
        CliError::ConfigInvalid => "Cannot parse the configuration file. Delete the configuration file and create a new one using `how-to generate`."@,
        CliError::Transport(cause) => "Failed to reach the completion endpoint: "@ + cause@,
        CliError::ResponseFormat => "The response did not hold a reply in the expected place."@,
    }
}

impl CliError {
    /// A human-readable account of the failure, for the caller to print.
    pub fn message(&self) -> (r: String)
        ensures
            r@ == spec_message(*self),
            r@.len() > 0,
    {
        let r = match self {
            CliError::Usage => String::from_str(
                "Invalid usage. Use either `how-to <PROMPT>` or `how-to generate <API_KEY>`.",
            ),
            CliError::ConfigMissing => String::from_str(
                "Cannot open the configuration file. Make sure to create one using `how-to generate`.",
            ),
            CliError::ConfigInvalid => String::from_str(
                "Cannot parse the configuration file. Delete the configuration file and create a new one using `how-to generate`.",
            ),
            CliError::Transport(cause) => {
                let mut m = String::from_str("Failed to reach the completion endpoint: ");
                m.append(cause.as_str());
                m
            },
            CliError::ResponseFormat => String::from_str(
                "The response did not hold a reply in the expected place.",
            ),
        };
        proof {
            reveal_strlit(
                "Invalid usage. Use either `how-to <PROMPT>` or `how-to generate <API_KEY>`.",
            );
            reveal_strlit(
                "Cannot open the configuration file. Make sure to create one using `how-to generate`.",
            );
            reveal_strlit(
                "Cannot parse the configuration file. Delete the configuration file and create a new one using `how-to generate`.",
            );
            reveal_strlit("Failed to reach the completion endpoint: ");
            reveal_strlit("The response did not hold a reply in the expected place.");
        }
        r
    }
}

} // verus!
