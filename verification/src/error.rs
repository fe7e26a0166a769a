//! Why the host turns a guest away.
use vstd::prelude::*;
use vstd::string::StringExecFns;

use crate::text::{decimal, decimal_text, decimal_text_reads_back, digits_value};
use crate::version::{NapiVersion, NapiWasmerExtensionVersion};

verus! {

/// Why the host turns a guest away.
pub enum NapiError {
    /// As many sessions as the limit allows are active; the limit is in it.
    TooManySessions(usize),
    /// The guest imports core functions that the host does not know.
    UnsupportedNapiVersion(NapiVersion),
    /// The guest imports a revision of the extension that the host does not have.
    UnsupportedExtensionVersion(NapiWasmerExtensionVersion),
    /// No session was ever queued for the module, or all have been taken.
    MissingPendingSession,
    /// The queue of the module is there, and empty.
    MissingQueuedSession,
    /// The session has made no imports yet.
    MissingFunctionEnv,
    /// The engine could not make the guest's memory.
    Memory(wasmer::MemoryError),
    /// The engine could not make the guest's table.
    Table(wasmer::RuntimeError),
}

impl NapiError {
    /// The words for an error of the host's own; `None` for one that the engine words itself.
    pub open spec fn words(self) -> Option<Seq<char>> {
        match self {
            NapiError::TooManySessions(max) => Some(
                "refusing to create more than "@ + decimal_text(max as nat)
                    + " active N-API sessions"@,
            ),
            NapiError::UnsupportedNapiVersion(version) => Some(
                "unsupported N-API import version: "@ + version.spec_name(),
            ),
            NapiError::UnsupportedExtensionVersion(version) => Some(
                "unsupported Wasmer N-API extension version: "@ + version.spec_name(),
            ),
            NapiError::MissingPendingSession => Some(
                "missing pending N-API session for module instance setup"@,
            ),
            NapiError::MissingQueuedSession => Some(
                "missing queued N-API session for module instance setup"@,
            ),
            NapiError::MissingFunctionEnv => Some(
                "missing runtime function env during instance setup"@,
            ),
            NapiError::Memory(_) => None,
            NapiError::Table(_) => None,
        }
    }

    /// The message for an error of the host's own; `None` for one that the engine words itself.
    pub fn message(&self) -> (message: Option<String>)
        ensures
            match message {
                Some(message) => self.words() == Some(message@),
                None => self.words() is None,
            },
    {
        match self {
            NapiError::TooManySessions(max) => {
                let mut text = "refusing to create more than ".to_owned();
                text.append(decimal(*max).as_str());
                text.append(" active N-API sessions");
                Some(text)
            },
            NapiError::UnsupportedNapiVersion(version) => {
                let mut text = "unsupported N-API import version: ".to_owned();
                text.append(version.name());
                Some(text)
            },
            NapiError::UnsupportedExtensionVersion(version) => {
                let mut text = "unsupported Wasmer N-API extension version: ".to_owned();
                text.append(version.name());
                Some(text)
            },
            NapiError::MissingPendingSession => Some(
                "missing pending N-API session for module instance setup".to_owned(),
            ),
            NapiError::MissingQueuedSession => Some(
                "missing queued N-API session for module instance setup".to_owned(),
            ),
            NapiError::MissingFunctionEnv => Some(
                "missing runtime function env during instance setup".to_owned(),
            ),
            NapiError::Memory(_) => None,
            NapiError::Table(_) => None,
        }
    }
}

/// A refused session names the limit in its words, in decimal digits, whatever the limit is.
pub proof fn refusals_name_the_limit(max: usize)
    ensures
        exists|digits: Seq<char>|
            {
                &&& NapiError::TooManySessions(max).words() == Some(
                    "refusing to create more than "@ + digits + " active N-API sessions"@,
                )
                &&& #[trigger] digits_value(digits) == max
                &&& digits.len() > 0
                &&& max > 0 ==> digits[0] != '0'
            },
{
    decimal_text_reads_back(max as nat);
    assert(digits_value(decimal_text(max as nat)) == max);
}

/// What is not supported is named behind its words, and every other error of the host has words of
/// its own. Only the engine's errors have none here.
pub proof fn errors_say_what_is_wrong(error: NapiError)
    ensures
        error.words() is None <==> error is Memory || error is Table,
        NapiError::UnsupportedNapiVersion(NapiVersion::V10).words() == Some(
            "unsupported N-API import version: "@ + "V10"@,
        ),
        NapiError::UnsupportedNapiVersion(NapiVersion::Unknown).words() == Some(
            "unsupported N-API import version: "@ + "Unknown"@,
        ),
        NapiError::UnsupportedExtensionVersion(NapiWasmerExtensionVersion::V0).words() == Some(
            "unsupported Wasmer N-API extension version: "@ + "V0"@,
        ),
        NapiError::UnsupportedExtensionVersion(NapiWasmerExtensionVersion::Unknown).words() == Some(
            "unsupported Wasmer N-API extension version: "@ + "Unknown"@,
        ),
        NapiError::MissingPendingSession.words() == Some(
            "missing pending N-API session for module instance setup"@,
        ),
        NapiError::MissingQueuedSession.words() == Some(
            "missing queued N-API session for module instance setup"@,
        ),
        NapiError::MissingFunctionEnv.words() == Some(
            "missing runtime function env during instance setup"@,
        ),
{
}

} // verus!
