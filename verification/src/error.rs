//! The error taxonomy of the runtime.
//!
//! Load-time failures abort driver construction; call-time failures surface
//! to the caller of the corresponding operation.  An absent optional hook is
//! not an error: capability probes return `false` and callers branch on it.

use vstd::prelude::*;

verus! {

/// Why a runtime operation failed.
#[derive(Debug, PartialEq, Eq)]
pub enum IntegrationError {
    /// Driver construction failed: the manifest was malformed, it named an
    /// unknown wire-contract standard, or the script failed to execute at
    /// load time.  Fatal for the one game; no partial driver is returned.
    Load(String),
    /// A named entry point was missing when required, or the script raised
    /// while handling a call.  Carries the engine's message.
    Script(String),
    /// The script returned a value whose shape does not match the schema
    /// the operation expects.  Never silently coerced.
    Marshal,
}

impl IntegrationError {
    /// A short, stable label for the error class, for logs and messages.
    pub fn describe(&self) -> (r: String)
        ensures
            match self {
                IntegrationError::Load(m) => r@ == m@,
                IntegrationError::Script(m) => r@ == m@,
                IntegrationError::Marshal => r@ == "unexpected value shape from script"@,
            },
    {
        match self {
            IntegrationError::Load(m) => m.clone(),
            IntegrationError::Script(m) => m.clone(),
            IntegrationError::Marshal => String::from_str("unexpected value shape from script"),
        }
    }
}

} // verus!
