//! BIP-44 derivation paths, as far as a signer looks at them.

use vstd::prelude::*;

use crate::error::{failure, ErrorKind, ErrorView, SignerError};
use crate::text::join;

verus! {

/// Default Solana derivation path: `m/44'/501'/0'`.
///
/// This matches **Ledger Live**'s Solana accounts (account index, no "change"
/// component), so the derived address equals the one a user sees and funds in
/// Ledger Live. (The 4-component `m/44'/501'/0'/0'` is the older Solana-CLI
/// style and derives a *different* address.)
pub const DEFAULT_DERIVATION_PATH: &'static str = "m/44'/501'/0'";

pub const INVALID_PATH: &'static str = "invalid derivation path: ";

/// What `solana_derivation_path` finds wrong with an absolute path: the text of
/// its error, or `None` for a path that it parses.
pub uninterp spec fn path_fault(path: Seq<char>) -> Option<Seq<char>>;

/// Calls `solana_derivation_path::DerivationPath::from_absolute_path_str` and
/// keeps the text of its error.
///
/// Trusted: whether a path parses, and the text of the error where it does not,
/// depend on the path alone and are what [`path_fault`] stands for; and the
/// default path parses.
#[verifier::external_body]
fn parse_absolute_path(path: &str) -> (r: Result<(), String>)
    ensures
        path_fault(path@) == (match r {
            Ok(_) => None,
            Err(text) => Some(text@),
        }),
        path@ == DEFAULT_DERIVATION_PATH@ ==> r is Ok,
{
    match solana_derivation_path::DerivationPath::from_absolute_path_str(path) {
        Ok(_) => Ok(()),
        Err(e) => Err(e.to_string()),
    }
}

/// The error for a path with the fault `text`.
pub open spec fn invalid_path(text: Seq<char>) -> ErrorView {
    failure(ErrorKind::ConfigError, INVALID_PATH@ + text)
}

/// Turns the outcome of a parse into a verdict.
pub fn accept_parsed(parsed: Result<(), String>) -> (r: Result<(), SignerError>)
    ensures
        r is Ok <==> parsed is Ok,
        parsed matches Err(text) ==> (r matches Err(e) && e@ == invalid_path(text@)),
{
    match parsed {
        Ok(_) => Ok(()),
        Err(text) => Err(SignerError::ConfigError(join(INVALID_PATH, text.as_str()))),
    }
}

/// Accepts exactly the paths that `solana_derivation_path` parses, the default
/// one among them.
pub fn check_path(path: &str) -> (r: Result<(), SignerError>)
    ensures
        r is Ok <==> path_fault(path@) is None,
        r matches Err(e) ==> (path_fault(path@) matches Some(text) && e@ == invalid_path(text)),
        path@ == DEFAULT_DERIVATION_PATH@ ==> r is Ok,
{
    accept_parsed(parse_absolute_path(path))
}

/// A path that does not parse is the caller's mistake, and the error says what is
/// wrong with it.
pub proof fn a_bad_path_is_a_config_error(text: Seq<char>)
    ensures
        invalid_path(text).kind is ConfigError,
        invalid_path(text).detail == "invalid derivation path: "@ + text,
{
}

} // verus!
