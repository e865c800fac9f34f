//! What the wallet library reports, and how a signer passes it on.

use vstd::prelude::*;

use crate::error::{failure, ErrorKind, ErrorView, SignerError};
use crate::text::join;

verus! {

/// An error of `solana-remote-wallet`, as far as a signer tells them apart.
pub enum WalletError {
    /// The host-side cancellation.
    UserCancel,
    /// An APDU status word that the device answered with, and the text it
    /// displays.
    Ledger { status: u16, text: String },
    /// No device was enumerated.
    NoDeviceFound,
    /// A failure of the HID layer, with its text.
    Hid(String),
    /// The transport answered but the app-level command did not.
    Protocol(String),
    /// Any other error, with the text it displays.
    Unclassified(String),
}

/// The status word with which a Ledger reports that the user rejected on-screen.
pub const STATUS_USER_CANCEL: u16 = 0x6985;

pub const REJECTED_ON_DEVICE: &'static str = "request rejected on Ledger device";

pub const NO_LEDGER: &'static str = "no Ledger device found";

pub const NOT_REACHABLE: &'static str =
    "Ledger is not reachable. Either it was disconnected, or another application is holding the device — quit Ledger Live and any other wallet software, then retry.";

pub const DID_NOT_ANSWER: &'static str =
    "Ledger did not answer. It is either locked — unlock it and open the Solana app — or another application is holding the device, so quit Ledger Live and any other wallet software. Then retry.";

pub const DEVICE_ERROR: &'static str = "Ledger device error: ";

/// How a signer reports a wallet error.
///
/// There are two distinct cancellations, the host's and the device's; a real
/// on-device decline is the latter.
///
/// A HID-layer failure and an unclassified protocol error both leave open
/// whether the device is gone, locked or held by another process, so they are
/// reported as unavailability and name every remedy. Neither is a *signing*
/// failure: nothing was signed.
pub open spec fn wallet_failure(e: WalletError) -> ErrorView {
    match e {
        WalletError::UserCancel => failure(ErrorKind::UserRejected, REJECTED_ON_DEVICE@),
        WalletError::Ledger { status, text } => if status == STATUS_USER_CANCEL {
            failure(ErrorKind::UserRejected, REJECTED_ON_DEVICE@)
        } else {
            failure(ErrorKind::SigningFailed, DEVICE_ERROR@ + text@)
        },
        WalletError::NoDeviceFound => failure(ErrorKind::NotAvailable, NO_LEDGER@),
        WalletError::Hid(_) => failure(ErrorKind::NotAvailable, NOT_REACHABLE@),
        WalletError::Protocol(_) => failure(ErrorKind::NotAvailable, DID_NOT_ANSWER@),
        WalletError::Unclassified(text) => failure(
            ErrorKind::SigningFailed,
            DEVICE_ERROR@ + text@,
        ),
    }
}

/// Map wallet errors onto [`SignerError`], preserving the user-rejection and
/// device-absence cases the caller wants to distinguish.
pub fn map_rw_err(e: WalletError) -> (r: SignerError)
    ensures
        r@ == wallet_failure(e),
{
    match e {
        WalletError::UserCancel => SignerError::UserRejected(REJECTED_ON_DEVICE.to_owned()),
        WalletError::Ledger { status, text } => if status == STATUS_USER_CANCEL {
            SignerError::UserRejected(REJECTED_ON_DEVICE.to_owned())
        } else {
            SignerError::SigningFailed(join(DEVICE_ERROR, text.as_str()))
        },
        WalletError::NoDeviceFound => SignerError::NotAvailable(NO_LEDGER.to_owned()),
        WalletError::Hid(_) => SignerError::NotAvailable(NOT_REACHABLE.to_owned()),
        WalletError::Protocol(_) => SignerError::NotAvailable(DID_NOT_ANSWER.to_owned()),
        WalletError::Unclassified(text) => SignerError::SigningFailed(
            join(DEVICE_ERROR, text.as_str()),
        ),
    }
}

/// A decline is reported as a decline, whichever side it was noticed on, and
/// nothing else is.
pub proof fn only_a_decline_is_user_rejected(e: WalletError)
    ensures
        wallet_failure(e).kind is UserRejected <==> (e is UserCancel || (e matches WalletError::Ledger {
            status,
            ..
        } && status == STATUS_USER_CANCEL)),
{
}

/// How each wallet error is reported. Nothing but a status word and a text that
/// the wallet gave makes a difference within a kind.
pub proof fn every_wallet_error_has_its_report(status: u16, text: String)
    ensures
        wallet_failure(WalletError::UserCancel) == (ErrorView {
            kind: ErrorKind::UserRejected,
            detail: "request rejected on Ledger device"@,
        }),
        status == 0x6985 ==> wallet_failure(WalletError::Ledger { status, text }) == (ErrorView {
            kind: ErrorKind::UserRejected,
            detail: "request rejected on Ledger device"@,
        }),
        status != 0x6985 ==> wallet_failure(WalletError::Ledger { status, text }) == (ErrorView {
            kind: ErrorKind::SigningFailed,
            detail: "Ledger device error: "@ + text@,
        }),
        wallet_failure(WalletError::NoDeviceFound) == (ErrorView {
            kind: ErrorKind::NotAvailable,
            detail: "no Ledger device found"@,
        }),
        wallet_failure(WalletError::Hid(text)) == (ErrorView {
            kind: ErrorKind::NotAvailable,
            detail:
                "Ledger is not reachable. Either it was disconnected, or another application is holding the device — quit Ledger Live and any other wallet software, then retry."@,
        }),
        wallet_failure(WalletError::Protocol(text)) == (ErrorView {
            kind: ErrorKind::NotAvailable,
            detail:
                "Ledger did not answer. It is either locked — unlock it and open the Solana app — or another application is holding the device, so quit Ledger Live and any other wallet software. Then retry."@,
        }),
        wallet_failure(WalletError::Unclassified(text)) == (ErrorView {
            kind: ErrorKind::SigningFailed,
            detail: "Ledger device error: "@ + text@,
        }),
{
}

} // verus!
