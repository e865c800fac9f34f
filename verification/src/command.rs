//! What callers ask of the device thread, and what it answers.

use vstd::prelude::*;

use crate::error::{ErrorView, SignerError};
use crate::text::opt_view;

verus! {

/// A request to the device thread.
pub enum DeviceCommand {
    /// Establish (or reuse) a device session and read the pubkey at `path_str`.
    Connect {
        path_str: String,
        confirm_pubkey_on_device: bool,
        host_device_path: Option<String>,
        /// Launch the Solana app from the dashboard if the connect fails.
        auto_open_app: bool,
    },
    /// Sign serialized transaction-message bytes.
    SignTransactionMessage { path_str: String, message: Vec<u8> },
    /// Sign an off-chain message.
    SignOffchainMessage { path_str: String, message: Vec<u8> },
    /// Liveness probe: can the pubkey be read without on-device confirmation?
    IsAvailable { path_str: String },
    /// Is any Ledger attached, regardless of whether it is usable?
    IsAttached,
}

/// The mathematical value of a [`DeviceCommand`].
#[verifier::ext_equal]
pub enum CommandView {
    Connect {
        path: Seq<char>,
        confirm: bool,
        host: Option<Seq<char>>,
        auto_open: bool,
    },
    SignTransactionMessage { path: Seq<char>, message: Seq<u8> },
    SignOffchainMessage { path: Seq<char>, message: Seq<u8> },
    IsAvailable { path: Seq<char> },
    IsAttached,
}

impl View for DeviceCommand {
    type V = CommandView;

    open spec fn view(&self) -> CommandView {
        match self {
            DeviceCommand::Connect {
                path_str,
                confirm_pubkey_on_device,
                host_device_path,
                auto_open_app,
            } => CommandView::Connect {
                path: path_str@,
                confirm: *confirm_pubkey_on_device,
                host: opt_view(*host_device_path),
                auto_open: *auto_open_app,
            },
            DeviceCommand::SignTransactionMessage { path_str, message } => {
                CommandView::SignTransactionMessage { path: path_str@, message: message@ }
            },
            DeviceCommand::SignOffchainMessage { path_str, message } => {
                CommandView::SignOffchainMessage { path: path_str@, message: message@ }
            },
            DeviceCommand::IsAvailable { path_str } => CommandView::IsAvailable { path: path_str@ },
            DeviceCommand::IsAttached => CommandView::IsAttached,
        }
    }
}

/// An answer of the device thread.
pub enum DeviceReply {
    /// The pubkey that a connect read, or why there is none.
    Connected(Result<[u8; 32], SignerError>),
    /// The signature that the device gave, or why there is none.
    Signed(Result<[u8; 64], SignerError>),
    /// The answer to a probe.
    Probed(bool),
}

/// The mathematical value of a [`DeviceReply`].
#[verifier::ext_equal]
pub enum ReplyView {
    Connected(Result<Seq<u8>, ErrorView>),
    Signed(Result<Seq<u8>, ErrorView>),
    Probed(bool),
}

/// The mathematical value of a 32-byte result.
pub open spec fn key_view(r: Result<[u8; 32], SignerError>) -> Result<Seq<u8>, ErrorView> {
    match r {
        Ok(bytes) => Ok(bytes@),
        Err(e) => Err(e@),
    }
}

/// The mathematical value of a 64-byte result.
pub open spec fn signature_view(r: Result<[u8; 64], SignerError>) -> Result<Seq<u8>, ErrorView> {
    match r {
        Ok(bytes) => Ok(bytes@),
        Err(e) => Err(e@),
    }
}

impl View for DeviceReply {
    type V = ReplyView;

    open spec fn view(&self) -> ReplyView {
        match self {
            DeviceReply::Connected(r) => ReplyView::Connected(key_view(*r)),
            DeviceReply::Signed(r) => ReplyView::Signed(signature_view(*r)),
            DeviceReply::Probed(b) => ReplyView::Probed(*b),
        }
    }
}

/// `reply` is of the kind that `command` asks for.
pub open spec fn answers(reply: ReplyView, command: CommandView) -> bool {
    match command {
        CommandView::Connect { .. } => reply is Connected,
        CommandView::SignTransactionMessage { .. } => reply is Signed,
        CommandView::SignOffchainMessage { .. } => reply is Signed,
        CommandView::IsAvailable { .. } => reply is Probed,
        CommandView::IsAttached => reply is Probed,
    }
}

/// A command is all of its fields, and none of them is lost on the way to the
/// device thread.
pub proof fn a_command_is_all_of_its_fields(
    path_str: String,
    confirm_pubkey_on_device: bool,
    host_device_path: Option<String>,
    auto_open_app: bool,
    message: Vec<u8>,
)
    ensures
        (DeviceCommand::Connect {
            path_str,
            confirm_pubkey_on_device,
            host_device_path,
            auto_open_app,
        })@ == (CommandView::Connect {
            path: path_str@,
            confirm: confirm_pubkey_on_device,
            host: match host_device_path {
                Some(host) => Some(host@),
                None => None,
            },
            auto_open: auto_open_app,
        }),
        (DeviceCommand::SignTransactionMessage { path_str, message })@ == (
        CommandView::SignTransactionMessage { path: path_str@, message: message@ }),
        (DeviceCommand::SignOffchainMessage { path_str, message })@ == (
        CommandView::SignOffchainMessage { path: path_str@, message: message@ }),
        (DeviceCommand::IsAvailable { path_str })@ == (CommandView::IsAvailable {
            path: path_str@,
        }),
        DeviceCommand::IsAttached@ == CommandView::IsAttached,
{
}

/// A reply is what it carries: the bytes on success, the error otherwise.
pub proof fn a_reply_is_what_it_carries(
    key: [u8; 32],
    signature: [u8; 64],
    e: SignerError,
    answer: bool,
)
    ensures
        DeviceReply::Connected(Ok(key))@ == ReplyView::Connected(Ok(key@)),
        DeviceReply::Connected(Err(e))@ == ReplyView::Connected(Err(e@)),
        DeviceReply::Signed(Ok(signature))@ == ReplyView::Signed(Ok(signature@)),
        DeviceReply::Signed(Err(e))@ == ReplyView::Signed(Err(e@)),
        DeviceReply::Probed(answer)@ == ReplyView::Probed(answer),
        key_view(Ok(key)) == Ok::<Seq<u8>, ErrorView>(key@),
        key_view(Err(e)) == Err::<Seq<u8>, ErrorView>(e@),
        signature_view(Ok(signature)) == Ok::<Seq<u8>, ErrorView>(signature@),
        signature_view(Err(e)) == Err::<Seq<u8>, ErrorView>(e@),
{
}

/// A connect is answered with a key or an error, a signing with a signature or an
/// error, and a probe with yes or no.
pub proof fn each_command_has_its_kind_of_reply(command: CommandView, reply: ReplyView)
    ensures
        answers(reply, command) <==> match reply {
            ReplyView::Connected(_) => command is Connect,
            ReplyView::Signed(_) => command is SignTransactionMessage
                || command is SignOffchainMessage,
            ReplyView::Probed(_) => command is IsAvailable || command is IsAttached,
        },
{
}

} // verus!
