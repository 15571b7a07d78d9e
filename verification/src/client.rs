//! What the client says to the service and makes of its answers: the addresses of the endpoints,
//! the errors, and the entries of a file list.

use crate::equal::same_text;
use crate::hex_codec::{hex_decode, hex_encode, is_hex};
use crate::keys::PublicKey;
use crate::types::{FileId, FileMode, FileState};
use vstd::prelude::*;
use vstd::string::*;

verus! {

/// The kinds of failure of the client.
#[derive(Clone, Copy, Debug, PartialEq, Eq, Structural)]
pub enum TFSLiteClientErrorType {
    InvalidAccount,
    TransportError,
    DecodeError,
}

/// A failure of the client: its kind and, for some kinds, a message.
#[derive(Debug)]
pub struct TFSLiteClientError {
    error_type: TFSLiteClientErrorType,
    error_msg: Option<String>,
}

/// The message of an error, or the words that stand for a missing one.
pub open spec fn message_or_none(message: Option<Seq<char>>) -> Seq<char> {
    match message {
        Some(text) => text,
        None => "<no msg>"@,
    }
}

/// An error in words: its kind, followed for a transport or decode error by its message.
pub open spec fn client_error_text(
    error_type: TFSLiteClientErrorType,
    message: Option<Seq<char>>,
) -> Seq<char> {
    match error_type {
        TFSLiteClientErrorType::InvalidAccount => "InvalidAccountError"@,
        TFSLiteClientErrorType::TransportError => "TransportError: "@ + message_or_none(message),
        TFSLiteClientErrorType::DecodeError => "DecodeError: "@ + message_or_none(message),
    }
}

impl TFSLiteClientError {
    /// The kind of the failure.
    pub closed spec fn kind(&self) -> TFSLiteClientErrorType {
        self.error_type
    }

    /// The message of the failure, if it has one.
    pub closed spec fn message(&self) -> Option<Seq<char>> {
        match self.error_msg {
            Some(text) => Some(text@),
            None => None,
        }
    }

    /// A failure of the given kind with the given message.
    pub fn new(error_type: TFSLiteClientErrorType, error_msg: Option<String>) -> (e:
        TFSLiteClientError)
        ensures
            e.kind() == error_type,
            e.message() == (match error_msg {
                Some(text) => Some(text@),
                None => None,
            }),
    {
        TFSLiteClientError { error_type, error_msg }
    }

    /// The kind of the failure.
    pub fn error_type(&self) -> (kind: TFSLiteClientErrorType)
        ensures
            kind == self.kind(),
    {
        self.error_type
    }

    /// The failure in words.
    pub fn to_string(&self) -> (text: String)
        ensures
            text@ == client_error_text(self.kind(), self.message()),
    {
        match self.error_type {
            TFSLiteClientErrorType::InvalidAccount => String::from_str("InvalidAccountError"),
            TFSLiteClientErrorType::TransportError => {
                let mut text = String::from_str("TransportError: ");
                match &self.error_msg {
                    Some(message) => text.append(message.as_str()),
                    None => text.append("<no msg>"),
                }
                text
            },
            TFSLiteClientErrorType::DecodeError => {
                let mut text = String::from_str("DecodeError: ");
                match &self.error_msg {
                    Some(message) => text.append(message.as_str()),
                    None => text.append("<no msg>"),
                }
                text
            },
        }
    }
}

/// The address of an endpoint: the address of the service followed by the path.
pub fn endpoint(url: &str, path: &str) -> (address: String)
    ensures
        address@ == url@ + path@,
{
    let mut address = String::from_str(url);
    address.append(path);
    address
}

/// The address that tells which build the service runs.
pub fn build_info_url(url: &str) -> (address: String)
    ensures
        address@ == url@ + "/build-info"@,
{
    endpoint(url, "/build-info")
}

/// The address that tells the key of the batcher.
pub fn batcher_public_key_url(url: &str) -> (address: String)
    ensures
        address@ == url@ + "/batcher-public-key"@,
{
    endpoint(url, "/batcher-public-key")
}

/// The address that takes a transaction.
pub fn submit_url(url: &str) -> (address: String)
    ensures
        address@ == url@ + "/transaction/submit"@,
{
    endpoint(url, "/transaction/submit")
}

/// The address that tells the status of several transactions at once.
pub fn status_url(url: &str) -> (address: String)
    ensures
        address@ == url@ + "/transaction/status/multiple"@,
{
    endpoint(url, "/transaction/status/multiple")
}

/// The address that tells the balance of an account. Fails with `InvalidAccount` exactly where
/// no account is set.
pub fn account_balance_url(url: &str, account: Option<&PublicKey>) -> (r: Result<
    String,
    TFSLiteClientError,
>)
    ensures
        match account {
            Some(key) => r matches Ok(address) && address@ == url@ + "/account/balance/"@
                + hex_encode(key@),
            None => r matches Err(e) && e.kind() == TFSLiteClientErrorType::InvalidAccount
                && e.message() is None,
        },
{
    match account {
        Some(key) => {
            let mut address = endpoint(url, "/account/balance/");
            address.append(key.as_hex().as_str());
            Ok(address)
        },
        None => Err(TFSLiteClientError::new(TFSLiteClientErrorType::InvalidAccount, None)),
    }
}

/// The address that lists the files of an account. Fails with `InvalidAccount` exactly where no
/// account is set.
pub fn account_files_url(url: &str, account: Option<&PublicKey>) -> (r: Result<
    String,
    TFSLiteClientError,
>)
    ensures
        match account {
            Some(key) => r matches Ok(address) && address@ == url@ + "/account/files/"@
                + hex_encode(key@),
            None => r matches Err(e) && e.kind() == TFSLiteClientErrorType::InvalidAccount
                && e.message() is None,
        },
{
    match account {
        Some(key) => {
            let mut address = endpoint(url, "/account/files/");
            address.append(key.as_hex().as_str());
            Ok(address)
        },
        None => Err(TFSLiteClientError::new(TFSLiteClientErrorType::InvalidAccount, None)),
    }
}

/// Reads the key of the batcher from the hexadecimal digits that the service sent. Fails with
/// `DecodeError` exactly where they are not an even number of hexadecimal digits.
pub fn parse_batcher_public_key(key_hex: &str) -> (r: Result<PublicKey, TFSLiteClientError>)
    ensures
        match r {
            Ok(key) => hex_decode(key_hex@) == Some(key@),
            Err(e) => !is_hex(key_hex@) && e.kind() == TFSLiteClientErrorType::DecodeError,
        },
{
    match PublicKey::load_from_hex(key_hex) {
        Ok(key) => Ok(key),
        Err(e) => Err(
            TFSLiteClientError::new(TFSLiteClientErrorType::DecodeError, Some(e.to_string())),
        ),
    }
}

/// The error for an answer that is no success: a transport error that carries the status and
/// the body of the answer.
pub fn response_error(status: &str, body: Option<String>) -> (e: TFSLiteClientError)
    ensures
        e.kind() == TFSLiteClientErrorType::TransportError,
        e.message() == Some(
            "Response Code: "@ + status@ + ", Message: "@ + (match body {
                Some(text) => text@,
                None => "(No Message Found)"@,
            }),
        ),
{
    let mut text = String::from_str("Response Code: ");
    text.append(status);
    text.append(", Message: ");
    match &body {
        Some(message) => text.append(message.as_str()),
        None => text.append("(No Message Found)"),
    }
    TFSLiteClientError::new(TFSLiteClientErrorType::TransportError, Some(text))
}

/// A point in time: seconds since the start of 1970, and nanoseconds within the second.
#[derive(Clone, Copy, Debug, PartialEq, Eq, Structural)]
pub struct Timestamp {
    pub seconds: i64,
    pub nanoseconds: u32,
}

/// An entry of a file list could not be read.
#[derive(Clone, Copy, Debug, PartialEq, Eq, Structural)]
pub struct FileListParseError;

impl FileListParseError {
    /// The error in words.
    pub fn to_string(&self) -> (text: String)
        ensures
            text@ == "FileListParseError"@,
    {
        String::from_str("FileListParseError")
    }
}

/// The state that a name stands for, if it is the name of one.
pub open spec fn state_of_name(name: Seq<char>) -> Option<FileState> {
    if name == "OPEN"@ {
        Some(FileState::Open)
    } else if name == "SEALED"@ {
        Some(FileState::Sealed)
    } else {
        None
    }
}

/// The mode that a name stands for, if it is the name of one.
pub open spec fn mode_of_name(name: Seq<char>) -> Option<FileMode> {
    if name == "IMMUTABLE"@ {
        Some(FileMode::Immutable)
    } else if name == "DESTROYABLE"@ {
        Some(FileMode::Destroyable)
    } else {
        None
    }
}

/// A file of an account, as the service lists it.
#[derive(Debug)]
pub struct FileListEntry {
    id: FileId,
    state: FileState,
    mode: FileMode,
    last_updated: Option<Timestamp>,
    name: Option<String>,
}

impl FileListEntry {
    /// The identity of the file.
    pub closed spec fn id(&self) -> FileId {
        self.id
    }

    /// The state of the file.
    pub closed spec fn state(&self) -> FileState {
        self.state
    }

    /// The mode of the file.
    pub closed spec fn mode(&self) -> FileMode {
        self.mode
    }

    /// When the file was last changed, if the service told.
    pub closed spec fn last_updated(&self) -> Option<Timestamp> {
        self.last_updated
    }

    /// The name of the file, if it has one.
    pub closed spec fn name(&self) -> Option<Seq<char>> {
        match self.name {
            Some(name) => Some(name@),
            None => None,
        }
    }

    /// Reads an entry from what the service sent: the state and the mode come as names. Fails
    /// exactly where the state or the mode is no such name.
    pub fn parse(
        id: FileId,
        state: &str,
        mode: &str,
        last_updated: Option<Timestamp>,
        name: Option<String>,
    ) -> (r: Result<FileListEntry, FileListParseError>)
        ensures
            match (state_of_name(state@), mode_of_name(mode@)) {
                (Some(s), Some(m)) => r matches Ok(entry) && entry.id() == id && entry.state() == s
                    && entry.mode() == m && entry.last_updated() == last_updated && entry.name()
                    == (match name {
                    Some(text) => Some(text@),
                    None => None,
                }),
                _ => r is Err,
            },
    {
        let state = if same_text(state, "OPEN") {
            FileState::Open
        } else if same_text(state, "SEALED") {
            FileState::Sealed
        } else {
            return Err(FileListParseError);
        };
        let mode = if same_text(mode, "IMMUTABLE") {
            FileMode::Immutable
        } else if same_text(mode, "DESTROYABLE") {
            FileMode::Destroyable
        } else {
            return Err(FileListParseError);
        };
        Ok(FileListEntry { id, state, mode, last_updated, name })
    }

    /// The identity of the file.
    pub fn get_id(&self) -> (id: FileId)
        ensures
            id == self.id(),
    {
        self.id
    }

    /// The state of the file.
    pub fn get_state(&self) -> (state: FileState)
        ensures
            state == self.state(),
    {
        self.state
    }

    /// The mode of the file.
    pub fn get_mode(&self) -> (mode: FileMode)
        ensures
            mode == self.mode(),
    {
        self.mode
    }

    /// When the file was last changed, if the service told.
    pub fn get_last_updated(&self) -> (last_updated: Option<Timestamp>)
        ensures
            last_updated == self.last_updated(),
    {
        self.last_updated
    }

    /// The name of the file, if it has one.
    pub fn get_name(&self) -> (name: Option<String>)
        ensures
            self.name() == (match name {
                Some(text) => Some(text@),
                None => None,
            }),
    {
        match &self.name {
            Some(name) => Some(name.clone()),
            None => None,
        }
    }
}

/// The balance of an account.
#[derive(Clone, Copy, Debug, PartialEq, Eq, Structural)]
pub struct AccountBalance(pub u64);

impl AccountBalance {
    /// The balance as a number.
    pub fn as_u64(&self) -> (balance: u64)
        ensures
            balance == self.0,
    {
        self.0
    }
}

} // verus!
