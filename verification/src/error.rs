//! What can go wrong between the client and the server.

use vstd::prelude::*;

verus! {

/// The kinds of failure. None of them ends the program: each is reported
/// where it occurs and the session goes on.
#[derive(Debug, Clone, Copy, PartialEq, Eq, Structural)]
pub enum ClientError {
    /// The request could not be sent, or the response could not be read.
    ConnectionError,
    /// A response arrived, but not in the expected shape.
    ProtocolError,
    /// The server answered the login in good form and gave no token.
    WrongCredentials,
    /// An upload, download or delete failed or was refused.
    TransferError,
}

/// The text that tells the user of the error `error`.
pub open spec fn error_text(error: ClientError) -> Seq<char> {
    match error {
        ClientError::ConnectionError => "Server connection error"@,
        ClientError::ProtocolError => "Unexpected server response"@,
        ClientError::WrongCredentials => "Wrong username or password"@,
        ClientError::TransferError => "File transfer error"@,
    }
}

/// No error is told with an empty text.
pub proof fn lemma_error_text_not_empty(error: ClientError)
    ensures
        error_text(error).len() > 0,
{
    reveal_strlit("Server connection error");
    reveal_strlit("Unexpected server response");
    reveal_strlit("Wrong username or password");
    reveal_strlit("File transfer error");
}

impl ClientError {
    /// The text that tells the user of this error; never empty.
    pub fn message(&self) -> (text: String)
        ensures
            text@ == error_text(*self),
            text@.len() > 0,
    {
        proof {
            lemma_error_text_not_empty(*self);
        }
        match self {
            ClientError::ConnectionError => "Server connection error".to_owned(),
            ClientError::ProtocolError => "Unexpected server response".to_owned(),
            ClientError::WrongCredentials => "Wrong username or password".to_owned(),
            ClientError::TransferError => "File transfer error".to_owned(),
        }
    }
}

} // verus!
