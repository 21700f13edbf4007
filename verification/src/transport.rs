//! What the engine asks of its driver and what the driver hands back.
//!
//! The engine never touches the network. It describes each request as a
//! [`Request`]; the driver sends it and reports what came of it as a
//! [`Reply`].

use vstd::prelude::*;

verus! {

/// A local file that the user chose for upload.
#[derive(Debug, Clone, PartialEq, Eq)]
pub struct LocalFile {
    /// Where the file lies.
    pub path: String,
    /// The name under which the server is to store it.
    pub file_name: String,
    /// Its size in bytes.
    pub size: u64,
}

/// The mathematical value of a [`LocalFile`].
pub struct LocalFileView {
    pub path: Seq<char>,
    pub file_name: Seq<char>,
    pub size: u64,
}

impl View for LocalFile {
    type V = LocalFileView;

    open spec fn view(&self) -> LocalFileView {
        LocalFileView { path: self.path@, file_name: self.file_name@, size: self.size }
    }
}

impl DeepView for LocalFile {
    type V = LocalFileView;

    open spec fn deep_view(&self) -> LocalFileView {
        self@
    }
}

/// One request to the server. `authorization` is the value of the
/// `Authorization` header.
#[derive(Debug, Clone, PartialEq, Eq)]
pub enum Request {
    /// `POST url` with the form fields `username` and `password`.
    LogIn { url: String, username: String, password: String },
    /// `GET url`: the list of the remote files.
    ListFiles { url: String, authorization: String },
    /// `POST url` with a multipart body: one part named `field` for each
    /// file, holding the bytes found at `path` under the name `file_name`.
    Upload { url: String, authorization: String, field: String, files: Vec<LocalFile> },
    /// `GET url` with `filename` as a JSON string for body; the response
    /// body is the file, to be stored by the driver.
    Download { url: String, authorization: String, filename: String },
    /// `DELETE url`, which ends in `filename`.
    DeleteFile { url: String, authorization: String, filename: String },
    /// `DELETE url` with `filenames` as a JSON array of strings for body.
    DeleteSelected { url: String, authorization: String, filenames: Vec<String> },
}

/// The mathematical value of a [`Request`].
pub enum RequestView {
    LogIn { url: Seq<char>, username: Seq<char>, password: Seq<char> },
    ListFiles { url: Seq<char>, authorization: Seq<char> },
    Upload {
        url: Seq<char>,
        authorization: Seq<char>,
        field: Seq<char>,
        files: Seq<LocalFileView>,
    },
    Download { url: Seq<char>, authorization: Seq<char>, filename: Seq<char> },
    DeleteFile { url: Seq<char>, authorization: Seq<char>, filename: Seq<char> },
    DeleteSelected { url: Seq<char>, authorization: Seq<char>, filenames: Seq<Seq<char>> },
}

impl View for Request {
    type V = RequestView;

    open spec fn view(&self) -> RequestView {
        match *self {
            Request::LogIn { url, username, password } => RequestView::LogIn {
                url: url@,
                username: username@,
                password: password@,
            },
            Request::ListFiles { url, authorization } => RequestView::ListFiles {
                url: url@,
                authorization: authorization@,
            },
            Request::Upload { url, authorization, field, files } => RequestView::Upload {
                url: url@,
                authorization: authorization@,
                field: field@,
                files: files.deep_view(),
            },
            Request::Download { url, authorization, filename } => RequestView::Download {
                url: url@,
                authorization: authorization@,
                filename: filename@,
            },
            Request::DeleteFile { url, authorization, filename } => RequestView::DeleteFile {
                url: url@,
                authorization: authorization@,
                filename: filename@,
            },
            Request::DeleteSelected { url, authorization, filenames } => {
                RequestView::DeleteSelected {
                    url: url@,
                    authorization: authorization@,
                    filenames: filenames.deep_view(),
                }
            },
        }
    }
}

/// What came of a request.
#[derive(Debug, Clone, PartialEq, Eq)]
pub enum Reply {
    /// The request could not be sent, or the response could not be read to
    /// its end (for a download: or not be stored).
    Failed,
    /// A response arrived. `success` tells whether its status was in the
    /// 200s; `body` is what it carried (left empty for a download, whose
    /// body the driver stores).
    Received { success: bool, body: Vec<u8> },
}

/// The mathematical value of a [`Reply`].
pub enum ReplyView {
    Failed,
    Received { success: bool, body: Seq<u8> },
}

impl View for Reply {
    type V = ReplyView;

    open spec fn view(&self) -> ReplyView {
        match *self {
            Reply::Failed => ReplyView::Failed,
            Reply::Received { success, body } => ReplyView::Received { success, body: body@ },
        }
    }
}

impl ReplyView {
    /// A response arrived with a status in the 200s.
    pub open spec fn succeeded(self) -> bool {
        self matches ReplyView::Received { success, .. } && success
    }
}

/// What the driver is to do next.
#[derive(Debug, Clone, PartialEq, Eq)]
pub enum Action {
    /// Nothing: the intent is dealt with.
    Nothing,
    /// Send the request and hand back the reply.
    Send(Request),
    /// Let the user choose the files to upload and hand back their names
    /// and sizes.
    PickFiles,
}

/// The mathematical value of an [`Action`].
pub enum ActionView {
    Nothing,
    Send(RequestView),
    PickFiles,
}

impl View for Action {
    type V = ActionView;

    open spec fn view(&self) -> ActionView {
        match *self {
            Action::Nothing => ActionView::Nothing,
            Action::Send(request) => ActionView::Send(request@),
            Action::PickFiles => ActionView::PickFiles,
        }
    }
}

impl Reply {
    /// Whether a response arrived with a status in the 200s.
    pub fn succeeded(&self) -> (yes: bool)
        ensures
            yes == self@.succeeded(),
    {
        match self {
            Reply::Failed => false,
            Reply::Received { success, .. } => *success,
        }
    }
}

} // verus!
