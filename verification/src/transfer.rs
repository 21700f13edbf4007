//! The transfers: listing, upload, download and delete. Each has a function
//! that builds its request and one that takes the reply into the state.

use crate::app::{App, AppView};
use crate::error::ClientError;
use crate::inventory::{
    checked_names, fresh_rows, remove_file, rows_from, selected_filenames, without_file,
};
use crate::json::{decode_string_list, json_string_list};
use crate::sequences::{lemma_filter_members, lemma_filter_take_step};
use crate::text::joined;
use crate::transport::{LocalFile, LocalFileView, Reply, ReplyView, Request, RequestView};
use vstd::prelude::*;

verus! {

/// The largest file that is uploaded: 500 MiB. A larger one is left out of
/// the upload, and the others still go.
pub const MAX_UPLOAD_BYTES: u64 = 524_288_000;

/// The value of the `Authorization` header for the token `token`.
pub open spec fn bearer(token: Seq<char>) -> Seq<char> {
    "Bearer "@ + token
}

/// The request for the list of the remote files.
pub open spec fn list_request(state: AppView) -> RequestView {
    RequestView::ListFiles { url: state.url + "/files/"@, authorization: bearer(state.token) }
}

/// Whether a file is small enough to be uploaded.
pub open spec fn fits_upload(file: LocalFileView) -> bool {
    file.size <= MAX_UPLOAD_BYTES
}

/// The request that uploads those of `files` that are small enough, in
/// their order, each as a part named `files`.
pub open spec fn upload_of(state: AppView, files: Seq<LocalFileView>) -> RequestView {
    RequestView::Upload {
        url: state.url + "/files/upload"@,
        authorization: bearer(state.token),
        field: "files"@,
        files: files.filter(|file: LocalFileView| fits_upload(file)),
    }
}

/// The request that downloads the file `filename`.
pub open spec fn download_of(state: AppView, filename: Seq<char>) -> RequestView {
    RequestView::Download {
        url: state.url + "/files/"@,
        authorization: bearer(state.token),
        filename,
    }
}

/// The request that deletes the file of the row at `index`, if there is
/// such a row.
pub open spec fn delete_of(state: AppView, index: int) -> Option<RequestView> {
    if 0 <= index < state.packages.len() {
        Some(
            RequestView::DeleteFile {
                url: state.url + "/files/"@ + state.packages[index].filename,
                authorization: bearer(state.token),
                filename: state.packages[index].filename,
            },
        )
    } else {
        None
    }
}

/// The request that deletes every marked file, if any is marked.
pub open spec fn delete_selected_of(state: AppView) -> Option<RequestView> {
    if checked_names(state.packages).len() > 0 {
        Some(
            RequestView::DeleteSelected {
                url: state.url + "/files/"@,
                authorization: bearer(state.token),
                filenames: checked_names(state.packages),
            },
        )
    } else {
        None
    }
}

/// The names that the reply to a list request holds. A request that failed
/// is a connection error; a body that is no JSON array of strings is a
/// breach of the protocol. The status is not looked at.
pub open spec fn listing(reply: ReplyView) -> Result<Seq<Seq<char>>, ClientError> {
    match reply {
        ReplyView::Failed => Err(ClientError::ConnectionError),
        ReplyView::Received { success, body } => match json_string_list(body) {
            Some(names) => Ok(names),
            None => Err(ClientError::ProtocolError),
        },
    }
}

/// The names of a listing in hand.
pub open spec fn names_of(listing: Result<Vec<String>, ClientError>) -> Result<
    Seq<Seq<char>>,
    ClientError,
> {
    match listing {
        Ok(names) => Ok(names.deep_view()),
        Err(error) => Err(error),
    }
}

/// The state after a list request came to `listing`: the file list is
/// replaced as a whole by fresh rows for the names, and by no rows at all
/// where the listing failed, so that a stale list never shows as current.
pub open spec fn after_listing(
    pre: AppView,
    listing: Result<Seq<Seq<char>>, ClientError>,
) -> AppView {
    AppView {
        packages: match listing {
            Ok(names) => fresh_rows(names),
            Err(_) => Seq::empty(),
        },
        ..pre
    }
}

/// The state after the request to delete `filename` was answered by
/// `reply`: on success the rows of that name are gone, else nothing changed.
pub open spec fn after_delete(pre: AppView, filename: Seq<char>, reply: ReplyView) -> AppView {
    if reply.succeeded() {
        AppView { packages: without_file(pre.packages, filename), ..pre }
    } else {
        pre
    }
}

/// The outcome of an upload, a download or a delete that was answered by
/// `reply`: it went well exactly when a response with a status in the 200s
/// arrived.
pub open spec fn transfer_outcome(reply: ReplyView) -> Result<(), ClientError> {
    if reply.succeeded() {
        Ok(())
    } else {
        Err(ClientError::TransferError)
    }
}

/// The outcome of a listing without the names.
pub open spec fn listing_outcome(listing: Result<Seq<Seq<char>>, ClientError>) -> Result<
    (),
    ClientError,
> {
    match listing {
        Ok(_) => Ok(()),
        Err(error) => Err(error),
    }
}

/// The value of the `Authorization` header of this session.
pub fn authorization(app: &App) -> (header: String)
    ensures
        header@ == bearer(app@.token),
{
    joined("Bearer ", app.token.as_str())
}

/// The request for the list of the remote files.
pub fn files_request(app: &App) -> (request: Request)
    ensures
        request@ == list_request(app@),
{
    Request::ListFiles {
        url: joined(app.server.url.as_str(), "/files/"),
        authorization: authorization(app),
    }
}

/// Replaces the file list as a whole by the listing in hand: fresh rows for
/// its names, or no rows where it failed.
pub fn replace_all(app: &mut App, listing: Result<Vec<String>, ClientError>) -> (outcome: Result<
    (),
    ClientError,
>)
    ensures
        final(app)@ == after_listing(old(app)@, names_of(listing)),
        outcome == listing_outcome(names_of(listing)),
        old(app)@.wf() ==> final(app)@.wf(),
{
    match listing {
        Ok(names) => {
            app.packages = rows_from(names);
            Ok(())
        },
        Err(error) => {
            app.packages = Vec::new();
            assert(app.packages.deep_view() =~= Seq::empty());
            Err(error)
        },
    }
}

/// Takes the reply to a list request into the state.
pub fn files_response(app: &mut App, reply: &Reply) -> (outcome: Result<(), ClientError>)
    ensures
        final(app)@ == after_listing(old(app)@, listing(reply@)),
        outcome == listing_outcome(listing(reply@)),
        old(app)@.wf() ==> final(app)@.wf(),
{
    let names = match reply {
        Reply::Failed => Err(ClientError::ConnectionError),
        Reply::Received { body, .. } => match decode_string_list(body.as_slice()) {
            Ok(names) => Ok(names),
            Err(_) => Err(ClientError::ProtocolError),
        },
    };
    replace_all(app, names)
}

/// The request that uploads the chosen `files`. A file of more than
/// [`MAX_UPLOAD_BYTES`] is left out; the others go, in their order, also
/// where none is left.
pub fn upload_request(app: &App, files: &Vec<LocalFile>) -> (request: Request)
    ensures
        request@ == upload_of(app@, files.deep_view()),
{
    let ghost chosen = files.deep_view();
    let ghost fits = |file: LocalFileView| fits_upload(file);
    let mut kept: Vec<LocalFile> = Vec::new();
    let mut i: usize = 0;
    while i < files.len()
        invariant
            i <= files.len(),
            chosen == files.deep_view(),
            fits == |file: LocalFileView| fits_upload(file),
            kept.deep_view() == chosen.take(i as int).filter(fits),
        decreases files.len() - i,
    {
        proof {
            lemma_filter_take_step(chosen, fits, i as int);
        }
        let ghost before = kept.deep_view();
        assert(chosen[i as int] == files@[i as int]@);
        if files[i].size <= MAX_UPLOAD_BYTES {
            kept.push(
                LocalFile {
                    path: files[i].path.clone(),
                    file_name: files[i].file_name.clone(),
                    size: files[i].size,
                },
            );
            assert(kept.deep_view() =~= before.push(chosen[i as int]));
        }
        i = i + 1;
    }
    assert(chosen.take(i as int) =~= chosen);
    Request::Upload {
        url: joined(app.server.url.as_str(), "/files/upload"),
        authorization: authorization(app),
        field: "files".to_owned(),
        files: kept,
    }
}

/// The request that downloads the file `filename`.
pub fn download_request(app: &App, filename: String) -> (request: Request)
    ensures
        request@ == download_of(app@, filename@),
{
    Request::Download {
        url: joined(app.server.url.as_str(), "/files/"),
        authorization: authorization(app),
        filename,
    }
}

/// The request that deletes the file of the row at `index`; `None` where
/// there is no such row.
pub fn delete_file_request(app: &App, index: usize) -> (request: Option<Request>)
    ensures
        match request {
            Some(request) => delete_of(app@, index as int) == Some(request@),
            None => delete_of(app@, index as int) is None,
        },
{
    if index < app.packages.len() {
        let filename = app.packages[index].filename.clone();
        let url = joined(joined(app.server.url.as_str(), "/files/").as_str(), filename.as_str());
        Some(Request::DeleteFile { url, authorization: authorization(app), filename })
    } else {
        None
    }
}

/// The request that deletes every marked file; `None` where no file is
/// marked, and nothing is then to be sent.
pub fn delete_selected(app: &App) -> (request: Option<Request>)
    ensures
        match request {
            Some(request) => delete_selected_of(app@) == Some(request@),
            None => delete_selected_of(app@) is None,
        },
{
    let filenames = selected_filenames(&app.packages);
    if filenames.len() > 0 {
        Some(
            Request::DeleteSelected {
                url: joined(app.server.url.as_str(), "/files/"),
                authorization: authorization(app),
                filenames,
            },
        )
    } else {
        None
    }
}

/// Takes the reply to the request to delete `filename` into the state: on
/// success the rows of that name leave the list, whatever their position by
/// now; on failure the list stays as it is.
pub fn delete_file_response(app: &mut App, filename: &str, reply: &Reply) -> (outcome: Result<
    (),
    ClientError,
>)
    ensures
        final(app)@ == after_delete(old(app)@, filename@, reply@),
        outcome == transfer_outcome(reply@),
        old(app)@.wf() ==> final(app)@.wf(),
{
    if reply.succeeded() {
        remove_file(&mut app.packages, filename);
        Ok(())
    } else {
        Err(ClientError::TransferError)
    }
}

/// The outcome of an upload, a download or a batch delete that was answered
/// by `reply`. The state is not touched: after a success the file list is
/// fetched anew.
pub fn transfer_response(reply: &Reply) -> (outcome: Result<(), ClientError>)
    ensures
        outcome == transfer_outcome(reply@),
{
    if reply.succeeded() {
        Ok(())
    } else {
        Err(ClientError::TransferError)
    }
}

/// The parts of an upload are chosen files that fit, and every chosen file
/// that fits is a part: an oversized file is left out and costs the others
/// nothing.
pub proof fn lemma_upload_parts(state: AppView, files: Seq<LocalFileView>)
    ensures
        upload_of(state, files) matches RequestView::Upload { files: parts, .. } && {
            &&& parts.len() <= files.len()
            &&& forall|k: int|
                0 <= k < parts.len() ==> fits_upload(#[trigger] parts[k]) && files.contains(
                    parts[k],
                )
            &&& forall|k: int|
                0 <= k < files.len() && fits_upload(files[k]) ==> parts.contains(
                    #[trigger] files[k],
                )
            &&& forall|k: int|
                0 <= k < files.len() && !fits_upload(files[k]) ==> !parts.contains(
                    #[trigger] files[k],
                )
        },
{
    let fits = |file: LocalFileView| fits_upload(file);
    let parts = files.filter(fits);
    lemma_filter_members(files, fits);
    files.lemma_filter_len(fits);
    assert forall|k: int| 0 <= k < files.len() && !fits_upload(files[k]) implies !parts.contains(
        #[trigger] files[k],
    ) by {
        if parts.contains(files[k]) {
            let at = choose|j: int| 0 <= j < parts.len() && parts[j] == files[k];
            assert(fits(parts[at]));
        }
    }
}

} // verus!
