//! The dispatcher: one step of the engine for each intent of the user and
//! for each reply of the server.
//!
//! A step changes the state and names what the driver is to do next. The
//! driver runs the loop. For [`Action::Send`] it sends the request and hands
//! the reply to [`handle_reply`]. For [`Action::PickFiles`] it lets the user
//! choose files, has [`crate::transfer::upload_request`] build the request
//! from them, and sends that. It goes on until the action is
//! [`Action::Nothing`] or a step reports an error; no step is retried.

use crate::app::{App, AppView, Message, Page, Theme};
use crate::clock::unix_now;
use crate::error::{error_text, lemma_error_text_not_empty, ClientError};
use crate::inventory::{select_all, set_filter, toggle_check, with_all_checked, with_toggled};
use crate::session::{
    after_login, expired_at, lapsed, log_in_request, log_in_response, log_out, logged_out,
    login_reply_result, login_request,
};
use crate::text::lowercase;
use crate::transfer::{
    after_delete, after_listing, delete_file_request, delete_file_response, delete_of,
    delete_selected, delete_selected_of, download_of, download_request, files_request,
    files_response, list_request, listing, transfer_outcome, transfer_response,
};
use crate::transport::{Action, ActionView, Reply, ReplyView, Request, RequestView};
use vstd::prelude::*;

verus! {

/// The other colour scheme.
pub open spec fn other_theme(theme: Theme) -> Theme {
    if theme == Theme::Light {
        Theme::Dark
    } else {
        Theme::Light
    }
}

/// Whether an intent is one that only an open session can carry out. The
/// others are those of the login form and the change of colour scheme.
pub open spec fn needs_session(message: Message) -> bool {
    !(message is ToggleTheme || message is LoginSubmit || message is LoginFieldChanged)
}

/// The action that sends the request `request`, or none where there is no
/// request.
pub open spec fn send_or_nothing(request: Option<RequestView>) -> ActionView {
    match request {
        Some(request) => ActionView::Send(request),
        None => ActionView::Nothing,
    }
}

/// One intent carried out on the state `pre`: the state after it and what
/// the driver is to do next.
///
/// A login attempt clears the message of the one before. Deleting the
/// marked files with none marked sends nothing and goes on as after a
/// delete that went well: with a fresh listing.
pub open spec fn handled(pre: AppView, message: Message) -> (AppView, ActionView) {
    match message {
        Message::ToggleTheme => (
            AppView { theme: other_theme(pre.theme), ..pre },
            ActionView::Nothing,
        ),
        Message::LoginSubmit => (
            AppView { login_error: None, ..pre },
            ActionView::Send(login_request(pre)),
        ),
        Message::LoginFieldChanged(login, password) => (
            AppView { login: login@, password: password@, ..pre },
            ActionView::Nothing,
        ),
        Message::DeleteFile(index) => (pre, send_or_nothing(delete_of(pre, index as int))),
        Message::ToggleCheck(index) => (
            AppView { packages: with_toggled(pre.packages, index as int), ..pre },
            ActionView::Nothing,
        ),
        Message::SelectAll(checked) => (
            AppView { packages: with_all_checked(pre.packages, checked), ..pre },
            ActionView::Nothing,
        ),
        Message::DeleteSelected => (
            pre,
            ActionView::Send(
                match delete_selected_of(pre) {
                    Some(request) => request,
                    None => list_request(pre),
                },
            ),
        ),
        Message::Refresh => (pre, ActionView::Send(list_request(pre))),
        Message::DownloadFile(filename) => (pre, ActionView::Send(download_of(pre, filename@))),
        Message::UploadFiles => (pre, ActionView::PickFiles),
        Message::SearchFieldChanged(text) => (
            AppView {
                search_text: lowercase(text@),
                packages: with_all_checked(pre.packages, false),
                ..pre
            },
            ActionView::Nothing,
        ),
    }
}

/// One intent, received at the second `now`, put through the guards and
/// then carried out.
///
/// Without a session an intent that needs one is dropped. With a session
/// whose token has lapsed, the session is closed and the intent, whatever
/// it is, is dropped with it. Every other intent is carried out.
pub open spec fn dispatched(pre: AppView, message: Message, now: i64) -> (AppView, ActionView) {
    if pre.page == Page::Login {
        if needs_session(message) {
            (pre, ActionView::Nothing)
        } else {
            handled(pre, message)
        }
    } else if lapsed(pre.token_exp, now) {
        (logged_out(pre), ActionView::Nothing)
    } else {
        handled(pre, message)
    }
}

/// What follows a transfer that came to `outcome`: after a success the
/// action `next`, after a failure the error.
pub open spec fn followed_by(outcome: Result<(), ClientError>, next: ActionView) -> Result<
    ActionView,
    ClientError,
> {
    match outcome {
        Ok(_) => Ok(next),
        Err(error) => Err(error),
    }
}

/// The reply `reply` to the request `request`, seen at the second `now`,
/// taken into the state `pre`: the state after it and what the driver is to
/// do next, or the error to report.
///
/// A login that went well is followed by a listing, and so are an upload
/// and a batch delete that went well. A failed upload, download or delete
/// leaves the state as it is. A failed listing empties the file list.
pub open spec fn replied(pre: AppView, request: RequestView, reply: ReplyView, now: i64) -> (
    AppView,
    Result<ActionView, ClientError>,
) {
    match request {
        RequestView::LogIn { .. } => {
            let post = after_login(pre, login_reply_result(reply, now));
            (
                post,
                match login_reply_result(reply, now) {
                    Ok(_) => Ok(ActionView::Send(list_request(post))),
                    Err(error) => Err(error),
                },
            )
        },
        RequestView::ListFiles { .. } => (
            after_listing(pre, listing(reply)),
            match listing(reply) {
                Ok(_) => Ok(ActionView::Nothing),
                Err(error) => Err(error),
            },
        ),
        RequestView::Upload { .. } => (
            pre,
            followed_by(transfer_outcome(reply), ActionView::Send(list_request(pre))),
        ),
        RequestView::Download { .. } => (
            pre,
            followed_by(transfer_outcome(reply), ActionView::Nothing),
        ),
        RequestView::DeleteFile { filename, .. } => (
            after_delete(pre, filename, reply),
            followed_by(transfer_outcome(reply), ActionView::Nothing),
        ),
        RequestView::DeleteSelected { .. } => (
            pre,
            followed_by(transfer_outcome(reply), ActionView::Send(list_request(pre))),
        ),
    }
}

/// Carries out one intent, whatever the screen and the clock.
pub fn handle_update(app: &mut App, message: Message) -> (action: Action)
    ensures
        (final(app)@, action@) == handled(old(app)@, message),
        old(app)@.wf() ==> final(app)@.wf(),
{
    match message {
        Message::ToggleTheme => {
            app.theme = match app.theme {
                Theme::Light => Theme::Dark,
                Theme::Dark => Theme::Light,
            };
            Action::Nothing
        },
        Message::LoginSubmit => {
            app.login_error = None;
            Action::Send(log_in_request(app))
        },
        Message::LoginFieldChanged(login, password) => {
            app.login_field.login = login;
            app.login_field.password = password;
            Action::Nothing
        },
        Message::DeleteFile(index) => match delete_file_request(app, index) {
            Some(request) => Action::Send(request),
            None => Action::Nothing,
        },
        Message::ToggleCheck(index) => {
            toggle_check(&mut app.packages, index);
            Action::Nothing
        },
        Message::SelectAll(checked) => {
            select_all(&mut app.packages, checked);
            Action::Nothing
        },
        Message::DeleteSelected => match delete_selected(app) {
            Some(request) => Action::Send(request),
            None => Action::Send(files_request(app)),
        },
        Message::Refresh => Action::Send(files_request(app)),
        Message::DownloadFile(filename) => Action::Send(download_request(app, filename)),
        Message::UploadFiles => Action::PickFiles,
        Message::SearchFieldChanged(text) => {
            set_filter(&mut app.packages, &mut app.search_text, text.as_str());
            Action::Nothing
        },
    }
}

/// Whether an intent is one that only an open session can carry out.
pub fn message_needs_session(message: &Message) -> (needed: bool)
    ensures
        needed == needs_session(*message),
{
    match message {
        Message::ToggleTheme => false,
        Message::LoginSubmit => false,
        Message::LoginFieldChanged(_, _) => false,
        _ => true,
    }
}

/// Takes the reply to `request`, seen at the second `now`, into the state
/// and names what is to follow, or the error to report.
pub fn handle_reply_at(app: &mut App, request: &Request, reply: &Reply, now: i64) -> (next: Result<
    Action,
    ClientError,
>)
    ensures
        final(app)@ == replied(old(app)@, request@, reply@, now).0,
        match next {
            Ok(action) => replied(old(app)@, request@, reply@, now).1 == Ok::<
                ActionView,
                ClientError,
            >(action@),
            Err(error) => replied(old(app)@, request@, reply@, now).1 == Err::<
                ActionView,
                ClientError,
            >(error),
        },
        old(app)@.wf() ==> final(app)@.wf(),
{
    match request {
        Request::LogIn { .. } => match log_in_response(app, reply, now) {
            Ok(_) => Ok(Action::Send(files_request(app))),
            Err(error) => Err(error),
        },
        Request::ListFiles { .. } => match files_response(app, reply) {
            Ok(_) => Ok(Action::Nothing),
            Err(error) => Err(error),
        },
        Request::Upload { .. } => match transfer_response(reply) {
            Ok(_) => Ok(Action::Send(files_request(app))),
            Err(error) => Err(error),
        },
        Request::Download { .. } => match transfer_response(reply) {
            Ok(_) => Ok(Action::Nothing),
            Err(error) => Err(error),
        },
        Request::DeleteFile { filename, .. } => match delete_file_response(
            app,
            filename.as_str(),
            reply,
        ) {
            Ok(_) => Ok(Action::Nothing),
            Err(error) => Err(error),
        },
        Request::DeleteSelected { .. } => match transfer_response(reply) {
            Ok(_) => Ok(Action::Send(files_request(app))),
            Err(error) => Err(error),
        },
    }
}

/// Takes the reply to `request` into the state as [`handle_reply_at`] does,
/// at the second that the system clock shows.
pub fn handle_reply(app: &mut App, request: &Request, reply: &Reply) -> (next: Result<
    Action,
    ClientError,
>)
    ensures
        exists|now: i64|
            {
                &&& final(app)@ == (#[trigger] replied(old(app)@, request@, reply@, now)).0
                &&& match next {
                    Ok(action) => replied(old(app)@, request@, reply@, now).1 == Ok::<
                        ActionView,
                        ClientError,
                    >(action@),
                    Err(error) => replied(old(app)@, request@, reply@, now).1 == Err::<
                        ActionView,
                        ClientError,
                    >(error),
                }
            },
        old(app)@.wf() ==> final(app)@.wf(),
{
    let now = unix_now();
    let next = handle_reply_at(app, request, reply, now);
    assert(final(app)@ == replied(old(app)@, request@, reply@, now).0);
    next
}

impl App {
    /// One step of the engine for the intent `message`, received at the
    /// second `now`.
    pub fn update_at(&mut self, message: Message, now: i64) -> (action: Action)
        ensures
            (final(self)@, action@) == dispatched(old(self)@, message, now),
            old(self)@.wf() ==> final(self)@.wf(),
    {
        match self.page {
            Page::Login => {
                if message_needs_session(&message) {
                    Action::Nothing
                } else {
                    handle_update(self, message)
                }
            },
            Page::Main => {
                if expired_at(self.token_exp, now) {
                    log_out(self);
                    Action::Nothing
                } else {
                    handle_update(self, message)
                }
            },
        }
    }

    /// One step of the engine for the intent `message`, received at the
    /// second that the system clock shows.
    pub fn update(&mut self, message: Message) -> (action: Action)
        ensures
            exists|now: i64|
                (final(self)@, action@) == #[trigger] dispatched(old(self)@, message, now),
            old(self)@.wf() ==> final(self)@.wf(),
    {
        let now = unix_now();
        let action = self.update_at(message, now);
        assert((final(self)@, action@) == dispatched(old(self)@, message, now));
        action
    }
}

/// The first intent that arrives after the token has lapsed closes the
/// session, whatever the intent is: the login form shows with empty
/// credentials, the token is gone, nothing is sent, and the file list, the
/// filter and the colour scheme are as before.
pub proof fn lemma_lapsed_session_is_closed(pre: AppView, message: Message, now: i64)
    requires
        pre.page == Page::Main,
        now > pre.token_exp,
    ensures
        dispatched(pre, message, now) == (logged_out(pre), ActionView::Nothing),
        logged_out(pre).page == Page::Login,
        logged_out(pre).login.len() == 0,
        logged_out(pre).password.len() == 0,
        logged_out(pre).token.len() == 0,
        logged_out(pre).packages == pre.packages,
        logged_out(pre).search_text == pre.search_text,
        logged_out(pre).theme == pre.theme,
{
}

/// While the token has not lapsed, every intent is carried out.
pub proof fn lemma_live_session_carries_out(pre: AppView, message: Message, now: i64)
    requires
        pre.page == Page::Main,
        now <= pre.token_exp,
    ensures
        dispatched(pre, message, now) == handled(pre, message),
{
}

/// Without a session, an intent that needs one changes nothing and sends
/// nothing.
pub proof fn lemma_no_session_drops(pre: AppView, message: Message, now: i64)
    requires
        pre.page == Page::Login,
        needs_session(message),
    ensures
        dispatched(pre, message, now) == (pre, ActionView::Nothing),
{
}

/// Without a session nothing but a login request is ever sent.
pub proof fn lemma_no_session_sends_login_only(pre: AppView, message: Message, now: i64)
    requires
        pre.page == Page::Login,
    ensures
        dispatched(pre, message, now).1 matches ActionView::Send(request) ==> message
            is LoginSubmit && request == login_request(pre),
        dispatched(pre, message, now).0.page == Page::Login,
{
}

/// No step gives a state that shows the login form and still holds a token.
pub proof fn lemma_steps_keep_wf(
    pre: AppView,
    message: Message,
    request: RequestView,
    reply: ReplyView,
    now: i64,
)
    requires
        pre.wf(),
    ensures
        dispatched(pre, message, now).0.wf(),
        replied(pre, request, reply, now).0.wf(),
{
}

/// An upload, a download or a delete that did not get a response with a
/// status in the 200s leaves the state as it was and reports a transfer
/// error.
pub proof fn lemma_failed_transfer_changes_nothing(
    pre: AppView,
    request: RequestView,
    reply: ReplyView,
    now: i64,
)
    requires
        !(request is LogIn),
        !(request is ListFiles),
        !reply.succeeded(),
    ensures
        replied(pre, request, reply, now) == (
            pre,
            Err::<ActionView, ClientError>(ClientError::TransferError),
        ),
{
}

/// A listing that failed leaves no row in the file list and touches nothing
/// else; one that went well replaces every row by an unmarked one.
pub proof fn lemma_listing_replaces_all(
    pre: AppView,
    request: RequestView,
    reply: ReplyView,
    now: i64,
)
    requires
        request is ListFiles,
    ensures
        listing(reply) is Err ==> replied(pre, request, reply, now).0 == (AppView {
            packages: Seq::empty(),
            ..pre
        }),
        listing(reply) is Err ==> replied(pre, request, reply, now).1 is Err,
        listing(reply) matches Ok(names) ==> {
            let post = replied(pre, request, reply, now).0;
            &&& post.packages.len() == names.len()
            &&& forall|i: int|
                0 <= i < names.len() ==> (#[trigger] post.packages[i]).filename == names[i]
                    && !post.packages[i].checked
        },
{
}

/// A login that failed opens no session: the screen and the token are as
/// before, nothing is sent, and a message that is not empty is left for the
/// user.
pub proof fn lemma_failed_login_leaves_message(
    pre: AppView,
    request: RequestView,
    reply: ReplyView,
    now: i64,
)
    requires
        request is LogIn,
        login_reply_result(reply, now) is Err,
    ensures
        replied(pre, request, reply, now).1 is Err,
        replied(pre, request, reply, now).0.page == pre.page,
        replied(pre, request, reply, now).0.token == pre.token,
        login_reply_result(reply, now) matches Err(error) && replied(
            pre,
            request,
            reply,
            now,
        ).0.login_error == Some(error_text(error)) && error_text(error).len() > 0,
{
    lemma_error_text_not_empty(login_reply_result(reply, now)->Err_0);
}

} // verus!
