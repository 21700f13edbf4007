//! The state of the client and the intents that the user interface sends.

use crate::inventory::{PackageRow, RowView};
use vstd::prelude::*;

verus! {

/// Which screen the client shows, and with it whether a session is open.
#[derive(Debug, Clone, Copy, PartialEq, Eq, Structural)]
pub enum Page {
    /// No session: the login form.
    Login,
    /// A session is open: the file list.
    Main,
}

/// The colour scheme of the interface.
#[derive(Debug, Clone, Copy, PartialEq, Eq, Structural)]
pub enum Theme {
    Light,
    Dark,
}

/// The credentials as typed into the login form.
#[derive(Debug, Clone, PartialEq, Eq)]
pub struct LoginField {
    pub login: String,
    pub password: String,
}

/// Where the server is.
#[derive(Debug, Clone, PartialEq, Eq)]
pub struct Server {
    /// The base address, without a trailing slash.
    pub url: String,
}

/// An intent of the user.
#[derive(Debug, Clone, PartialEq, Eq)]
pub enum Message {
    /// Switch between the light and the dark scheme.
    ToggleTheme,
    /// Log in with the credentials typed so far.
    LoginSubmit,
    /// The login form now holds this login and this password.
    LoginFieldChanged(String, String),
    /// Delete the file of the row at this position.
    DeleteFile(usize),
    /// Flip the mark of the row at this position.
    ToggleCheck(usize),
    /// Set every mark to this value.
    SelectAll(bool),
    /// Delete every marked file.
    DeleteSelected,
    /// Fetch the file list again.
    Refresh,
    /// Download the file of this name.
    DownloadFile(String),
    /// Upload files that the user is yet to choose.
    UploadFiles,
    /// The search field now holds this text.
    SearchFieldChanged(String),
}

/// Everything the client knows.
#[derive(Debug, Clone, PartialEq, Eq)]
pub struct App {
    pub theme: Theme,
    pub page: Page,
    pub login_field: LoginField,
    /// The bearer token of the session; empty while there is none.
    pub token: String,
    /// The second, counted from the start of 1970, after which the token no
    /// longer counts; `i64::MAX` for a token that never lapses.
    pub token_exp: i64,
    /// What to tell the user on the login form, if anything.
    pub login_error: Option<String>,
    /// The mirror of the remote file list, in the order the server gave.
    pub packages: Vec<PackageRow>,
    pub server: Server,
    /// The search filter, lower-cased; empty for no filter.
    pub search_text: String,
}

/// The mathematical value of an [`App`].
pub struct AppView {
    pub theme: Theme,
    pub page: Page,
    pub login: Seq<char>,
    pub password: Seq<char>,
    pub token: Seq<char>,
    pub token_exp: i64,
    pub login_error: Option<Seq<char>>,
    pub packages: Seq<RowView>,
    pub url: Seq<char>,
    pub search_text: Seq<char>,
}

/// The text of an optional string.
pub open spec fn text_of(value: Option<String>) -> Option<Seq<char>> {
    match value {
        Some(text) => Some(text@),
        None => None,
    }
}

impl View for App {
    type V = AppView;

    open spec fn view(&self) -> AppView {
        AppView {
            theme: self.theme,
            page: self.page,
            login: self.login_field.login@,
            password: self.login_field.password@,
            token: self.token@,
            token_exp: self.token_exp,
            login_error: text_of(self.login_error),
            packages: self.packages.deep_view(),
            url: self.server.url@,
            search_text: self.search_text@,
        }
    }
}

/// The state at start: the login form, empty credentials, no token, an
/// empty file list, no filter, the dark scheme.
pub open spec fn initial_state(url: Seq<char>) -> AppView {
    AppView {
        theme: Theme::Dark,
        page: Page::Login,
        login: Seq::empty(),
        password: Seq::empty(),
        token: Seq::empty(),
        token_exp: 0,
        login_error: None,
        packages: Seq::empty(),
        url,
        search_text: Seq::empty(),
    }
}

impl AppView {
    /// While no session is open there is no token.
    pub open spec fn wf(self) -> bool {
        self.page == Page::Login ==> self.token.len() == 0
    }
}

impl App {
    /// A client for the server at `url`, not logged in.
    pub fn new(url: String) -> (app: App)
        ensures
            app@ == initial_state(url@),
            app@.wf(),
    {
        let app = App {
            theme: Theme::Dark,
            page: Page::Login,
            login_field: LoginField { login: String::new(), password: String::new() },
            token: String::new(),
            token_exp: 0,
            login_error: None,
            packages: Vec::new(),
            server: Server { url },
            search_text: String::new(),
        };
        assert(app.packages.deep_view() =~= Seq::empty());
        app
    }

    /// The title of the window.
    pub fn title(&self) -> (title: String)
        ensures
            title@ == "FTA"@,
    {
        "FTA".to_owned()
    }
}

} // verus!
