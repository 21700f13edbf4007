use fta_client::app::{App, LoginField, Page};
use fta_client::error::ClientError;
use fta_client::session::{
    clear_login_field, expired_at, finish_login, is_token_expired, log_in_request,
    log_in_response, log_out,
};
use fta_client::transport::{Reply, Request};

const T: i64 = 1_700_000_000;

fn client() -> App {
    let mut app = App::new("http://files.example".to_string());
    app.login_field.login = "ada".to_string();
    app.login_field.password = "s3cret".to_string();
    app
}

fn received(success: bool, body: &str) -> Reply {
    Reply::Received { success, body: body.as_bytes().to_vec() }
}

#[test]
fn new_app_is_logged_out_and_empty() {
    let app = App::new("http://files.example".to_string());
    assert_eq!(app.page, Page::Login);
    assert_eq!(app.token, "");
    assert_eq!(app.token_exp, 0);
    assert_eq!(app.login_error, None);
    assert_eq!(app.login_field.login, "");
    assert_eq!(app.login_field.password, "");
    assert!(app.packages.is_empty());
    assert_eq!(app.search_text, "");
    assert_eq!(app.server.url, "http://files.example");
}

#[test]
fn title_is_fixed() {
    assert_eq!(client().title(), "FTA");
}

#[test]
fn login_request_posts_the_typed_credentials() {
    let request = log_in_request(&client());
    assert_eq!(
        request,
        Request::LogIn {
            url: "http://files.example/login".to_string(),
            username: "ada".to_string(),
            password: "s3cret".to_string(),
        }
    );
}

#[test]
fn login_with_token_and_lifetime_opens_the_session() {
    let mut app = client();
    let reply = received(true, r#"{"token":"abc","jwt_exp_seconds":"3600"}"#);
    assert_eq!(log_in_response(&mut app, &reply, T), Ok(()));
    assert_eq!(app.page, Page::Main);
    assert_eq!(app.token, "abc");
    assert_eq!(app.token_exp, T + 3600);
    assert_eq!(app.login_error, None);
}

#[test]
fn login_without_token_is_wrong_credentials() {
    let mut app = client();
    let reply = received(true, r#"{"error":"bad"}"#);
    assert_eq!(log_in_response(&mut app, &reply, T), Err(ClientError::WrongCredentials));
    assert_eq!(app.page, Page::Login);
    assert_eq!(app.token, "");
    assert_eq!(app.login_error, Some("Wrong username or password".to_string()));
}

#[test]
fn login_without_lifetime_never_lapses() {
    let mut app = client();
    let reply = received(true, r#"{"token":"abc"}"#);
    assert_eq!(log_in_response(&mut app, &reply, T), Ok(()));
    assert_eq!(app.page, Page::Main);
    assert_eq!(app.token, "abc");
    assert_eq!(app.token_exp, i64::MAX);
    assert!(!expired_at(app.token_exp, i64::MAX));
}

#[test]
fn login_refused_by_status_is_wrong_credentials() {
    let mut app = client();
    let reply = received(false, r#"{"token":"abc","jwt_exp_seconds":"3600"}"#);
    assert_eq!(log_in_response(&mut app, &reply, T), Err(ClientError::WrongCredentials));
    assert_eq!(app.page, Page::Login);
    assert_eq!(app.token, "");
}

#[test]
fn login_that_could_not_be_sent_is_a_connection_error() {
    let mut app = client();
    assert_eq!(log_in_response(&mut app, &Reply::Failed, T), Err(ClientError::ConnectionError));
    assert_eq!(app.page, Page::Login);
    assert_eq!(app.login_error, Some("Server connection error".to_string()));
}

#[test]
fn login_with_unreadable_body_is_a_connection_error() {
    for body in ["", "<html>502</html>", "[\"token\"]", r#"{"token":"abc""#, "\"abc\""] {
        let mut app = client();
        let reply = received(true, body);
        assert_eq!(log_in_response(&mut app, &reply, T), Err(ClientError::ConnectionError));
        assert_eq!(app.page, Page::Login);
        assert_eq!(app.login_error, Some("Server connection error".to_string()));
    }
}

#[test]
fn login_with_a_member_that_is_no_string_is_a_connection_error() {
    let mut app = client();
    let reply = received(true, r#"{"token":"abc","jwt_exp_seconds":3600}"#);
    assert_eq!(log_in_response(&mut app, &reply, T), Err(ClientError::ConnectionError));
    assert_eq!(app.page, Page::Login);
}

#[test]
fn login_with_invalid_utf8_is_a_connection_error() {
    let mut app = client();
    let reply = Reply::Received { success: true, body: vec![b'{', 0xff, b'}'] };
    assert_eq!(log_in_response(&mut app, &reply, T), Err(ClientError::ConnectionError));
}

#[test]
fn login_reads_other_members_past() {
    let mut app = client();
    let reply = received(true, r#" { "user":"ada", "jwt_exp_seconds":"60", "token":"t-1" } "#);
    assert_eq!(log_in_response(&mut app, &reply, 100), Ok(()));
    assert_eq!(app.token, "t-1");
    assert_eq!(app.token_exp, 160);
}

#[test]
fn login_clears_an_earlier_message() {
    let mut app = client();
    assert!(log_in_response(&mut app, &Reply::Failed, T).is_err());
    assert!(app.login_error.is_some());
    let reply = received(true, r#"{"token":"abc"}"#);
    assert_eq!(log_in_response(&mut app, &reply, T), Ok(()));
    assert_eq!(app.login_error, None);
}

#[test]
fn lifetime_that_is_no_number_is_a_protocol_error() {
    for text in ["soon", "", "12h", " 60", "60 ", "1_000", "+", "-", "3.5", "0x10", "٣"] {
        let mut app = client();
        let outcome =
            finish_login(&mut app, true, Some("abc".to_string()), Some(text.to_string()), T);
        assert_eq!(outcome, Err(ClientError::ProtocolError), "lifetime {:?}", text);
        assert_eq!(app.page, Page::Login);
        assert_eq!(app.token, "");
        assert_eq!(app.token_exp, 0);
        assert_eq!(app.login_error, Some("Unexpected server response".to_string()));
    }
}

#[test]
fn lifetime_may_carry_a_sign_and_leading_zeros() {
    for (text, seconds) in [("+60", 60), ("-60", -60), ("0060", 60), ("0", 0), ("-0", 0)] {
        let mut app = client();
        let outcome =
            finish_login(&mut app, true, Some("abc".to_string()), Some(text.to_string()), T);
        assert_eq!(outcome, Ok(()));
        assert_eq!(app.token_exp, T + seconds);
    }
}

#[test]
fn lifetime_at_the_limits_of_64_bits() {
    let mut app = client();
    let text = "9223372036854775807".to_string();
    assert_eq!(finish_login(&mut app, true, Some("abc".to_string()), Some(text), 0), Ok(()));
    assert_eq!(app.token_exp, i64::MAX);

    let mut app = client();
    let text = "-9223372036854775808".to_string();
    assert_eq!(finish_login(&mut app, true, Some("abc".to_string()), Some(text), 0), Ok(()));
    assert_eq!(app.token_exp, i64::MIN);

    let mut app = client();
    let text = "9223372036854775808".to_string();
    assert_eq!(
        finish_login(&mut app, true, Some("abc".to_string()), Some(text), 0),
        Err(ClientError::ProtocolError)
    );
}

#[test]
fn lifetime_that_leads_past_the_last_second_is_a_protocol_error() {
    let mut app = client();
    let outcome = finish_login(
        &mut app,
        true,
        Some("abc".to_string()),
        Some("3600".to_string()),
        i64::MAX - 3599,
    );
    assert_eq!(outcome, Err(ClientError::ProtocolError));
    assert_eq!(app.page, Page::Login);

    let mut app = client();
    let outcome = finish_login(
        &mut app,
        true,
        Some("abc".to_string()),
        Some("3600".to_string()),
        i64::MAX - 3600,
    );
    assert_eq!(outcome, Ok(()));
    assert_eq!(app.token_exp, i64::MAX);
}

#[test]
fn missing_token_wins_over_a_bad_lifetime() {
    let mut app = client();
    let outcome = finish_login(&mut app, true, None, Some("soon".to_string()), T);
    assert_eq!(outcome, Err(ClientError::WrongCredentials));
}

#[test]
fn empty_token_still_opens_the_session() {
    let mut app = client();
    assert_eq!(finish_login(&mut app, true, Some(String::new()), None, T), Ok(()));
    assert_eq!(app.page, Page::Main);
    assert_eq!(app.token, "");
}

#[test]
fn failed_login_keeps_an_open_session() {
    let mut app = client();
    assert_eq!(finish_login(&mut app, true, Some("abc".to_string()), None, T), Ok(()));
    assert_eq!(finish_login(&mut app, false, None, None, T), Err(ClientError::WrongCredentials));
    assert_eq!(app.page, Page::Main);
    assert_eq!(app.token, "abc");
    assert_eq!(app.token_exp, i64::MAX);
}

#[test]
fn expired_exactly_when_now_is_later() {
    assert!(expired_at(10, 11));
    assert!(!expired_at(10, 10));
    assert!(!expired_at(10, 9));
    assert!(expired_at(i64::MIN, 0));
    assert!(!expired_at(i64::MAX, i64::MAX));
    assert!(expired_at(-1, 0));
}

#[test]
fn clock_says_an_old_token_has_lapsed() {
    assert!(is_token_expired(i64::MIN));
    assert!(is_token_expired(0));
    assert!(!is_token_expired(i64::MAX));
}

#[test]
fn clear_login_field_empties_both_fields() {
    let mut field = LoginField { login: "ada".to_string(), password: "s3cret".to_string() };
    clear_login_field(&mut field);
    assert_eq!(field.login, "");
    assert_eq!(field.password, "");
}

#[test]
fn log_out_returns_to_the_empty_login_form() {
    let mut app = client();
    assert_eq!(finish_login(&mut app, true, Some("abc".to_string()), None, T), Ok(()));
    app.search_text = "rep".to_string();
    log_out(&mut app);
    assert_eq!(app.page, Page::Login);
    assert_eq!(app.token, "");
    assert_eq!(app.login_field.login, "");
    assert_eq!(app.login_field.password, "");
    assert_eq!(app.login_error, Some("JWT expired, log in again".to_string()));
    assert_eq!(app.search_text, "rep");
}

#[test]
fn error_messages_are_not_empty() {
    let all = [
        (ClientError::ConnectionError, "Server connection error"),
        (ClientError::ProtocolError, "Unexpected server response"),
        (ClientError::WrongCredentials, "Wrong username or password"),
        (ClientError::TransferError, "File transfer error"),
    ];
    for (error, text) in all {
        assert_eq!(error.message(), text);
        assert!(!error.message().is_empty());
    }
}
