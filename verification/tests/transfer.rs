use fta_client::app::App;
use fta_client::error::ClientError;
use fta_client::inventory::{rows_from, toggle_check, PackageRow};
use fta_client::transfer::{
    authorization, delete_file_request, delete_file_response, delete_selected, download_request,
    files_request, files_response, replace_all, transfer_response, upload_request,
    MAX_UPLOAD_BYTES,
};
use fta_client::transport::{LocalFile, Reply, Request};

const MIB: u64 = 1024 * 1024;

fn session(files: &[&str]) -> App {
    let mut app = App::new("http://files.example".to_string());
    app.token = "tok-1".to_string();
    app.packages = rows_from(files.iter().map(|name| name.to_string()).collect());
    app
}

fn file(name: &str, size: u64) -> LocalFile {
    LocalFile { path: format!("/home/ada/{}", name), file_name: name.to_string(), size }
}

fn received(success: bool, body: &str) -> Reply {
    Reply::Received { success, body: body.as_bytes().to_vec() }
}

fn names(rows: &[PackageRow]) -> Vec<String> {
    rows.iter().map(|row| row.filename.clone()).collect()
}

#[test]
fn upload_limit_is_500_mib() {
    assert_eq!(MAX_UPLOAD_BYTES, 500 * MIB);
    assert_eq!(MAX_UPLOAD_BYTES, 524_288_000);
}

#[test]
fn authorization_is_the_bearer_token() {
    assert_eq!(authorization(&session(&[])), "Bearer tok-1");
    assert_eq!(authorization(&App::new(String::new())), "Bearer ");
}

#[test]
fn files_request_gets_the_list() {
    assert_eq!(
        files_request(&session(&[])),
        Request::ListFiles {
            url: "http://files.example/files/".to_string(),
            authorization: "Bearer tok-1".to_string(),
        }
    );
}

#[test]
fn listing_replaces_the_whole_list() {
    let mut app = session(&["old-1", "old-2", "old-3"]);
    toggle_check(&mut app.packages, 0);
    let reply = received(true, r#"["b.txt", "a.txt"]"#);
    assert_eq!(files_response(&mut app, &reply), Ok(()));
    assert_eq!(names(&app.packages), vec!["b.txt", "a.txt"]);
    assert!(app.packages.iter().all(|row| !row.checked));
    assert_eq!(app.token, "tok-1");
}

#[test]
fn listing_decodes_json_strings() {
    let mut app = session(&[]);
    let reply = received(true, r#"["café \"menu\".pdf","a\\b","😀"]"#);
    assert_eq!(files_response(&mut app, &reply), Ok(()));
    assert_eq!(names(&app.packages), vec!["café \"menu\".pdf", "a\\b", "😀"]);
}

#[test]
fn empty_listing_empties_the_list() {
    let mut app = session(&["old"]);
    assert_eq!(files_response(&mut app, &received(true, "[]")), Ok(()));
    assert!(app.packages.is_empty());
}

#[test]
fn listing_does_not_look_at_the_status() {
    let mut app = session(&["old"]);
    assert_eq!(files_response(&mut app, &received(false, r#"["x"]"#)), Ok(()));
    assert_eq!(names(&app.packages), vec!["x"]);
}

#[test]
fn listing_that_could_not_be_sent_empties_the_list() {
    let mut app = session(&["old-1", "old-2"]);
    assert_eq!(files_response(&mut app, &Reply::Failed), Err(ClientError::ConnectionError));
    assert!(app.packages.is_empty());
}

#[test]
fn listing_of_another_shape_empties_the_list() {
    for body in ["", "{}", r#"["a", 1]"#, r#"["a""#, r#"["a"] x"#, "null", r#"{"files":["a"]}"#] {
        let mut app = session(&["old-1", "old-2"]);
        let reply = received(true, body);
        assert_eq!(files_response(&mut app, &reply), Err(ClientError::ProtocolError));
        assert!(app.packages.is_empty(), "body {:?}", body);
    }
}

#[test]
fn replace_all_takes_a_listing_in_hand() {
    let mut app = session(&["old"]);
    let listing = Ok(vec!["n1".to_string(), "n2".to_string()]);
    assert_eq!(replace_all(&mut app, listing), Ok(()));
    assert_eq!(names(&app.packages), vec!["n1", "n2"]);
    assert_eq!(
        replace_all(&mut app, Err(ClientError::ProtocolError)),
        Err(ClientError::ProtocolError)
    );
    assert!(app.packages.is_empty());
}

#[test]
fn upload_leaves_out_the_oversized_file() {
    let app = session(&[]);
    let chosen = vec![file("huge.iso", 600 * MIB), file("small.zip", 10 * MIB)];
    let request = upload_request(&app, &chosen);
    assert_eq!(
        request,
        Request::Upload {
            url: "http://files.example/files/upload".to_string(),
            authorization: "Bearer tok-1".to_string(),
            field: "files".to_string(),
            files: vec![file("small.zip", 10 * MIB)],
        }
    );
}

#[test]
fn upload_takes_a_file_of_exactly_the_limit() {
    let app = session(&[]);
    let chosen = vec![
        file("at.bin", MAX_UPLOAD_BYTES),
        file("over.bin", MAX_UPLOAD_BYTES + 1),
        file("empty.bin", 0),
        file("max.bin", u64::MAX),
    ];
    match upload_request(&app, &chosen) {
        Request::Upload { files, .. } => {
            assert_eq!(files, vec![file("at.bin", MAX_UPLOAD_BYTES), file("empty.bin", 0)]);
        }
        other => panic!("not an upload: {:?}", other),
    }
}

#[test]
fn upload_keeps_the_order_of_the_files() {
    let app = session(&[]);
    let chosen = vec![file("c", 3), file("a", 1), file("b", 2)];
    match upload_request(&app, &chosen) {
        Request::Upload { files, .. } => assert_eq!(files, chosen),
        other => panic!("not an upload: {:?}", other),
    }
}

#[test]
fn upload_of_nothing_is_still_a_request() {
    let app = session(&[]);
    for chosen in [Vec::new(), vec![file("huge.iso", 600 * MIB)]] {
        match upload_request(&app, &chosen) {
            Request::Upload { files, field, .. } => {
                assert!(files.is_empty());
                assert_eq!(field, "files");
            }
            other => panic!("not an upload: {:?}", other),
        }
    }
}

#[test]
fn download_request_names_the_file() {
    assert_eq!(
        download_request(&session(&[]), "a b.txt".to_string()),
        Request::Download {
            url: "http://files.example/files/".to_string(),
            authorization: "Bearer tok-1".to_string(),
            filename: "a b.txt".to_string(),
        }
    );
}

#[test]
fn delete_request_names_the_file_of_the_row() {
    let app = session(&["a.txt", "b.txt"]);
    assert_eq!(
        delete_file_request(&app, 1),
        Some(Request::DeleteFile {
            url: "http://files.example/files/b.txt".to_string(),
            authorization: "Bearer tok-1".to_string(),
            filename: "b.txt".to_string(),
        })
    );
}

#[test]
fn delete_request_past_the_end_is_none() {
    let app = session(&["a.txt", "b.txt"]);
    assert_eq!(delete_file_request(&app, 2), None);
    assert_eq!(delete_file_request(&app, usize::MAX), None);
    assert_eq!(delete_file_request(&session(&[]), 0), None);
}

#[test]
fn delete_selected_with_no_mark_sends_nothing() {
    assert_eq!(delete_selected(&session(&["a", "b"])), None);
    assert_eq!(delete_selected(&session(&[])), None);
}

#[test]
fn delete_selected_names_the_marked_files() {
    let mut app = session(&["a", "b", "c"]);
    toggle_check(&mut app.packages, 2);
    toggle_check(&mut app.packages, 0);
    assert_eq!(
        delete_selected(&app),
        Some(Request::DeleteSelected {
            url: "http://files.example/files/".to_string(),
            authorization: "Bearer tok-1".to_string(),
            filenames: vec!["a".to_string(), "c".to_string()],
        })
    );
}

#[test]
fn delete_that_went_well_removes_the_row() {
    let mut app = session(&["a", "b", "c"]);
    assert_eq!(delete_file_response(&mut app, "b", &received(true, "")), Ok(()));
    assert_eq!(names(&app.packages), vec!["a", "c"]);
}

#[test]
fn delete_that_failed_keeps_the_list() {
    for reply in [Reply::Failed, received(false, "gone")] {
        let mut app = session(&["a", "b", "c"]);
        let before = app.clone();
        assert_eq!(delete_file_response(&mut app, "b", &reply), Err(ClientError::TransferError));
        assert_eq!(app, before);
    }
}

#[test]
fn two_deletes_remove_both_files() {
    let mut app = session(&["A", "x", "B"]);
    let first = delete_file_request(&app, 0);
    let second = delete_file_request(&app, 2);
    for request in [first, second] {
        match request {
            Some(Request::DeleteFile { filename, .. }) => {
                assert_eq!(delete_file_response(&mut app, &filename, &received(true, "")), Ok(()));
            }
            other => panic!("not a delete: {:?}", other),
        }
    }
    assert_eq!(names(&app.packages), vec!["x"]);
}

#[test]
fn transfer_went_well_only_with_a_good_status() {
    assert_eq!(transfer_response(&received(true, "")), Ok(()));
    assert_eq!(transfer_response(&received(true, "anything")), Ok(()));
    assert_eq!(transfer_response(&received(false, "")), Err(ClientError::TransferError));
    assert_eq!(transfer_response(&Reply::Failed), Err(ClientError::TransferError));
}

#[test]
fn reply_succeeded_reads_the_status() {
    assert!(received(true, "").succeeded());
    assert!(!received(false, "").succeeded());
    assert!(!Reply::Failed.succeeded());
}
