//! The listing's JSON coding, exercised through the public surface: the
//! server encodes what it lists, the client decodes what it fetched.

use tuifs::app::App;
use tuifs::server::{FileEntry, Server};

fn test_server() -> Server {
    Server::new("server1", 3333, "/srv/storage".to_string())
}

fn entry(stem: &str, ext: &str) -> FileEntry {
    FileEntry { stem: stem.to_string(), ext: ext.to_string() }
}

#[test]
fn listing_encodes_as_a_json_array_of_strings() {
    let r = test_server().handle_getfiles(&vec![entry("a", "txt"), entry("b", "png")]);
    assert_eq!(r.body, br#"["a.txt","b.png"]"#.to_vec());
}

#[test]
fn empty_listing_encodes_as_an_empty_array() {
    let r = test_server().handle_getfiles(&Vec::new());
    assert_eq!(r.body, b"[]".to_vec());
}

#[test]
fn client_decodes_plain_arrays() {
    let mut app = App::new(None);
    app.apply_listing_response(200, &br#"["x.txt"]"#.to_vec()).unwrap();
    assert_eq!(app.server_files.items, vec!["x.txt".to_string()]);
}

#[test]
fn listing_round_trips_from_server_to_client() {
    let r = test_server().handle_getfiles(&vec![
        entry("report", "txt"),
        entry("b", "png"),
    ]);
    let mut app = App::new(None);
    app.apply_listing_response(r.status, &r.body).unwrap();
    assert_eq!(
        app.server_files.items,
        vec!["report.txt".to_string(), "b.png".to_string()]
    );
    assert_eq!(app.server_files.selected_index(), Some(0));
}

#[test]
fn client_refuses_non_listings() {
    let mut app = App::new(None);
    assert!(app.apply_listing_response(200, &b"".to_vec()).is_err());
    assert!(app.apply_listing_response(200, &b"{}".to_vec()).is_err());
    assert!(app.apply_listing_response(200, &b"[1,2]".to_vec()).is_err());
    assert!(app.apply_listing_response(200, &b"not json".to_vec()).is_err());
    assert!(app.server_files.items.is_empty());
}
