use toydb_client::config::TOYDB;
use toydb_client::context::Message;
use toydb_client::dataview::Dataview;
use toydb_client::dataview::Outcome;

const SELECT_ENVELOPE: &str = r#"{"jsonrpc":"2.0","id":"id","method":"select","params":{"db_name":"people", "table_name": "friends"}}"#;

#[test]
fn placeholder_before_any_submission() {
    let v = Dataview::new();
    assert_eq!(v.displayed(), "No data yet.");
}

#[test]
fn holder_starts_at_placeholder() {
    let m = Message::initial();
    assert_eq!(m.data, "No data yet.");
}

#[test]
fn reduce_replaces_wholesale() {
    let m = Message::initial();
    let m = m.reduce(String::from("first reply"));
    assert_eq!(m.data, "first reply");
    let m = m.reduce(String::from(""));
    assert_eq!(m.data, "");
}

#[test]
fn submit_posts_draft_verbatim_to_fixed_endpoint() {
    let mut v = Dataview::new();
    v.edit(String::from(SELECT_ENVELOPE));
    let req = v.submit().expect("a live client issues a request");
    assert_eq!(req.body, SELECT_ENVELOPE);
    assert_eq!(req.url, "http://localhost:3000/api");
    assert_eq!(req.url, TOYDB);
}

#[test]
fn response_displayed_exactly() {
    let mut v = Dataview::new();
    v.edit(String::from("select 1"));
    v.submit();
    v.complete(Outcome::Response(String::from("  {\"rows\": []} \n")));
    assert_eq!(v.displayed(), "  {\"rows\": []} \n");
}

#[test]
fn editing_never_changes_holder() {
    let mut v = Dataview::new();
    v.edit(String::from("a"));
    v.edit(String::from("ab"));
    v.edit(String::from("abc"));
    assert_eq!(v.displayed(), "No data yet.");
    v.submit();
    v.complete(Outcome::Response(String::from("reply")));
    v.edit(String::from("another draft"));
    assert_eq!(v.displayed(), "reply");
}

#[test]
fn last_arrival_wins() {
    let mut v = Dataview::new();
    v.edit(String::from("query one"));
    let first = v.submit().unwrap();
    v.edit(String::from("query two"));
    let second = v.submit().unwrap();
    assert_eq!(first.body, "query one");
    assert_eq!(second.body, "query two");
    // The replies land in reverse order: the second query's reply first.
    v.complete(Outcome::Response(String::from("reply to query two")));
    v.complete(Outcome::Response(String::from("reply to query one")));
    assert_eq!(v.displayed(), "reply to query one");
}

#[test]
fn failure_halts_client_without_visible_error() {
    let mut v = Dataview::new();
    v.edit(String::from("select 1"));
    v.submit();
    v.complete(Outcome::Response(String::from("fine")));
    v.submit();
    v.complete(Outcome::Failure);
    // No error message is shown: the display keeps its last value.
    assert_eq!(v.displayed(), "fine");
    // From here on the client is totally unresponsive.
    v.edit(String::from("does not matter"));
    assert!(v.submit().is_none());
    v.complete(Outcome::Response(String::from("too late")));
    assert_eq!(v.displayed(), "fine");
}

#[test]
fn empty_draft_submits_empty_body() {
    let mut v = Dataview::new();
    let req = v.submit().unwrap();
    assert_eq!(req.body, "");
}
