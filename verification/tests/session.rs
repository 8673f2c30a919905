use ldap_client::entry::ResultEntry;
use ldap_client::error::{ClientError, ErrorKind};
use ldap_client::request::{plan, Command, ConnectionParameters, SearchRequest};
use ldap_client::scope::Scope;
use ldap_client::session::{after_rendering, Action, Event, Reply, Session, Stage, Step};

fn strings(items: &[&str]) -> Vec<String> {
    items.iter().map(|s| s.to_string()).collect()
}

fn params() -> ConnectionParameters {
    ConnectionParameters {
        url: "ldap://localhost:389".to_string(),
        bind_dn: "cn=admin,dc=example,dc=com".to_string(),
        password: "secret".to_string(),
        base_dn: "dc=example,dc=com".to_string(),
    }
}

fn reply(rc: u32) -> Reply {
    Reply { rc, matched: String::new(), text: String::new() }
}

fn users(output: &str) -> Session {
    let job = plan(&Command::Users { output: output.to_string() }, &params()).unwrap();
    Session::new(params(), job)
}

fn check() -> Session {
    Session::new(params(), plan(&Command::Test, &params()).unwrap())
}

fn john() -> ResultEntry {
    ResultEntry::normalize(
        "cn=john,dc=example,dc=com",
        &vec![("cn".to_string(), strings(&["john"]))],
    )
}

fn bound(session: &mut Session) {
    session.step(Event::Begin);
    session.step(Event::Completed);
    let step = session.step(Event::Bound(reply(0)));
    assert!(matches!(step.action, Action::Search(_)));
    assert_eq!(session.stage(), Stage::Searching);
}

fn stopped(step: &Step) -> ClientError {
    match &step.action {
        Action::Stop(Some(e)) => e.clone(),
        other => panic!("not stopped with an error: {:?}", other),
    }
}

#[test]
fn a_listing_runs_from_connect_to_unbind() {
    let mut session = users("table");
    assert_eq!(session.stage(), Stage::Ready);

    let step = session.step(Event::Begin);
    assert_eq!(step.output, strings(&[]));
    assert_eq!(step.action, Action::Connect { url: "ldap://localhost:389".to_string() });
    assert_eq!(session.stage(), Stage::Connecting);

    let step = session.step(Event::Completed);
    assert_eq!(step.output, strings(&[]));
    assert_eq!(
        step.action,
        Action::Bind { dn: "cn=admin,dc=example,dc=com".to_string(), password: "secret".to_string() }
    );
    assert_eq!(session.stage(), Stage::Binding);

    let step = session.step(Event::Bound(reply(0)));
    assert_eq!(
        step.output,
        strings(&[
            "✓ Successfully connected and authenticated to LDAP server",
            "Searching with filter: (objectClass=inetOrgPerson)",
            "Base DN: dc=example,dc=com",
            "Scope: sub",
            "Attributes: [\"cn\", \"sn\", \"givenName\", \"mail\", \"uid\"]",
            "",
        ])
    );
    assert_eq!(
        step.action,
        Action::Search(SearchRequest {
            base_dn: "dc=example,dc=com".to_string(),
            scope: Scope::Subtree,
            filter: "(objectClass=inetOrgPerson)".to_string(),
            attributes: strings(&["cn", "sn", "givenName", "mail", "uid"]),
        })
    );
    assert_eq!(session.stage(), Stage::Searching);

    let step = session.step(Event::Found(reply(0), vec![john()]));
    assert_eq!(
        step.output,
        vec![format!(
            "Found 1 entries:\n{}\nEntry #1: cn=john,dc=example,dc=com\n{}\n  cn: john\n",
            "=".repeat(80),
            "-".repeat(40)
        )]
    );
    assert_eq!(step.action, Action::Unbind);
    assert_eq!(session.stage(), Stage::Closing);

    let step = session.step(Event::Completed);
    assert_eq!(step, Step { output: vec![], action: Action::Stop(None) });
    assert_eq!(session.stage(), Stage::Done);
}

#[test]
fn a_listing_as_json_prints_the_document() {
    let mut session = users("json");
    bound(&mut session);
    let step = session.step(Event::Found(reply(0), vec![john()]));
    assert_eq!(
        step.output,
        strings(&[
            "[\n  {\n    \"dn\": \"cn=john,dc=example,dc=com\",\n    \"attributes\": {\n      \"cn\": [\n        \"john\"\n      ]\n    }\n  }\n]"
        ])
    );
    assert_eq!(step.action, Action::Unbind);
}

#[test]
fn a_connection_that_fails_stops_the_session() {
    let mut session = users("table");
    session.step(Event::Begin);
    let step = session.step(Event::Broken("I/O error: connection refused".to_string()));
    assert_eq!(step.output, strings(&[]));
    assert_eq!(
        stopped(&step),
        ClientError {
            kind: ErrorKind::ConnectFailed,
            context: "Failed to connect to LDAP server".to_string(),
            cause: Some("I/O error: connection refused".to_string()),
        }
    );
    assert_eq!(session.stage(), Stage::Done);
}

#[test]
fn a_rejected_bind_never_reaches_the_search() {
    let mut session = users("table");
    session.step(Event::Begin);
    session.step(Event::Completed);
    let step = session.step(Event::Bound(Reply {
        rc: 49,
        matched: "dc=example".to_string(),
        text: "bad password".to_string(),
    }));
    assert_eq!(step.output, strings(&[]));
    assert_eq!(
        stopped(&step),
        ClientError {
            kind: ErrorKind::BindFailed,
            context: "LDAP bind failed".to_string(),
            cause: Some(
                "LDAP operation result: rc=49 (invalidCredentials), dn: \"dc=example\", text: \"bad password\""
                    .to_string()
            ),
        }
    );
    assert_eq!(session.stage(), Stage::Done);
    for event in [
        Event::Begin,
        Event::Completed,
        Event::Bound(reply(0)),
        Event::Found(reply(0), vec![john()]),
        Event::Broken("x".to_string()),
    ] {
        let step = session.step(event);
        assert_eq!(stopped(&step).kind, ErrorKind::Unexpected);
        assert_eq!(session.stage(), Stage::Done);
    }
}

#[test]
fn a_referral_is_not_a_successful_bind() {
    let mut session = users("table");
    session.step(Event::Begin);
    session.step(Event::Completed);
    let step = session.step(Event::Bound(reply(10)));
    assert_eq!(stopped(&step).kind, ErrorKind::BindFailed);
}

#[test]
fn a_broken_bind_stops_the_session() {
    let mut session = users("table");
    session.step(Event::Begin);
    session.step(Event::Completed);
    let step = session.step(Event::Broken("timeout".to_string()));
    assert_eq!(
        stopped(&step),
        ClientError {
            kind: ErrorKind::BindFailed,
            context: "Failed to bind to LDAP server".to_string(),
            cause: Some("timeout".to_string()),
        }
    );
}

#[test]
fn a_failed_search_is_reported_at_both_levels() {
    let mut session = users("table");
    bound(&mut session);
    let step = session.step(Event::Broken("result recv error".to_string()));
    assert_eq!(
        stopped(&step),
        ClientError {
            kind: ErrorKind::SearchFailed,
            context: "LDAP search failed".to_string(),
            cause: Some("result recv error".to_string()),
        }
    );

    let mut session = users("table");
    bound(&mut session);
    let step = session.step(Event::Found(reply(32), vec![]));
    assert_eq!(
        stopped(&step),
        ClientError {
            kind: ErrorKind::SearchFailed,
            context: "LDAP search operation failed".to_string(),
            cause: Some(
                "LDAP operation result: rc=32 (noSuchObject), dn: \"\", text: \"\"".to_string()
            ),
        }
    );
    assert_eq!(step.output, strings(&[]));
}

#[test]
fn no_entries_are_reported_and_the_session_is_closed() {
    for output in ["table", "json", "xml"] {
        let mut session = users(output);
        bound(&mut session);
        let step = session.step(Event::Found(reply(0), vec![]));
        assert_eq!(
            step,
            Step { output: strings(&["No entries found."]), action: Action::Unbind }
        );
        assert_eq!(session.stage(), Stage::Closing);
        let step = session.step(Event::Completed);
        assert_eq!(step, Step { output: vec![], action: Action::Stop(None) });
        assert_eq!(session.stage(), Stage::Done);
    }
}

#[test]
fn a_listing_that_finds_nothing_unbinds_once_after_the_search() {
    let job = plan(&Command::Groups { output: "table".to_string() }, &params()).unwrap();
    let mut session = Session::new(params(), job);
    let events = vec![
        Event::Begin,
        Event::Completed,
        Event::Bound(reply(0)),
        Event::Found(reply(0), vec![]),
        Event::Completed,
    ];
    let mut printed: Vec<String> = Vec::new();
    let mut actions: Vec<Action> = Vec::new();
    for event in events {
        let step = session.step(event);
        printed.extend(step.output);
        actions.push(step.action);
    }
    assert_eq!(printed.last().unwrap(), "No entries found.");
    assert_eq!(printed.iter().filter(|line| *line == "No entries found.").count(), 1);
    assert!(matches!(actions[0], Action::Connect { .. }));
    assert!(matches!(actions[1], Action::Bind { .. }));
    assert!(matches!(actions[2], Action::Search(_)));
    assert_eq!(actions[3], Action::Unbind);
    assert_eq!(actions[4], Action::Stop(None));
    assert_eq!(actions.iter().filter(|a| **a == Action::Unbind).count(), 1);
    assert_eq!(session.stage(), Stage::Done);
}

#[test]
fn a_failed_unbind_after_nothing_was_found_is_reported() {
    let mut session = users("table");
    bound(&mut session);
    let step = session.step(Event::Found(reply(0), vec![]));
    assert_eq!(step.output, strings(&["No entries found."]));
    let step = session.step(Event::Broken("broken pipe".to_string()));
    assert_eq!(stopped(&step).kind, ErrorKind::UnbindFailed);
    assert_eq!(step.output, strings(&[]));
}

#[test]
fn every_valid_mode_shows_the_entries_and_every_other_is_rejected() {
    for output in ["json", "table"] {
        let mut session = users(output);
        bound(&mut session);
        let step = session.step(Event::Found(reply(0), vec![john(), john()]));
        assert_eq!(step.action, Action::Unbind);
        assert_eq!(step.output.len(), 1);
        assert_eq!(step.output[0].matches("cn=john,dc=example,dc=com").count(), 2);
    }
    for output in ["JSON", "Table", "", "xml", " json", "table "] {
        let mut session = users(output);
        bound(&mut session);
        let step = session.step(Event::Found(reply(0), vec![john()]));
        assert_eq!(step.output, strings(&[]));
        assert_eq!(
            stopped(&step),
            ClientError {
                kind: ErrorKind::InvalidOutputMode,
                context: format!("Invalid output format: {}", output),
                cause: None,
            }
        );
    }
}

#[test]
fn an_unknown_mode_is_rejected_before_anything_is_printed() {
    let mut session = users("xml");
    bound(&mut session);
    let step = session.step(Event::Found(reply(0), vec![john()]));
    assert_eq!(step.output, strings(&[]));
    assert_eq!(
        stopped(&step),
        ClientError {
            kind: ErrorKind::InvalidOutputMode,
            context: "Invalid output format: xml".to_string(),
            cause: None,
        }
    );
    assert_eq!(session.stage(), Stage::Done);
}

#[test]
fn a_failed_unbind_comes_after_the_result() {
    let mut session = users("table");
    bound(&mut session);
    let shown = session.step(Event::Found(reply(0), vec![john()]));
    assert_eq!(shown.output.len(), 1);
    let step = session.step(Event::Broken("broken pipe".to_string()));
    assert_eq!(
        stopped(&step),
        ClientError {
            kind: ErrorKind::UnbindFailed,
            context: "Failed to unbind from LDAP server".to_string(),
            cause: Some("broken pipe".to_string()),
        }
    );
}

#[test]
fn a_connection_check_counts_the_entries() {
    let mut session = check();
    let step = session.step(Event::Begin);
    assert_eq!(
        step.output,
        strings(&[
            "Testing connection to LDAP server...",
            "URL: ldap://localhost:389",
            "Bind DN: cn=admin,dc=example,dc=com",
        ])
    );
    session.step(Event::Completed);
    let step = session.step(Event::Bound(reply(0)));
    assert_eq!(
        step.output,
        strings(&["✓ Successfully connected and authenticated to LDAP server"])
    );
    assert_eq!(
        step.action,
        Action::Search(SearchRequest {
            base_dn: "dc=example,dc=com".to_string(),
            scope: Scope::Base,
            filter: "(objectClass=*)".to_string(),
            attributes: strings(&["*"]),
        })
    );
    let step = session.step(Event::Found(reply(0), vec![john()]));
    assert_eq!(
        step.output,
        strings(&["✓ Connection test successful!", "✓ Found 1 base entries"])
    );
    assert_eq!(step.action, Action::Unbind);
}

#[test]
fn a_connection_check_may_find_nothing() {
    let mut session = check();
    bound(&mut session);
    let step = session.step(Event::Found(reply(0), vec![]));
    assert_eq!(
        step.output,
        strings(&["✓ Connection test successful!", "✓ Found 0 base entries"])
    );
    assert_eq!(step.action, Action::Unbind);
}

#[test]
fn a_connection_check_names_its_search_in_errors() {
    let mut session = check();
    bound(&mut session);
    let step = session.step(Event::Broken("x".to_string()));
    assert_eq!(stopped(&step).context, "Test search failed");
    let mut session = check();
    bound(&mut session);
    let step = session.step(Event::Found(reply(1), vec![]));
    assert_eq!(stopped(&step).context, "Test search operation failed");
    assert_eq!(stopped(&step).kind, ErrorKind::SearchFailed);
}

#[test]
fn events_out_of_order_stop_the_session() {
    let mut session = users("table");
    let step = session.step(Event::Completed);
    assert_eq!(
        stopped(&step),
        ClientError {
            kind: ErrorKind::Unexpected,
            context: "Event does not fit the stage of the session".to_string(),
            cause: None,
        }
    );
    assert_eq!(session.stage(), Stage::Done);

    let mut session = users("table");
    session.step(Event::Begin);
    let step = session.step(Event::Found(reply(0), vec![john()]));
    assert_eq!(stopped(&step).kind, ErrorKind::Unexpected);

    let mut session = users("table");
    session.step(Event::Begin);
    session.step(Event::Completed);
    let step = session.step(Event::Found(reply(0), vec![john()]));
    assert_eq!(stopped(&step).kind, ErrorKind::Unexpected);
}

#[test]
fn a_rendering_is_printed_or_its_error_ends_the_session() {
    let (stage, step) = after_rendering(Ok("text".to_string()));
    assert_eq!(stage, Stage::Closing);
    assert_eq!(step, Step { output: strings(&["text"]), action: Action::Unbind });
    let error = ClientError::plain(ErrorKind::Unexpected, "failed".to_string());
    let (stage, step) = after_rendering(Err(error.clone()));
    assert_eq!(stage, Stage::Done);
    assert_eq!(step, Step { output: vec![], action: Action::Stop(Some(error)) });
}
