use incli::auth::{Answer, Auth, Error as AuthError, Verb};
use incli::cert::Cert;
use incli::error::Error;
use incli::language::Language;
use incli::project::ProjectConfig;
use incli::transport::{Event, PeerIdentity, State, TransportError};

const ZEROS: &str = "0000000000000000000000000000000000000000";
const PUBLIC: &str = "Yne@$w-vo<fVvi]a<NY6T1ed:M$fCG*[IaLV{hID";
const SECRET: &str = "D:)Q[IlAW!ahhC2ac:9*A}h:p?([4%wOTJ%JR%cs";

fn config() -> ProjectConfig {
    ProjectConfig {
        language: Language::Rust,
        auth_server: String::from("127.0.0.1"),
        auth_api_port: 7101,
        auth_update_port: 0,
        build_server: None,
    }
}

fn client() -> Auth {
    let identity = Cert::new(PUBLIC, SECRET).unwrap();
    let peer = PeerIdentity::new(ZEROS).unwrap();
    Auth::new(&config(), identity, peer)
}

fn connected() -> Auth {
    let mut auth = client();
    auth.connect(true).unwrap();
    auth
}

fn reply(parts: &[&str]) -> Event {
    Event::Reply(parts.iter().map(|p| p.as_bytes().to_vec()).collect())
}

fn names(r: Result<Answer, Error>) -> Vec<String> {
    match r {
        Ok(Answer::Names(names)) => names,
        _ => panic!("no names"),
    }
}

fn issued(r: Result<Answer, Error>) -> Cert {
    match r {
        Ok(Answer::Issued(cert)) => cert,
        _ => panic!("no certificate"),
    }
}

/// Stands in for the authority: keeps the names it has issued, by type, and
/// answers one request.
fn authority(record: &mut Vec<(String, String)>, request: &[String]) -> Event {
    let words: Vec<&str> = request.iter().map(|w| w.as_str()).collect();
    match words.as_slice() {
        ["cert::list", cert_type] => {
            let mut frames = vec![b"Ok".to_vec()];
            for (t, n) in record.iter() {
                if t == cert_type {
                    frames.push(n.as_bytes().to_vec());
                }
            }
            Event::Reply(frames)
        }
        ["cert::create", cert_type, name] => {
            if record.iter().any(|(t, n)| t == cert_type && n == name) {
                reply(&["Err", "Cert already exists"])
            } else {
                record.push((cert_type.to_string(), name.to_string()));
                reply(&["Ok", PUBLIC, SECRET, ""])
            }
        }
        ["cert::delete", name] => {
            if record.iter().any(|(_, n)| n == name) {
                record.retain(|(_, n)| n != name);
                reply(&["Ok"])
            } else {
                reply(&["Err", "Cert does not exist"])
            }
        }
        _ => reply(&["Err", "Unknown request"]),
    }
}

#[test]
fn test_new() {
    let auth = client();
    assert_eq!(auth.session().endpoint(), "tcp://127.0.0.1:7101");
    assert_eq!(auth.session().state(), State::Disconnected);
    assert_eq!(auth.session().send_timeout(), 5000);
    assert_eq!(auth.session().recv_timeout(), 5000);
    assert_eq!(auth.session().peer().public_txt(), ZEROS);
    assert_eq!(auth.session().identity().public_txt(), PUBLIC);
    assert_eq!(auth.session().identity().secret_txt(), SECRET);
    assert_eq!(auth.pending(), None);
}

#[test]
fn test_list() {
    let mut auth = connected();

    let req = auth.list("host").unwrap();
    assert_eq!(req[0], "cert::list");
    assert_eq!(req[1], "host");
    assert_eq!(req.len(), 2);

    let mut list = names(auth.receive(reply(&["Ok", "Fat", "Yak", "is", "DELICIOUS"])));
    assert_eq!(list.pop().unwrap(), "DELICIOUS");
    assert_eq!(list.pop().unwrap(), "is");
    assert_eq!(list.pop().unwrap(), "Yak");
    assert_eq!(list.pop().unwrap(), "Fat");
    assert!(list.is_empty());
}

#[test]
fn test_add() {
    let mut auth = connected();

    let req = auth.add("host", "foobar").unwrap();
    assert_eq!(req[0], "cert::create");
    assert_eq!(req[1], "host");
    assert_eq!(req[2], "foobar");
    assert_eq!(req.len(), 3);
    let first = auth.receive(reply(&["Ok", ZEROS, ZEROS, ""]));
    assert!(first.is_ok());
    let cert = issued(first);
    assert_eq!(cert.public_txt(), ZEROS);
    assert_eq!(cert.secret_txt(), ZEROS);
    assert!(cert.meta().is_empty());

    auth.add("host", "foobar").unwrap();
    let second = auth.receive(reply(&["Err", "I'm broke!"]));
    assert!(second.is_err());
    match second {
        Err(Error::Auth(AuthError::AuthorityError(message))) => assert_eq!(message, "I'm broke!"),
        _ => panic!("not a refusal"),
    }
}

#[test]
fn test_delete() {
    let mut auth = connected();

    let req = auth.delete("foobar").unwrap();
    assert_eq!(req[0], "cert::delete");
    assert_eq!(req[1], "foobar");
    assert_eq!(req.len(), 2);
    assert!(matches!(auth.receive(reply(&["Ok"])), Ok(Answer::Deleted)));

    auth.delete("foobar").unwrap();
    let second = auth.receive(reply(&["Err", "I'm broke!"]));
    assert!(second.is_err());
    match second {
        Err(Error::Auth(AuthError::AuthorityError(message))) => assert_eq!(message, "I'm broke!"),
        _ => panic!("not a refusal"),
    }
}

#[test]
fn added_name_is_listed_exactly_once() {
    let mut record = Vec::new();
    let mut auth = connected();
    for (cert_type, name) in [("host", "web1"), ("host", "web2"), ("user", "web1"), ("host", "web1")] {
        let req = auth.add(cert_type, name).unwrap();
        let _ = auth.receive(authority(&mut record, &req));
        let req = auth.list(cert_type).unwrap();
        let listed = names(auth.receive(authority(&mut record, &req)));
        assert_eq!(listed.iter().filter(|n| n.as_str() == name).count(), 1);
    }
}

#[test]
fn delete_of_a_name_never_added_is_refused() {
    let mut record = Vec::new();
    let mut auth = connected();
    let req = auth.add("host", "web1").unwrap();
    assert!(auth.receive(authority(&mut record, &req)).is_ok());
    let req = auth.delete("web2").unwrap();
    assert!(matches!(
        auth.receive(authority(&mut record, &req)),
        Err(Error::Auth(AuthError::AuthorityError(_)))
    ));
    assert_eq!(record.len(), 1);
}

#[test]
fn second_add_of_the_same_name_is_refused() {
    let mut record = Vec::new();
    let mut auth = connected();
    let req = auth.add("host", "foobar").unwrap();
    let cert = issued(auth.receive(authority(&mut record, &req)));
    assert_eq!(cert.public_txt(), PUBLIC);
    let req = auth.add("host", "foobar").unwrap();
    assert!(matches!(
        auth.receive(authority(&mut record, &req)),
        Err(Error::Auth(AuthError::AuthorityError(_)))
    ));
}

#[test]
fn malformed_replies_are_reported_as_such() {
    let mut auth = connected();
    auth.list("host").unwrap();
    assert!(matches!(
        auth.receive(reply(&["Maybe", "Fat", "Yak"])),
        Err(Error::Auth(AuthError::MalformedReply))
    ));
    auth.add("host", "foobar").unwrap();
    assert!(matches!(
        auth.receive(reply(&["Ok", ZEROS, ZEROS])),
        Err(Error::Auth(AuthError::MalformedReply))
    ));
    auth.delete("foobar").unwrap();
    assert!(matches!(auth.receive(reply(&[])), Err(Error::Auth(AuthError::MalformedReply))));
    auth.delete("foobar").unwrap();
    assert!(matches!(
        auth.receive(reply(&["Ok", "surplus"])),
        Err(Error::Auth(AuthError::MalformedReply))
    ));
    assert_eq!(auth.session().state(), State::Connected);
    assert_eq!(auth.pending(), None);
}

#[test]
fn a_reply_is_read_as_the_answer_to_the_pending_verb() {
    let mut auth = connected();
    auth.list("host").unwrap();
    assert_eq!(auth.pending(), Some(Verb::List));
    assert_eq!(names(auth.receive(reply(&["Ok", ZEROS, ZEROS, ""]))).len(), 3);
    auth.add("host", "a").unwrap();
    assert_eq!(auth.pending(), Some(Verb::Create));
    auth.receive(reply(&["Ok", ZEROS, ZEROS, ""])).unwrap();
    auth.delete("a").unwrap();
    assert_eq!(auth.pending(), Some(Verb::Delete));
    assert!(matches!(
        auth.receive(reply(&["Ok", ZEROS, ZEROS, ""])),
        Err(Error::Auth(AuthError::MalformedReply))
    ));
}

#[test]
fn requests_take_turns() {
    let mut auth = connected();
    auth.list("host").unwrap();
    assert_eq!(auth.session().state(), State::AwaitingReply);
    assert!(matches!(auth.list("user"), Err(Error::Transport(TransportError::Send))));
    assert!(matches!(auth.add("user", "a"), Err(Error::Transport(TransportError::Send))));
    assert!(matches!(auth.delete("a"), Err(Error::Transport(TransportError::Send))));
    assert_eq!(auth.pending(), Some(Verb::List));
    assert_eq!(names(auth.receive(reply(&["Ok", "a"]))), vec!["a"]);
    assert!(auth.list("user").is_ok());
}

#[test]
fn nothing_is_sent_before_the_session_is_connected() {
    let mut auth = client();
    assert!(matches!(auth.list("host"), Err(Error::Transport(TransportError::Send))));
    assert!(matches!(auth.connect(false), Err(Error::Transport(TransportError::Connect))));
    assert_eq!(auth.session().state(), State::Disconnected);
    assert!(matches!(auth.add("host", "a"), Err(Error::Transport(TransportError::Send))));
    assert!(auth.connect(true).is_ok());
    assert_eq!(auth.session().state(), State::Connected);
    assert!(auth.connect(false).is_ok());
    assert!(auth.list("host").is_ok());
}

#[test]
fn a_reply_without_a_request_is_refused() {
    let mut auth = connected();
    assert!(matches!(
        auth.receive(reply(&["Ok"])),
        Err(Error::Transport(TransportError::Send))
    ));
    assert_eq!(auth.session().state(), State::Connected);
}

#[test]
fn a_timeout_closes_the_session() {
    let mut auth = connected();
    auth.list("host").unwrap();
    assert!(matches!(auth.receive(Event::Timeout), Err(Error::Transport(TransportError::Timeout))));
    assert_eq!(auth.session().state(), State::Disconnected);
    assert_eq!(auth.pending(), None);
    assert!(matches!(auth.list("host"), Err(Error::Transport(TransportError::Send))));
}

#[test]
fn a_closed_peer_closes_the_session() {
    let mut auth = connected();
    auth.delete("a").unwrap();
    assert!(matches!(
        auth.receive(Event::PeerClosed),
        Err(Error::Transport(TransportError::PeerClosed))
    ));
    assert_eq!(auth.session().state(), State::Disconnected);
}

#[test]
fn peer_identity_wants_a_well_formed_key() {
    assert!(PeerIdentity::new(ZEROS).is_some());
    assert!(PeerIdentity::new("").is_none());
    assert!(PeerIdentity::new("not a key").is_none());
}

#[test]
fn auth_errors_speak_for_themselves() {
    let refused = AuthError::AuthorityError(String::from("I'm broke!"));
    assert_eq!(refused.message(), "Auth server encountered an error: I'm broke!");
    assert_eq!(refused.description(), "I'm broke!");
    assert_eq!(AuthError::MalformedReply.message(), "Invalid response from host");
    assert_eq!(AuthError::MalformedReply.description(), "Invalid response from host");
}
