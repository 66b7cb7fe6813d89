use baps3_cli::client::{Request, Response};
use baps3_cli::error::{baps3_err_desc, Baps3Error};
use baps3_cli::message::Message;
use baps3_cli::oneshot::{ack_response, check_baps3, check_features, missing_features, OneShot, Stage};

fn msg(word: &str, args: &[&str]) -> Option<Response> {
    Some(Response::Message(Message::new(word, args)))
}

fn quits(rs: &[Request]) -> usize {
    rs.iter().filter(|r| matches!(r, Request::Quit)).count()
}

fn sent(rs: &[Request]) -> Vec<Vec<String>> {
    rs.iter()
        .filter_map(|r| match r {
            Request::SendMessage(m) => Some(m.as_str_vec().iter().map(|s| s.to_string()).collect()),
            Request::Quit => None,
        })
        .collect()
}

#[test]
fn server_without_needed_features() {
    assert!(missing_features(&["PlayStop", "End", "FileLoad"], &["PlayStop", "End"]));
}

#[test]
fn server_with_needed_features() {
    assert!(!missing_features(&["PlayStop", "End"], &["PlayStop", "End", "FileLoad"]));
    assert!(!missing_features(&[], &[]));
}

#[test]
fn greeting_accepted() {
    assert!(check_baps3(&msg("OHAI", &["server 1.0"])).is_ok());
}

#[test]
fn greeting_needs_one_argument() {
    assert!(matches!(check_baps3(&msg("OHAI", &[])), Err(Baps3Error::NotBaps3Server)));
    assert!(matches!(check_baps3(&msg("OHAI", &["a", "b"])), Err(Baps3Error::NotBaps3Server)));
    assert!(matches!(check_baps3(&msg("HELLO", &["a"])), Err(Baps3Error::NotBaps3Server)));
}

#[test]
fn greeting_on_hang_up() {
    assert!(matches!(check_baps3(&Some(Response::Gone)), Err(Baps3Error::HungUp)));
    assert!(matches!(check_baps3(&None), Err(Baps3Error::HungUp)));
    let e = std::io::Error::new(std::io::ErrorKind::ConnectionReset, "reset");
    assert!(matches!(check_baps3(&Some(Response::ClientError(e))), Err(Baps3Error::HungUp)));
}

#[test]
fn features_returned_when_present() {
    let r = check_features(&["A"], &msg("FEATURES", &["A", "B"])).unwrap();
    assert_eq!(r, vec!["A".to_string(), "B".to_string()]);
}

#[test]
fn missing_feature_reported() {
    match check_features(&["C"], &msg("FEATURES", &["A", "B"])) {
        Err(Baps3Error::MissingFeatures { wanted, have }) => {
            assert_eq!(wanted, vec!["C".to_string()]);
            assert_eq!(have, vec!["A".to_string(), "B".to_string()]);
        },
        other => panic!("unexpected {:?}", other),
    }
}

#[test]
fn features_expected_but_other_word() {
    match check_features(&["C"], &msg("TIME", &["12"])) {
        Err(Baps3Error::UnexpectedResponse { code, args, expectation }) => {
            assert_eq!(code, "TIME");
            assert_eq!(args, vec!["12".to_string()]);
            assert_eq!(expectation, "FEATURES");
        },
        other => panic!("unexpected {:?}", other),
    }
}

#[test]
fn features_on_hang_up() {
    assert!(matches!(check_features(&[], &Some(Response::Gone)), Err(Baps3Error::HungUp)));
}

#[test]
fn ack_matches_word_and_args() {
    assert!(matches!(ack_response("load", &["f"], &msg("OK", &["load", "f"])), Some(Ok(()))));
    assert!(ack_response("load", &["f"], &msg("OK", &["load", "g"])).is_none());
    assert!(ack_response("load", &["f"], &msg("OK", &["load"])).is_none());
    assert!(ack_response("load", &["f"], &msg("OK", &["play", "f"])).is_none());
}

#[test]
fn ack_invalid_and_failed_carry_advice() {
    match ack_response("seek", &["5"], &msg("WHAT", &["bad position", "seek", "5"])) {
        Some(Err(Baps3Error::CmdInvalid { advice })) => assert_eq!(advice, "bad position"),
        other => panic!("unexpected {:?}", other),
    }
    match ack_response("seek", &["5"], &msg("FAIL", &["no file", "seek", "5"])) {
        Some(Err(Baps3Error::CmdFailed { advice })) => assert_eq!(advice, "no file"),
        other => panic!("unexpected {:?}", other),
    }
}

#[test]
fn ack_for_other_command_is_skipped() {
    assert!(ack_response("seek", &["5"], &msg("WHAT", &["bad", "load", "f"])).is_none());
    assert!(ack_response("seek", &["5"], &msg("FAIL", &["bad", "seek", "6"])).is_none());
    assert!(ack_response("seek", &["5"], &msg("TIME", &["100"])).is_none());
    assert!(ack_response("seek", &["5"], &msg("OKAY", &["seek", "5"])).is_none());
}

#[test]
fn ack_on_hang_up() {
    assert!(matches!(ack_response("play", &[], &Some(Response::Gone)), Some(Err(Baps3Error::HungUp))));
    assert!(matches!(ack_response("play", &[], &None), Some(Err(Baps3Error::HungUp))));
}

#[test]
fn one_shot_handshake_command_and_single_quit() {
    let mut e = OneShot::new(&["A"], vec![Message::new("cmd", &["arg"])]);
    assert_eq!(e.stage(), Stage::Greeting);
    let mut all: Vec<Request> = Vec::new();

    let s = e.step(msg("OHAI", &["x"]));
    assert!(s.outcome.is_none());
    all.extend(s.requests);
    assert_eq!(e.stage(), Stage::Features);

    let s = e.step(msg("FEATURES", &["A", "B"]));
    assert!(s.outcome.is_none());
    assert_eq!(sent(&s.requests), vec![vec!["cmd".to_string(), "arg".to_string()]]);
    all.extend(s.requests);
    assert_eq!(e.stage(), Stage::Acknowledging);

    let s = e.step(msg("OK", &["cmd", "arg"]));
    assert!(matches!(s.outcome, Some(Ok(()))));
    all.extend(s.requests);
    assert!(e.is_finished());

    let s = e.step(Some(Response::Gone));
    assert!(s.outcome.is_none());
    assert!(s.requests.is_empty());

    assert_eq!(quits(&all), 1);
    assert!(matches!(all.last(), Some(Request::Quit)));
    assert_eq!(sent(&all).len(), 1);
}

#[test]
fn one_shot_missing_features_sends_no_command() {
    let mut e = OneShot::new(&["C"], vec![Message::from_word("play")]);
    assert!(e.step(msg("OHAI", &["x"])).requests.is_empty());
    let s = e.step(msg("FEATURES", &["A", "B"]));
    match s.outcome {
        Some(Err(Baps3Error::MissingFeatures { wanted, have })) => {
            assert_eq!(wanted, vec!["C".to_string()]);
            assert_eq!(have, vec!["A".to_string(), "B".to_string()]);
        },
        other => panic!("unexpected {:?}", other),
    }
    assert_eq!(s.requests.len(), 1);
    assert!(matches!(s.requests[0], Request::Quit));
    assert!(e.step(msg("OK", &["play"])).requests.is_empty());
}

#[test]
fn one_shot_skips_unrelated_notifications() {
    let mut e = OneShot::new(&[], vec![Message::new("seek", &["100"])]);
    e.step(msg("OHAI", &["x"]));
    e.step(msg("FEATURES", &[]));
    for r in [
        msg("TIME", &["5000"]),
        msg("WHAT", &["nope", "load", "f"]),
        msg("FAIL", &["nope", "seek", "200"]),
        msg("OK", &["play"]),
        msg("STATE", &["Playing"]),
    ] {
        let s = e.step(r);
        assert!(s.outcome.is_none());
        assert!(s.requests.is_empty());
        assert_eq!(e.stage(), Stage::Acknowledging);
    }
    let s = e.step(msg("OK", &["seek", "100"]));
    assert!(matches!(s.outcome, Some(Ok(()))));
    assert_eq!(quits(&s.requests), 1);
}

#[test]
fn one_shot_command_failure_still_quits() {
    let mut e = OneShot::new(&[], vec![Message::from_word("stop"), Message::new("seek", &["0"])]);
    e.step(msg("OHAI", &["x"]));
    e.step(msg("FEATURES", &["PlayStop"]));
    let s = e.step(msg("FAIL", &["not playing", "stop"]));
    match s.outcome {
        Some(Err(Baps3Error::CmdFailed { advice })) => assert_eq!(advice, "not playing"),
        other => panic!("unexpected {:?}", other),
    }
    assert_eq!(s.requests.len(), 1);
    assert!(matches!(s.requests[0], Request::Quit));
}

#[test]
fn one_shot_runs_commands_in_order() {
    let mut e = OneShot::new(&[], vec![Message::new("load", &["/a b"]), Message::from_word("play")]);
    e.step(msg("OHAI", &["x"]));
    let s = e.step(msg("FEATURES", &[]));
    assert_eq!(sent(&s.requests), vec![vec!["load".to_string(), "/a b".to_string()]]);
    let s = e.step(msg("OK", &["load", "/a b"]));
    assert!(s.outcome.is_none());
    assert_eq!(sent(&s.requests), vec![vec!["play".to_string()]]);
    let s = e.step(msg("OK", &["play"]));
    assert!(matches!(s.outcome, Some(Ok(()))));
    assert_eq!(quits(&s.requests), 1);
}

#[test]
fn one_shot_without_commands_quits_after_features() {
    let mut e = OneShot::new(&[], vec![]);
    e.step(msg("OHAI", &["x"]));
    let s = e.step(msg("FEATURES", &["A"]));
    assert!(matches!(s.outcome, Some(Ok(()))));
    assert_eq!(s.requests.len(), 1);
    assert!(matches!(s.requests[0], Request::Quit));
}

#[test]
fn one_shot_not_a_server() {
    let mut e = OneShot::new(&[], vec![Message::from_word("play")]);
    let s = e.step(msg("HTTP/1.1", &["400"]));
    assert!(matches!(s.outcome, Some(Err(Baps3Error::NotBaps3Server))));
    assert_eq!(quits(&s.requests), 1);
}

#[test]
fn one_shot_hang_up_while_waiting() {
    let mut e = OneShot::new(&[], vec![Message::from_word("play")]);
    e.step(msg("OHAI", &["x"]));
    e.step(msg("FEATURES", &[]));
    let s = e.step(Some(Response::Gone));
    assert!(matches!(s.outcome, Some(Err(Baps3Error::HungUp))));
    assert_eq!(quits(&s.requests), 1);
}

#[test]
fn error_descriptions() {
    assert_eq!(baps3_err_desc(&Baps3Error::HungUp), "server hung up");
    assert_eq!(baps3_err_desc(&Baps3Error::NotBaps3Server), "not a BAPS3 server");
    assert_eq!(Baps3Error::CmdFailed { advice: "x".to_string() }.description(), "command failed");
    assert_eq!(Baps3Error::CmdInvalid { advice: "x".to_string() }.description(), "command invalid");
    assert_eq!(Baps3Error::InvalidPath { path: "x".to_string() }.description(), "invalid path");
    let e = std::io::Error::new(std::io::ErrorKind::Other, "boom");
    assert_eq!(Baps3Error::Io { err: e }.description(), "input/output error");
    let m = Baps3Error::MissingFeatures { wanted: vec![], have: vec![] };
    assert_eq!(m.description(), "server missing features");
    let u = Baps3Error::UnexpectedResponse { code: String::new(), args: vec![], expectation: String::new() };
    assert_eq!(u.description(), "unexpected response");
}
