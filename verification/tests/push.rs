use push_session::{
    decode_status_text, default_reflog_message, write_outcome, Error, Push, RawStatusReport,
    Signature, State, TransferOutcome,
};

fn report(reference: &[u8], message: Option<&[u8]>) -> RawStatusReport {
    RawStatusReport { reference: reference.to_vec(), message: message.map(|m| m.to_vec()) }
}

fn executed_session(reports: Vec<RawStatusReport>) -> Push {
    let mut push = Push::new();
    push.add_refspec("refs/heads/master").unwrap();
    push.finish(TransferOutcome::Completed { reports }).unwrap();
    push
}

#[test]
fn smoke() {
    let mut push = Push::new();
    push.add_refspec("refs/heads/master").unwrap();
    push.finish(TransferOutcome::Completed {
        reports: vec![report(b"refs/heads/master", None)],
    })
    .unwrap();
    push.update_tips(None, None).unwrap();
    let v = push.statuses().unwrap();
    assert!(v.len() > 0);
    assert_eq!(v[0].reference.as_str(), "refs/heads/master");
    assert!(v[0].message.is_none());
}

#[test]
fn round_trip_single_reference() {
    let mut push = executed_session(vec![report(b"refs/heads/master", None)]);
    let v = push.statuses().unwrap();
    assert_eq!(v.len(), 1);
    assert_eq!(v[0].reference.as_str(), "refs/heads/master");
    assert_eq!(v[0].message, None);
}

#[test]
fn rejection_is_per_reference_not_session_fatal() {
    let mut push = Push::new();
    push.add_refspec("refs/heads/master").unwrap();
    let result = push.finish(TransferOutcome::Completed {
        reports: vec![report(b"refs/heads/master", Some(b"non-fast-forward"))],
    });
    assert_eq!(result, Ok(()));
    assert_eq!(push.state(), State::Executed);
    let v = push.statuses().unwrap();
    assert_eq!(v.len(), 1);
    assert_eq!(v[0].reference.as_str(), "refs/heads/master");
    let reason = v[0].message.clone().unwrap();
    assert!(!reason.is_empty());
    assert_eq!(reason.as_str(), "non-fast-forward");
}

#[test]
fn queries_before_execute_fail_with_invalid_state() {
    let mut push = Push::new();
    push.add_refspec("refs/heads/master").unwrap();
    assert_eq!(push.statuses(), Err(Error::InvalidState));
    assert_eq!(push.update_tips(None, None), Err(Error::InvalidState));
    assert_eq!(push.state(), State::Open);
    assert_eq!(push.refspecs().len(), 1);
}

#[test]
fn release_is_idempotent() {
    let mut push = Push::new();
    push.add_refspec("refs/heads/master").unwrap();
    push.release();
    assert_eq!(push.state(), State::Released);
    push.release();
    push.release();
    assert_eq!(push.state(), State::Released);
    assert_eq!(push.add_refspec("refs/heads/other"), Err(Error::InvalidState));
    assert_eq!(push.statuses(), Err(Error::InvalidState));
}

#[test]
fn release_after_failed_transfer() {
    let mut push = Push::new();
    push.add_refspec("refs/heads/master").unwrap();
    assert_eq!(push.finish(TransferOutcome::NetworkFailure), Err(Error::NetworkError));
    push.release();
    assert_eq!(push.state(), State::Released);
    push.release();
    assert_eq!(push.state(), State::Released);
}

#[test]
fn statuses_collected_twice_are_equal() {
    let mut push = executed_session(vec![
        report(b"refs/heads/master", None),
        report(b"refs/heads/topic", Some(b"hook declined")),
    ]);
    let first = push.statuses().unwrap();
    let second = push.statuses().unwrap();
    assert_eq!(first.len(), second.len());
    assert_eq!(first, second);
}

#[test]
fn update_tips_uses_defaults_when_absent() {
    let mut push = executed_session(vec![report(b"refs/heads/master", None)]);
    let plan = push.update_tips(None, None).unwrap();
    assert_eq!(plan.len(), 1);
    assert_eq!(plan[0].reference.as_str(), "refs/heads/master");
    assert!(plan[0].signature.is_none());
    assert_eq!(plan[0].message, default_reflog_message());
    assert_eq!(plan[0].message.as_str(), "update by push");
}

#[test]
fn update_tips_carries_identity_and_message() {
    let mut push = executed_session(vec![
        report(b"refs/heads/master", None),
        report(b"refs/heads/topic", Some(b"rejected")),
        report(b"refs/heads/next", None),
    ]);
    let who = Signature::new(String::from("A U Thor"), String::from("author@example.com"));
    let plan = push.update_tips(Some(&who), Some("pushed from ci")).unwrap();
    assert_eq!(plan.len(), 2);
    assert_eq!(plan[0].reference.as_str(), "refs/heads/master");
    assert_eq!(plan[1].reference.as_str(), "refs/heads/next");
    for update in &plan {
        assert_eq!(update.message.as_str(), "pushed from ci");
        let identity = update.signature.clone().unwrap();
        assert_eq!(identity.name.as_str(), "A U Thor");
        assert_eq!(identity.email.as_str(), "author@example.com");
    }
}

#[test]
fn refspecs_kept_in_insertion_order() {
    let mut push = Push::new();
    push.add_refspec("refs/heads/master:refs/heads/master").unwrap();
    push.add_refspec("refs/heads/topic").unwrap();
    push.add_refspec("+refs/tags/v1").unwrap();
    let queued = push.refspecs();
    assert_eq!(queued.len(), 3);
    assert_eq!(queued[0].as_str(), "refs/heads/master:refs/heads/master");
    assert_eq!(queued[1].as_str(), "refs/heads/topic");
    assert_eq!(queued[2].as_str(), "+refs/tags/v1");
}

#[test]
fn malformed_refspecs_are_rejected() {
    let mut push = Push::new();
    assert_eq!(push.add_refspec(""), Err(Error::InvalidArgument));
    assert_eq!(push.add_refspec("a:b:c"), Err(Error::InvalidArgument));
    assert_eq!(push.add_refspec("refs/heads/a\0b"), Err(Error::InvalidArgument));
    assert_eq!(push.refspecs().len(), 0);
    assert_eq!(push.state(), State::Open);
    assert_eq!(push.add_refspec("refs/heads/a:refs/heads/b"), Ok(()));
}

#[test]
fn transfer_failures_move_session_to_failed() {
    let mut network = Push::new();
    network.add_refspec("refs/heads/master").unwrap();
    assert_eq!(network.finish(TransferOutcome::NetworkFailure), Err(Error::NetworkError));
    assert_eq!(network.state(), State::Failed);
    assert_eq!(network.statuses(), Err(Error::InvalidState));
    assert_eq!(network.update_tips(None, None), Err(Error::InvalidState));

    let mut auth = Push::new();
    assert_eq!(
        auth.finish(TransferOutcome::AuthenticationFailure),
        Err(Error::AuthenticationError)
    );
    assert_eq!(auth.state(), State::Failed);

    let mut protocol = Push::new();
    assert_eq!(protocol.finish(TransferOutcome::ProtocolFailure), Err(Error::ProtocolError));
    assert_eq!(protocol.state(), State::Failed);
}

#[test]
fn finish_is_only_legal_while_open() {
    let mut push = executed_session(vec![report(b"refs/heads/master", None)]);
    assert_eq!(
        push.finish(TransferOutcome::Completed { reports: vec![] }),
        Err(Error::InvalidState)
    );
    assert_eq!(push.state(), State::Executed);
    assert_eq!(push.add_refspec("refs/heads/other"), Err(Error::InvalidState));
}

#[test]
fn undecodable_reference_truncates_collection() {
    let mut push = executed_session(vec![
        report(b"refs/heads/master", None),
        report(b"refs/heads/\xff\xfe", None),
        report(b"refs/heads/after", None),
    ]);
    let v = push.statuses().unwrap();
    assert_eq!(v.len(), 1);
    assert_eq!(v[0].reference.as_str(), "refs/heads/master");
}

#[test]
fn undecodable_message_truncates_collection() {
    let mut push = executed_session(vec![
        report(b"refs/heads/master", Some(b"\xff")),
        report(b"refs/heads/after", None),
    ]);
    let v = push.statuses().unwrap();
    assert_eq!(v.len(), 0);
}

#[test]
fn non_ascii_fields_are_decoded() {
    let mut push = executed_session(vec![report(
        "refs/heads/t\u{00e9}te".as_bytes(),
        Some("d\u{00e9}clin\u{00e9}".as_bytes()),
    )]);
    let v = push.statuses().unwrap();
    assert_eq!(v.len(), 1);
    assert_eq!(v[0].reference.as_str(), "refs/heads/t\u{00e9}te");
    assert_eq!(v[0].message.as_deref(), Some("d\u{00e9}clin\u{00e9}"));
}

#[test]
fn decode_status_text_reports_encoding_error() {
    assert_eq!(decode_status_text(&vec![0xff, 0xfe]), Err(Error::EncodingError));
    assert_eq!(decode_status_text(&b"ok".to_vec()), Ok(String::from("ok")));
}

#[test]
fn write_outcome_folds_reference_store_results() {
    assert_eq!(write_outcome(&vec![true, true, true]), Ok(()));
    assert_eq!(write_outcome(&vec![]), Ok(()));
    assert_eq!(
        write_outcome(&vec![true, false, true]),
        Err(Error::ReferenceUpdateError { applied: 2 })
    );
    assert_eq!(
        write_outcome(&vec![false, false]),
        Err(Error::ReferenceUpdateError { applied: 0 })
    );
}

#[test]
fn statuses_follow_report_order_not_submission_order() {
    let mut push = Push::new();
    push.add_refspec("refs/heads/a").unwrap();
    push.add_refspec("refs/heads/b").unwrap();
    push.finish(TransferOutcome::Completed {
        reports: vec![report(b"refs/heads/b", None), report(b"refs/heads/a", None)],
    })
    .unwrap();
    let v = push.statuses().unwrap();
    assert_eq!(v.len(), 2);
    assert_eq!(v[0].reference.as_str(), "refs/heads/b");
    assert_eq!(v[1].reference.as_str(), "refs/heads/a");
}
