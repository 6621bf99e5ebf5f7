use inicio_faucet::mint::NoteKind;
use inicio_faucet::worker::{
    check_amount, keeps_running, note_build_failure, plan_batch, settle_batch, startup_failure,
    PendingNote, Submission, WorkerEvent, MAX_ASSET_AMOUNT,
};

#[test]
fn loop_stops_on_cancel_or_closed_queue() {
    assert!(!keeps_running(WorkerEvent::Cancelled));
    assert!(!keeps_running(WorkerEvent::Received(0)));
    assert!(keeps_running(WorkerEvent::Received(1)));
    assert!(keeps_running(WorkerEvent::Received(256)));
}

#[test]
fn startup_failure_names_the_token() {
    assert_eq!(startup_failure("TOKA", "no file"), "[TOKA] no file");
}

#[test]
fn amounts_up_to_the_asset_maximum_are_accepted() {
    assert_eq!(MAX_ASSET_AMOUNT, (1u64 << 63) - (1u64 << 31));
    assert!(check_amount(1).is_ok());
    assert!(check_amount(MAX_ASSET_AMOUNT).is_ok());
    let err = check_amount(MAX_ASSET_AMOUNT + 1).unwrap_err();
    assert!(err.starts_with("invalid amount: "), "{err}");
    assert!(err.contains(&(MAX_ASSET_AMOUNT + 1).to_string()), "{err}");
    assert!(check_amount(u64::MAX).is_err());
}

#[test]
fn note_failures_are_prefixed() {
    assert_eq!(note_build_failure("no rng"), "failed to build note: no rng");
}

#[test]
fn batch_is_split_in_queue_order() {
    let checks: Vec<Result<(), String>> =
        vec![Ok(()), Err("a".into()), Ok(()), Ok(()), Err("b".into())];
    let plan = plan_batch(&checks);
    assert_eq!(plan.pending, vec![0, 2, 3]);
    assert_eq!(plan.rejected, vec![(1, "a".to_string()), (4, "b".to_string())]);
    assert_eq!(plan.pending.len() + plan.rejected.len(), checks.len());
    let empty = plan_batch(&vec![]);
    assert!(empty.pending.is_empty() && empty.rejected.is_empty());
}

fn notes() -> Vec<PendingNote> {
    vec![
        PendingNote { note_id: "0x01".into(), note_type: NoteKind::Public, note_file: vec![9, 9] },
        PendingNote { note_id: "0x02".into(), note_type: NoteKind::Private, note_file: vec![1, 2, 3] },
        PendingNote { note_id: "0x03".into(), note_type: NoteKind::Private, note_file: b"hello".to_vec() },
    ]
}

#[test]
fn submitted_batch_shares_the_transaction() {
    let answers = settle_batch(&notes(), &Submission::Submitted("0xfeed".into()));
    assert_eq!(answers.len(), 3);
    let outs: Vec<_> = answers.into_iter().map(|a| a.unwrap()).collect();
    assert!(outs.iter().all(|o| o.tx_id == "0xfeed"));
    assert_eq!(outs[0].note_id, "0x01");
    assert_eq!(outs[0].note_b64, None);
    assert_eq!(outs[1].note_b64.as_deref(), Some("AQID"));
    assert_eq!(outs[2].note_b64.as_deref(), Some("aGVsbG8="));
}

#[test]
fn failed_batch_answers_every_job_alike() {
    let answers = settle_batch(&notes(), &Submission::Failed("node down".into()));
    assert_eq!(answers.len(), 3);
    for a in &answers {
        assert_eq!(a.as_ref().unwrap_err(), "mint transaction failed: node down");
    }
    let answers = settle_batch(&notes(), &Submission::RequestRejected("too many notes".into()));
    for a in &answers {
        assert_eq!(a.as_ref().unwrap_err(), "failed to build mint transaction: too many notes");
    }
    assert!(settle_batch(&vec![], &Submission::Submitted("0x1".into())).is_empty());
}
