use request_intake::reply::ContentType;
use request_intake::upload::{
    advance, Action, Event, FailureKind, FormError, Ingest, Stage, UploadForm, UploadOutcome,
    PART_LIMIT,
};

fn form(file_name: Option<&str>, size: u64, name: &str) -> UploadForm {
    UploadForm::new(file_name.map(String::from), size, String::from(name)).unwrap()
}

fn clip(size: u64) -> UploadForm {
    form(Some("upload.bin"), size, "clip.mp4")
}

fn drive(ingest: &mut Ingest, events: &[Event]) -> Vec<Action> {
    let mut actions = vec![ingest.action()];
    for &event in events {
        actions.push(ingest.step(event));
    }
    actions
}

#[test]
fn the_limit_is_one_hundred_megabytes() {
    assert_eq!(PART_LIMIT, 100_000_000);
}

#[test]
fn a_form_within_the_limit_is_accepted() {
    let form = UploadForm::new(Some(String::from("a.bin")), PART_LIMIT, String::from("a")).unwrap();
    assert_eq!(form.file.file_name.as_deref(), Some("a.bin"));
    assert_eq!(form.file.size, 100_000_000);
    assert_eq!(form.json.name, "a");
    let empty = UploadForm::new(None, 0, String::new()).unwrap();
    assert_eq!(empty.file.file_name, None);
    assert_eq!(empty.file.size, 0);
    assert_eq!(empty.json.name, "");
}

#[test]
fn a_form_over_the_limit_is_refused() {
    let err = UploadForm::new(Some(String::from("a.bin")), PART_LIMIT + 1, String::from("a"))
        .unwrap_err();
    assert_eq!(err, FormError::PartTooLarge { limit: 100_000_000, size: 100_000_001 });
    assert_eq!(err.status_code(), 413);
    let err = UploadForm::new(None, u64::MAX, String::from("a")).unwrap_err();
    assert_eq!(err, FormError::PartTooLarge { limit: 100_000_000, size: u64::MAX });
}

#[test]
fn an_upload_begins_with_the_directory() {
    let ingest = Ingest::start(clip(5));
    assert_eq!(ingest.stage(), Stage::Start);
    assert!(matches!(ingest.action(), Action::EnsureDirectory { path } if path == "uploads"));
    assert_eq!(ingest.form().json.name, "clip.mp4");
}

#[test]
fn four_successes_store_the_upload() {
    let mut ingest = Ingest::start(clip(1234));
    let actions = drive(&mut ingest, &[Event::Done, Event::Done, Event::Done, Event::Done]);
    assert_eq!(actions.len(), 5);
    assert!(matches!(&actions[0], Action::EnsureDirectory { path } if path == "uploads"));
    assert!(matches!(&actions[1], Action::OpenDestination { path } if path == "uploads/upload.bin"));
    assert!(matches!(&actions[2], Action::OpenSource));
    assert!(matches!(&actions[3], Action::CopyContents));
    match &actions[4] {
        Action::Finish(outcome) => {
            assert_eq!(outcome.path, "uploads/upload.bin");
            assert_eq!(outcome.name, "clip.mp4");
            assert_eq!(outcome.size, 1234);
            let reply = outcome.reply();
            assert_eq!(reply.status, 200);
            assert_eq!(reply.content_type, Some(ContentType::PlainText));
            assert_eq!(reply.body, "Uploaded file clip.mp4, with size: 1234");
        }
        other => panic!("not stored: {:?}", other),
    }
    assert_eq!(ingest.stage(), Stage::Completed);
}

#[test]
fn the_stages_follow_one_another() {
    let mut ingest = Ingest::start(clip(1));
    assert_eq!(ingest.stage(), Stage::Start);
    ingest.step(Event::Done);
    assert_eq!(ingest.stage(), Stage::DirectoryEnsured);
    ingest.step(Event::Done);
    assert_eq!(ingest.stage(), Stage::DestinationOpened);
    ingest.step(Event::Done);
    assert_eq!(ingest.stage(), Stage::CopyInProgress);
    ingest.step(Event::Done);
    assert_eq!(ingest.stage(), Stage::Completed);
}

#[test]
fn the_reply_reports_the_size_of_the_file_part() {
    for &size in [0u64, 1, 9, 10, 4096, 99_999_999, 100_000_000].iter() {
        let mut ingest = Ingest::start(clip(size));
        let actions = drive(&mut ingest, &[Event::Done, Event::Done, Event::Done, Event::Done]);
        match &actions[4] {
            Action::Finish(outcome) => {
                assert_eq!(outcome.size, size);
                assert_eq!(
                    outcome.reply().body,
                    format!("Uploaded file {}, with size: {}", "clip.mp4", size)
                );
            }
            other => panic!("not stored: {:?}", other),
        }
    }
}

#[test]
fn the_reply_names_the_metadata_and_the_path_names_the_file() {
    let mut ingest = Ingest::start(form(Some("raw-0001.dat"), 3, "holiday film"));
    let actions = drive(&mut ingest, &[Event::Done, Event::Done, Event::Done, Event::Done]);
    match &actions[4] {
        Action::Finish(outcome) => {
            assert_eq!(outcome.path, "uploads/raw-0001.dat");
            assert_eq!(outcome.reply().body, "Uploaded file holiday film, with size: 3");
        }
        other => panic!("not stored: {:?}", other),
    }
}

#[test]
fn a_directory_that_cannot_be_created_is_a_server_error() {
    let mut ingest = Ingest::start(clip(5));
    let action = ingest.step(Event::Failed);
    assert_eq!(ingest.stage(), Stage::Failed(FailureKind::StorageUnavailable));
    match action {
        Action::Reject(kind) => {
            assert_eq!(kind, FailureKind::StorageUnavailable);
            let reply = kind.reply();
            assert_eq!(reply.status, 500);
            assert_eq!(reply.content_type, None);
            assert_eq!(reply.body, "");
        }
        other => panic!("not rejected: {:?}", other),
    }
}

#[test]
fn after_a_directory_failure_no_destination_is_asked_for() {
    let all = [Event::Done, Event::Failed];
    for &second in all.iter() {
        for &third in all.iter() {
            for &fourth in all.iter() {
                let mut ingest = Ingest::start(clip(5));
                let actions = drive(&mut ingest, &[Event::Failed, second, third, fourth]);
                for action in actions.iter().skip(1) {
                    assert!(matches!(action, Action::Reject(FailureKind::StorageUnavailable)));
                }
                assert_eq!(ingest.stage(), Stage::Failed(FailureKind::StorageUnavailable));
            }
        }
    }
}

#[test]
fn a_destination_that_cannot_be_created_is_a_server_error() {
    let mut ingest = Ingest::start(clip(5));
    let actions = drive(&mut ingest, &[Event::Done, Event::Failed]);
    assert!(matches!(&actions[2], Action::Reject(FailureKind::StorageUnavailable)));
    assert_eq!(ingest.stage(), Stage::Failed(FailureKind::StorageUnavailable));
    assert_eq!(FailureKind::StorageUnavailable.status_code(), 500);
}

#[test]
fn a_source_that_cannot_be_opened_is_a_failed_copy() {
    let mut ingest = Ingest::start(clip(5));
    let actions = drive(&mut ingest, &[Event::Done, Event::Done, Event::Failed]);
    assert!(matches!(&actions[3], Action::Reject(FailureKind::CopyFailed)));
    assert_eq!(ingest.stage(), Stage::Failed(FailureKind::CopyFailed));
}

#[test]
fn a_copy_that_breaks_off_is_a_server_error() {
    let mut ingest = Ingest::start(clip(5));
    let actions = drive(&mut ingest, &[Event::Done, Event::Done, Event::Done, Event::Failed]);
    assert!(matches!(&actions[4], Action::Reject(FailureKind::CopyFailed)));
    assert_eq!(ingest.stage(), Stage::Failed(FailureKind::CopyFailed));
    let reply = FailureKind::CopyFailed.reply();
    assert_eq!(reply.status, 500);
    assert_eq!(reply.content_type, None);
    assert_eq!(reply.body, "");
}

#[test]
fn a_missing_file_name_is_a_client_error_once_the_directory_is_there() {
    let mut ingest = Ingest::start(form(None, 5, "clip.mp4"));
    assert!(matches!(ingest.action(), Action::EnsureDirectory { path } if path == "uploads"));
    let action = ingest.step(Event::Done);
    assert!(matches!(action, Action::Reject(FailureKind::MissingFilename)));
    assert_eq!(ingest.stage(), Stage::Failed(FailureKind::MissingFilename));
    let reply = FailureKind::MissingFilename.reply();
    assert_eq!(reply.status, 400);
    assert_eq!(reply.content_type, None);
    assert_eq!(reply.body, "");
}

#[test]
fn a_missing_file_name_does_not_hide_a_directory_failure() {
    let mut ingest = Ingest::start(form(None, 5, "clip.mp4"));
    let action = ingest.step(Event::Failed);
    assert!(matches!(action, Action::Reject(FailureKind::StorageUnavailable)));
}

#[test]
fn a_settled_upload_stays_as_it_is() {
    let mut stored = Ingest::start(clip(8));
    drive(&mut stored, &[Event::Done, Event::Done, Event::Done, Event::Done]);
    for &event in [Event::Failed, Event::Done, Event::Failed].iter() {
        let action = stored.step(event);
        assert!(matches!(action, Action::Finish(UploadOutcome { size: 8, .. })));
        assert_eq!(stored.stage(), Stage::Completed);
    }
    let mut failed = Ingest::start(clip(8));
    drive(&mut failed, &[Event::Done, Event::Done, Event::Failed]);
    for &event in [Event::Done, Event::Done, Event::Failed].iter() {
        let action = failed.step(event);
        assert!(matches!(action, Action::Reject(FailureKind::CopyFailed)));
        assert_eq!(failed.stage(), Stage::Failed(FailureKind::CopyFailed));
    }
}

#[test]
fn nothing_is_handed_out_before_the_copy_has_ended() {
    let mut ingest = Ingest::start(clip(8));
    let actions = drive(&mut ingest, &[Event::Done, Event::Done, Event::Done]);
    for action in actions.iter() {
        assert!(!matches!(action, Action::Finish(_)));
    }
}

#[test]
fn two_uploads_under_one_file_name_go_to_the_same_place() {
    let mut first = Ingest::start(form(Some("same.bin"), 10, "first"));
    let mut second = Ingest::start(form(Some("same.bin"), 20, "second"));
    let first_actions = drive(&mut first, &[Event::Done, Event::Done, Event::Done, Event::Done]);
    let second_actions = drive(&mut second, &[Event::Done, Event::Done, Event::Done, Event::Done]);
    match (&first_actions[1], &second_actions[1]) {
        (Action::OpenDestination { path: a }, Action::OpenDestination { path: b }) => {
            assert_eq!(a, "uploads/same.bin");
            assert_eq!(a, b);
        }
        other => panic!("no destination: {:?}", other),
    }
    match (&first_actions[4], &second_actions[4]) {
        (Action::Finish(a), Action::Finish(b)) => {
            assert_eq!(a.path, b.path);
            assert_eq!(a.reply().body, "Uploaded file first, with size: 10");
            assert_eq!(b.reply().body, "Uploaded file second, with size: 20");
        }
        other => panic!("not stored: {:?}", other),
    }
}

#[test]
fn two_uploads_under_different_file_names_go_to_different_places() {
    let mut first = Ingest::start(form(Some("a.bin"), 10, "same"));
    let mut second = Ingest::start(form(Some("b.bin"), 10, "same"));
    let a = first.step(Event::Done);
    let b = second.step(Event::Done);
    match (a, b) {
        (Action::OpenDestination { path: a }, Action::OpenDestination { path: b }) => {
            assert_ne!(a, b);
        }
        other => panic!("no destination: {:?}", other),
    }
}

#[test]
fn the_file_name_is_used_as_the_client_wrote_it() {
    let mut ingest = Ingest::start(form(Some("../outside.txt"), 1, "x"));
    let action = ingest.step(Event::Done);
    assert!(matches!(action, Action::OpenDestination { path } if path == "uploads/../outside.txt"));
    let mut ingest = Ingest::start(form(Some(""), 1, "x"));
    let action = ingest.step(Event::Done);
    assert!(matches!(action, Action::OpenDestination { path } if path == "uploads/"));
}

#[test]
fn advance_is_the_table_of_stages() {
    assert_eq!(advance(Stage::Start, Event::Done, true), Stage::DirectoryEnsured);
    assert_eq!(
        advance(Stage::Start, Event::Done, false),
        Stage::Failed(FailureKind::MissingFilename)
    );
    assert_eq!(
        advance(Stage::Start, Event::Failed, true),
        Stage::Failed(FailureKind::StorageUnavailable)
    );
    assert_eq!(advance(Stage::DirectoryEnsured, Event::Done, true), Stage::DestinationOpened);
    assert_eq!(
        advance(Stage::DirectoryEnsured, Event::Failed, true),
        Stage::Failed(FailureKind::StorageUnavailable)
    );
    assert_eq!(advance(Stage::DestinationOpened, Event::Done, true), Stage::CopyInProgress);
    assert_eq!(
        advance(Stage::DestinationOpened, Event::Failed, true),
        Stage::Failed(FailureKind::CopyFailed)
    );
    assert_eq!(advance(Stage::CopyInProgress, Event::Done, true), Stage::Completed);
    assert_eq!(
        advance(Stage::CopyInProgress, Event::Failed, true),
        Stage::Failed(FailureKind::CopyFailed)
    );
    assert_eq!(advance(Stage::Completed, Event::Failed, true), Stage::Completed);
    assert_eq!(
        advance(Stage::Failed(FailureKind::CopyFailed), Event::Done, true),
        Stage::Failed(FailureKind::CopyFailed)
    );
}

#[test]
fn failure_statuses() {
    assert_eq!(FailureKind::StorageUnavailable.status_code(), 500);
    assert_eq!(FailureKind::CopyFailed.status_code(), 500);
    assert_eq!(FailureKind::MissingFilename.status_code(), 400);
}
