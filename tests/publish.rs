use gitea_resource::models::{PackageFile, Version};
use gitea_resource::params::{OutOutput, OutParams, OutStepParams, Source};
use gitea_resource::publish::{
    PublishAction, PublishError, PublishEvent, PublishPhase, PublishSession, UploadFailure,
};

fn params(files: &[&str], skip_if_exists: bool) -> OutParams {
    OutParams {
        source: Source {
            uri: "https://git.example.com/".to_string(),
            owner: "acme".to_string(),
            token: "SECRET-REDACTED".to_string(),
            package: "tool".to_string(),
        },
        params: OutStepParams {
            skip_if_exists,
            version: "v1".to_string(),
            files: files.iter().map(|f| f.to_string()).collect(),
        },
    }
}

fn listed(names: &[&str]) -> PublishEvent {
    PublishEvent::Listed(Ok(names.iter().map(|n| PackageFile { name: n.to_string() }).collect()))
}

#[test]
fn existing_file_is_skipped_and_the_rest_uploaded() {
    let (mut s, first) = PublishSession::new(&params(&["a.txt", "b.txt"], false));
    match first {
        PublishAction::List(e) => assert_eq!(e.endpoint(), "api/v1/packages/acme/generic/tool/v1/files"),
        other => panic!("unexpected {:?}", other),
    }
    let a = s.step(listed(&["a.txt"]));
    assert!(matches!(a, PublishAction::Skip { ref file } if file == "a.txt"));
    let a = s.step(PublishEvent::Completed);
    match a {
        PublishAction::Upload { endpoint, path } => {
            assert_eq!(endpoint.endpoint(), "api/packages/acme/generic/tool/v1/b.txt");
            assert_eq!(endpoint.method().as_str(), "PUT");
            assert_eq!(path, "b.txt");
        }
        other => panic!("unexpected {:?}", other),
    }
    let a = s.step(PublishEvent::Completed);
    assert!(matches!(a, PublishAction::Finish(ref v) if v.version == "v1"));
    assert_eq!(s.phase, PublishPhase::Finished);
}

#[test]
fn empty_file_list_fails_before_any_request() {
    let (s, first) = PublishSession::new(&params(&[], true));
    assert!(matches!(first, PublishAction::Fail(PublishError::NoFiles)));
    assert_eq!(s.phase, PublishPhase::Failed);
}

#[test]
fn failed_listing_uploads_everything() {
    let (mut s, _) = PublishSession::new(&params(&["out/a.txt"], true));
    let a = s.step(PublishEvent::Listed(Err("timeout".to_string())));
    match a {
        PublishAction::Upload { endpoint, path } => {
            assert_eq!(endpoint.file, "a.txt");
            assert_eq!(path, "out/a.txt");
        }
        other => panic!("unexpected {:?}", other),
    }
}

#[test]
fn base_name_decides_the_skip() {
    let (mut s, _) = PublishSession::new(&params(&["dist/a.txt", "dist/c.txt"], false));
    let a = s.step(listed(&["a.txt", "b.txt"]));
    assert!(matches!(a, PublishAction::Skip { ref file } if file == "a.txt"));
    let a = s.step(PublishEvent::Completed);
    assert!(matches!(a, PublishAction::Upload { ref endpoint, .. } if endpoint.file == "c.txt"));
}

#[test]
fn path_without_base_name_fails() {
    let (mut s, _) = PublishSession::new(&params(&["a.txt", ".."], false));
    s.step(listed(&[]));
    let a = s.step(PublishEvent::Completed);
    assert!(matches!(a, PublishAction::Fail(PublishError::NoBaseName { ref path }) if path == ".."));
    assert_eq!(s.phase, PublishPhase::Failed);
}

#[test]
fn failed_upload_stops_the_publish() {
    let (mut s, _) = PublishSession::new(&params(&["a.txt", "b.txt"], false));
    s.step(listed(&[]));
    let a = s.step(PublishEvent::UploadFailed(UploadFailure::MissingSourceFile));
    match a {
        PublishAction::Fail(PublishError::UploadFailed { path, failure }) => {
            assert_eq!(path, "a.txt");
            assert!(matches!(failure, UploadFailure::MissingSourceFile));
        }
        other => panic!("unexpected {:?}", other),
    }
    assert_eq!(s.phase, PublishPhase::Failed);
}

#[test]
fn out_output_echoes_the_version() {
    let v = Version { version: "v1".to_string() };
    let out = OutOutput::from(&v);
    assert_eq!(out.version.version, "v1");
}

#[test]
fn transfer_failure_carries_its_cause() {
    let (mut s, _) = PublishSession::new(&params(&["a.txt"], false));
    s.step(listed(&["b.txt"]));
    let a = s.step(PublishEvent::UploadFailed(UploadFailure::Transfer("500".to_string())));
    match a {
        PublishAction::Fail(PublishError::UploadFailed { path, failure: UploadFailure::Transfer(c) }) => {
            assert_eq!((path.as_str(), c.as_str()), ("a.txt", "500"));
        }
        other => panic!("unexpected {:?}", other),
    }
}
