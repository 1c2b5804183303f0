use gitea_resource::fetch::{FetchAction, FetchError, FetchEvent, FetchPhase, FetchSession};
use gitea_resource::models::{PackageFile, Version};
use gitea_resource::params::{GetOutput, GetParams, Source};

fn params() -> GetParams {
    GetParams {
        source: Source {
            uri: "https://git.example.com/".to_string(),
            owner: "acme".to_string(),
            token: "SECRET-REDACTED".to_string(),
            package: "tool".to_string(),
        },
        version: Version { version: "1.0".to_string() },
    }
}

fn files(names: &[&str]) -> Vec<PackageFile> {
    names.iter().map(|n| PackageFile { name: n.to_string() }).collect()
}

#[test]
fn fetch_downloads_every_file_then_finishes() {
    let (mut s, first) = FetchSession::new(&params());
    match first {
        FetchAction::List(e) => {
            assert_eq!(e.endpoint(), "api/v1/packages/acme/generic/tool/1.0/files")
        }
        other => panic!("unexpected {:?}", other),
    }
    let a = s.step(FetchEvent::Listed(Ok(files(&["a.txt", "b.bin"]))));
    match a {
        FetchAction::Download(e) => {
            assert_eq!(e.endpoint(), "api/packages/acme/generic/tool/1.0/a.txt")
        }
        other => panic!("unexpected {:?}", other),
    }
    let a = s.step(FetchEvent::Downloaded(Ok(())));
    match a {
        FetchAction::Download(e) => assert_eq!(e.file, "b.bin"),
        other => panic!("unexpected {:?}", other),
    }
    let a = s.step(FetchEvent::Downloaded(Ok(())));
    match a {
        FetchAction::Finish(v) => assert_eq!(v.version, "1.0"),
        other => panic!("unexpected {:?}", other),
    }
    assert_eq!(s.phase, FetchPhase::Finished);
}

#[test]
fn fetch_of_empty_version_finishes_at_once() {
    let (mut s, _) = FetchSession::new(&params());
    let a = s.step(FetchEvent::Listed(Ok(Vec::new())));
    assert!(matches!(a, FetchAction::Finish(ref v) if v.version == "1.0"));
}

#[test]
fn failed_download_names_the_file_and_reports_nothing() {
    let (mut s, _) = FetchSession::new(&params());
    s.step(FetchEvent::Listed(Ok(files(&["a.txt", "b.bin", "c.log"]))));
    s.step(FetchEvent::Downloaded(Ok(())));
    let a = s.step(FetchEvent::Downloaded(Err("connection reset".to_string())));
    match a {
        FetchAction::Fail(FetchError::DownloadFailed { file, cause }) => {
            assert_eq!(file, "b.bin");
            assert_eq!(cause, "connection reset");
        }
        other => panic!("unexpected {:?}", other),
    }
    assert_eq!(s.phase, FetchPhase::Failed);
}

#[test]
fn failed_listing_names_package_and_version() {
    let (mut s, _) = FetchSession::new(&params());
    let a = s.step(FetchEvent::Listed(Err("404".to_string())));
    match a {
        FetchAction::Fail(FetchError::ListFailed { package, version, cause }) => {
            assert_eq!((package.as_str(), version.as_str(), cause.as_str()), ("tool", "1.0", "404"));
        }
        other => panic!("unexpected {:?}", other),
    }
}

#[test]
fn get_output_echoes_the_version() {
    let v = Version { version: "1.0".to_string() };
    let out = GetOutput::from(&v);
    assert_eq!(out.version.version, "1.0");
}
