//! Publishing a version: list the files it already holds (best effort),
//! then go through the local files in order, skipping each whose base name
//! is already there and uploading the others, stopping at the first failure.
//! The caller performs each action and hands back what came of it.
use vstd::prelude::*;

use crate::endpoints::{opt_view, PackageFilesEndpoint, PackageUploadEndpoint};
use crate::fetch::{file_names, names_of, string_views};
use crate::models::{PackageFile, Version};
use crate::params::OutParams;

verus! {

/// The final component of a path, if it has one.
pub uninterp spec fn file_name_of(path: Seq<char>) -> Option<Seq<char>>;

/// Relies on std::path::Path::file_name, whose result depends on the path
/// alone, read back as UTF-8 by OsStr::to_string_lossy.
#[verifier::external_body]
fn base_name(path: &str) -> (r: Option<String>)
    ensures
        opt_view(r) == file_name_of(path@),
{
    std::path::Path::new(path).file_name().map(|n| n.to_string_lossy().into_owned())
}

/// Whether `names` holds `name`.
pub fn holds_name(names: &Vec<String>, name: &String) -> (r: bool)
    ensures
        r == string_views(names@).contains(name@),
{
    let mut i: usize = 0;
    while i < names.len()
        invariant
            i <= names.len(),
            forall|j: int| 0 <= j < i ==> names@[j]@ != name@,
        decreases names.len() - i,
    {
        if names[i].eq(name) {
            assert(string_views(names@)[i as int] == name@);
            return true;
        }
        i += 1;
    }
    assert forall|j: int| 0 <= j < string_views(names@).len() implies string_views(names@)[j]
        != name@ by {
        assert(string_views(names@)[j] == names@[j]@);
    }
    false
}

/// Where a publish stands.
#[derive(Debug, Clone, Copy, PartialEq, Eq)]
pub enum PublishPhase {
    /// Waiting for the list of files the version already holds.
    Listing,
    /// Waiting for the skip or upload of the file at `next`.
    Transferring,
    /// Every file was skipped or uploaded.
    Finished,
    /// A step failed; nothing is reported.
    Failed,
}

/// Why an upload did not complete.
#[derive(Debug, Clone)]
pub enum UploadFailure {
    /// The local path does not exist or is not a regular file.
    MissingSourceFile,
    /// The file could not be read or sent; the cause.
    Transfer(String),
}

/// What came of the last action.
#[derive(Debug)]
pub enum PublishEvent {
    /// The files the version already holds, or the cause of the failure to list them.
    Listed(Result<Vec<PackageFile>, String>),
    /// The skip was reported, or the upload succeeded.
    Completed,
    /// The upload failed.
    UploadFailed(UploadFailure),
}

/// Why a publish failed.
#[derive(Debug, Clone)]
pub enum PublishError {
    /// No file was given.
    NoFiles,
    /// The path has no final component to name the file by.
    NoBaseName { path: String },
    /// The file at the path could not be uploaded.
    UploadFailed { path: String, failure: UploadFailure },
}

/// What the caller is to do next.
#[derive(Debug, Clone)]
pub enum PublishAction {
    /// Query this endpoint for the files the version already holds.
    List(PackageFilesEndpoint),
    /// Report that this file is already there, and go on.
    Skip { file: String },
    /// Upload the local file at `path` (relative to the sources directory) to this endpoint.
    Upload { endpoint: PackageUploadEndpoint, path: String },
    /// Report this version as published.
    Finish(Version),
    /// Stop with this error and report nothing.
    Fail(PublishError),
}

/// The state of one publish.
#[derive(Debug, Clone)]
pub struct PublishSession {
    pub owner: String,
    pub package: String,
    pub version: String,
    /// The local paths to publish, in order.
    pub files: Vec<String>,
    /// The names of the files the version held before this publish.
    pub existing: Vec<String>,
    /// The index of the file being handled.
    pub next: usize,
    pub phase: PublishPhase,
}

impl PublishSession {
    pub open spec fn wf(&self) -> bool {
        &&& self.phase is Listing ==> self.files@.len() > 0
        &&& self.phase is Transferring ==> self.next < self.files@.len()
    }

    /// The action that the file at index `i` calls for: a failure when its
    /// path has no base name, a skip when the version already holds a file
    /// of that name, an upload under that name otherwise.
    pub open spec fn handles_file(&self, a: PublishAction, i: int) -> bool {
        let path = self.files@[i]@;
        match file_name_of(path) {
            None => a matches PublishAction::Fail(PublishError::NoBaseName { path: p }) && p@
                == path,
            Some(n) => if string_views(self.existing@).contains(n) {
                a matches PublishAction::Skip { file } && file@ == n
            } else {
                a matches PublishAction::Upload { endpoint: e, path: p } && e.owner@
                    == self.owner@ && e.package@ == self.package@ && e.version@ == self.version@
                    && e.file@ == n && p@ == path
            },
        }
    }

    /// The phase that follows the action for the file at index `i`.
    pub open spec fn phase_after_file(&self, i: int) -> PublishPhase {
        if file_name_of(self.files@[i]@) is None {
            PublishPhase::Failed
        } else {
            PublishPhase::Transferring
        }
    }

    /// `a` reports this version as published.
    pub open spec fn is_finish(&self, a: PublishAction) -> bool {
        a matches PublishAction::Finish(v) && v.version@ == self.version@
    }

    /// Starts a publish. With no file it fails at once, before any request;
    /// otherwise the first action lists the files the version already holds.
    pub fn new(params: &OutParams) -> (r: (PublishSession, PublishAction))
        ensures
            r.0.wf(),
            r.0.owner@ == params.source.owner@,
            r.0.package@ == params.source.package@,
            r.0.version@ == params.params.version@,
            string_views(r.0.files@) == string_views(params.params.files@),
            r.0.files@.len() == params.params.files@.len(),
            params.params.files@.len() == 0 ==> r.0.phase is Failed && r.1 matches PublishAction::Fail(
                PublishError::NoFiles,
            ),
            params.params.files@.len() > 0 ==> r.0.phase is Listing && (r.1 matches PublishAction::List(
                e,
            ) && e.owner@ == params.source.owner@ && e.package@ == params.source.package@
                && e.version@ == params.params.version@),
    {
        let mut files: Vec<String> = Vec::new();
        let mut i: usize = 0;
        while i < params.params.files.len()
            invariant
                i <= params.params.files.len(),
                files@.len() == i,
                string_views(files@) == string_views(params.params.files@).take(i as int),
            decreases params.params.files.len() - i,
        {
            let f = params.params.files[i].clone();
            let ghost before = files@;
            files.push(f);
            assert(files@ =~= before.push(f));
            assert(string_views(files@) =~= string_views(params.params.files@).take(i + 1));
            i += 1;
        }
        assert(string_views(params.params.files@).take(i as int) =~= string_views(
            params.params.files@,
        ));
        assert(files@.len() == string_views(files@).len());
        let empty = files.len() == 0;
        let mut session = PublishSession {
            owner: params.source.owner.clone(),
            package: params.source.package.clone(),
            version: params.params.version.clone(),
            files,
            existing: Vec::new(),
            next: 0,
            phase: PublishPhase::Listing,
        };
        if empty {
            session.phase = PublishPhase::Failed;
            return (session, PublishAction::Fail(PublishError::NoFiles));
        }
        let endpoint = PackageFilesEndpoint {
            owner: session.owner.clone(),
            package: session.package.clone(),
            version: session.version.clone(),
        };
        (session, PublishAction::List(endpoint))
    }

    /// The action for the file at `next`, or the end of the publish when no file is left.
    fn advance(&mut self) -> (r: PublishAction)
        requires
            old(self).next <= old(self).files@.len(),
        ensures
            final(self).owner == old(self).owner,
            final(self).package == old(self).package,
            final(self).version == old(self).version,
            final(self).files == old(self).files,
            final(self).existing == old(self).existing,
            final(self).next == old(self).next,
            final(self).wf(),
            old(self).next < old(self).files@.len() ==> final(self).handles_file(
                r,
                old(self).next as int,
            ) && final(self).phase == final(self).phase_after_file(old(self).next as int),
            old(self).next == old(self).files@.len() ==> final(self).phase is Finished
                && final(self).is_finish(r),
    {
        if self.next >= self.files.len() {
            self.phase = PublishPhase::Finished;
            return PublishAction::Finish(Version { version: self.version.clone() });
        }
        let path = self.files[self.next].clone();
        match base_name(path.as_str()) {
            None => {
                self.phase = PublishPhase::Failed;
                PublishAction::Fail(PublishError::NoBaseName { path })
            },
            Some(name) => {
                self.phase = PublishPhase::Transferring;
                if holds_name(&self.existing, &name) {
                    PublishAction::Skip { file: name }
                } else {
                    let endpoint = PackageUploadEndpoint {
                        owner: self.owner.clone(),
                        package: self.package.clone(),
                        version: self.version.clone(),
                        file: name,
                    };
                    PublishAction::Upload { endpoint, path }
                }
            },
        }
    }

    /// Takes what came of the last action and decides the next one. A failed
    /// listing leaves no file known to exist; each file is then skipped when
    /// the version already holds its base name and uploaded otherwise, the
    /// skip-if-exists flag notwithstanding; a failed upload ends the publish
    /// with an error naming the file; after the last file the version is
    /// reported.
    pub fn step(&mut self, event: PublishEvent) -> (r: PublishAction)
        requires
            old(self).wf(),
            (old(self).phase is Listing && event is Listed) || (old(self).phase is Transferring
                && !(event is Listed)),
        ensures
            final(self).wf(),
            final(self).owner == old(self).owner,
            final(self).package == old(self).package,
            final(self).version == old(self).version,
            final(self).files == old(self).files,
            event matches PublishEvent::Listed(Ok(listed)) ==> string_views(final(self).existing@)
                == file_names(listed@),
            event matches PublishEvent::Listed(Err(_)) ==> final(self).existing@.len() == 0,
            event is Listed ==> final(self).next == 0 && final(self).handles_file(r, 0)
                && final(self).phase == final(self).phase_after_file(0),
            !(event is Listed) ==> final(self).existing == old(self).existing,
            event is Completed ==> final(self).next == old(self).next + 1,
            event is Completed && final(self).next < final(self).files@.len() ==> final(self).handles_file(r, final(self).next as int) && final(self).phase == final(self).phase_after_file(final(self).next as int),
            event is Completed && final(self).next == final(self).files@.len() ==> final(self).phase is Finished && final(self).is_finish(r),
            event is UploadFailed ==> final(self).phase is Failed,
            event matches PublishEvent::UploadFailed(f) ==> (r matches PublishAction::Fail(
                PublishError::UploadFailed { path, failure },
            ) && path@ == old(self).files@[old(self).next as int]@ && failure == f),
    {
        match event {
            PublishEvent::Listed(listed) => {
                self.existing = match listed {
                    Ok(files) => names_of(&files),
                    Err(_) => Vec::new(),
                };
                self.next = 0;
                self.advance()
            },
            PublishEvent::Completed => {
                // `next` indexes a file, so the length bounds the step past it.
                let _count = self.files.len();
                self.next = self.next + 1;
                self.advance()
            },
            PublishEvent::UploadFailed(failure) => {
                self.phase = PublishPhase::Failed;
                let path = self.files[self.next].clone();
                PublishAction::Fail(PublishError::UploadFailed { path, failure })
            },
        }
    }
}

} // verus!
