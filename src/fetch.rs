//! Fetching a version: list its files, then download them one at a time,
//! stopping at the first failure. The caller performs each action and hands
//! back what came of it.
use vstd::prelude::*;

use crate::endpoints::{PackageFileEndpoint, PackageFilesEndpoint};
use crate::models::{PackageFile, Version};
use crate::params::GetParams;

verus! {

/// The names of a list of files.
pub open spec fn file_names(files: Seq<PackageFile>) -> Seq<Seq<char>> {
    files.map_values(|f: PackageFile| f.name@)
}

/// The texts of a list of strings.
pub open spec fn string_views(s: Seq<String>) -> Seq<Seq<char>> {
    s.map_values(|x: String| x@)
}

/// Copies the names of `files`, in their order.
pub fn names_of(files: &Vec<PackageFile>) -> (r: Vec<String>)
    ensures
        string_views(r@) == file_names(files@),
{
    let mut out: Vec<String> = Vec::new();
    let mut i: usize = 0;
    while i < files.len()
        invariant
            i <= files.len(),
            out@.len() == i,
            string_views(out@) == file_names(files@).take(i as int),
        decreases files.len() - i,
    {
        let name = files[i].name.clone();
        let ghost before = out@;
        out.push(name);
        assert(out@ =~= before.push(name));
        assert(string_views(out@) =~= file_names(files@).take(i + 1));
        i += 1;
    }
    assert(file_names(files@).take(files.len() as int) =~= file_names(files@));
    out
}

/// Where a fetch stands.
#[derive(Debug, Clone, Copy, PartialEq, Eq)]
pub enum FetchPhase {
    /// Waiting for the version's file list.
    Listing,
    /// Waiting for the download of the file at `next`.
    Downloading,
    /// Every file was downloaded.
    Finished,
    /// A step failed; nothing is reported.
    Failed,
}

/// What came of the last action.
#[derive(Debug)]
pub enum FetchEvent {
    /// The version's file list, or the cause of the failure to get it.
    Listed(Result<Vec<PackageFile>, String>),
    /// The download completed, or the cause of its failure.
    Downloaded(Result<(), String>),
}

/// Why a fetch failed.
#[derive(Debug, Clone)]
pub enum FetchError {
    /// The version's files could not be listed.
    ListFailed { package: String, version: String, cause: String },
    /// The named file could not be downloaded.
    DownloadFailed { file: String, cause: String },
}

/// What the caller is to do next.
#[derive(Debug, Clone)]
pub enum FetchAction {
    /// Query this endpoint for the version's files.
    List(PackageFilesEndpoint),
    /// Download this file into the destination directory.
    Download(PackageFileEndpoint),
    /// Report this version as fetched.
    Finish(Version),
    /// Stop with this error and report nothing.
    Fail(FetchError),
}

/// The state of one fetch.
#[derive(Debug, Clone)]
pub struct FetchSession {
    pub owner: String,
    pub package: String,
    pub version: String,
    /// The names of the version's files, once listed.
    pub files: Vec<String>,
    /// The index of the file being downloaded.
    pub next: usize,
    pub phase: FetchPhase,
}

impl FetchSession {
    pub open spec fn wf(&self) -> bool {
        self.phase is Downloading ==> self.next < self.files@.len()
    }

    /// `a` lists this version's files.
    pub open spec fn is_list(&self, a: FetchAction) -> bool {
        a matches FetchAction::List(e) && e.owner@ == self.owner@ && e.package@ == self.package@
            && e.version@ == self.version@
    }

    /// `a` downloads the file at index `i`.
    pub open spec fn is_download(&self, a: FetchAction, i: int) -> bool {
        a matches FetchAction::Download(e) && e.owner@ == self.owner@ && e.package@
            == self.package@ && e.version@ == self.version@ && e.file@ == self.files@[i]@
    }

    /// `a` reports this version as fetched.
    pub open spec fn is_finish(&self, a: FetchAction) -> bool {
        a matches FetchAction::Finish(v) && v.version@ == self.version@
    }

    /// Starts a fetch: the first action lists the version's files.
    pub fn new(params: &GetParams) -> (r: (FetchSession, FetchAction))
        ensures
            r.0.wf(),
            r.0.phase is Listing,
            r.0.owner@ == params.source.owner@,
            r.0.package@ == params.source.package@,
            r.0.version@ == params.version.version@,
            r.0.is_list(r.1),
    {
        let session = FetchSession {
            owner: params.source.owner.clone(),
            package: params.source.package.clone(),
            version: params.version.version.clone(),
            files: Vec::new(),
            next: 0,
            phase: FetchPhase::Listing,
        };
        let endpoint = PackageFilesEndpoint {
            owner: session.owner.clone(),
            package: session.package.clone(),
            version: session.version.clone(),
        };
        (session, FetchAction::List(endpoint))
    }

    /// The download of the file at `next`, or the end of the fetch when no file is left.
    fn advance(&mut self) -> (r: FetchAction)
        requires
            old(self).next <= old(self).files@.len(),
        ensures
            final(self).owner == old(self).owner,
            final(self).package == old(self).package,
            final(self).version == old(self).version,
            final(self).files == old(self).files,
            final(self).next == old(self).next,
            final(self).wf(),
            old(self).next < old(self).files@.len() ==> final(self).phase is Downloading
                && final(self).is_download(r, old(self).next as int),
            old(self).next == old(self).files@.len() ==> final(self).phase is Finished
                && final(self).is_finish(r),
    {
        if self.next < self.files.len() {
            self.phase = FetchPhase::Downloading;
            let endpoint = PackageFileEndpoint {
                owner: self.owner.clone(),
                package: self.package.clone(),
                version: self.version.clone(),
                file: self.files[self.next].clone(),
            };
            FetchAction::Download(endpoint)
        } else {
            self.phase = FetchPhase::Finished;
            FetchAction::Finish(Version { version: self.version.clone() })
        }
    }

    /// Takes what came of the last action and decides the next one: a
    /// failed listing or download ends the fetch with an error naming the
    /// package and version or the file; each completed download moves on to
    /// the next file; after the last one the version is reported.
    pub fn step(&mut self, event: FetchEvent) -> (r: FetchAction)
        requires
            old(self).wf(),
            (old(self).phase is Listing && event is Listed) || (old(self).phase is Downloading
                && event is Downloaded),
        ensures
            final(self).wf(),
            final(self).owner == old(self).owner,
            final(self).package == old(self).package,
            final(self).version == old(self).version,
            event is Listed && event->Listed_0 is Err ==> final(self).phase is Failed,
            event matches FetchEvent::Listed(Err(cause)) ==> (r matches FetchAction::Fail(
                FetchError::ListFailed { package, version, cause: c },
            ) && package@ == old(self).package@ && version@ == old(self).version@ && c == cause),
            event matches FetchEvent::Listed(Ok(files)) ==> string_views(final(self).files@)
                == file_names(files@),
            event matches FetchEvent::Listed(Ok(files)) ==> final(self).next == 0,
            event matches FetchEvent::Listed(Ok(files)) && files@.len() == 0 ==> final(self).phase is Finished
                && final(self).is_finish(r),
            event matches FetchEvent::Listed(Ok(files)) && files@.len() > 0 ==> final(self).phase
                is Downloading && final(self).is_download(r, 0),
            event is Downloaded && event->Downloaded_0 is Err ==> final(self).phase is Failed,
            event matches FetchEvent::Downloaded(Err(cause)) ==> (r matches FetchAction::Fail(
                FetchError::DownloadFailed { file, cause: c },
            ) && file@ == old(self).files@[old(self).next as int]@ && c == cause),
            event is Downloaded ==> final(self).files == old(self).files,
            event matches FetchEvent::Downloaded(Ok(())) ==> (final(self).next == old(self).next
                + 1 && if final(self).next == final(self).files@.len() {
                final(self).phase is Finished && final(self).is_finish(r)
            } else {
                final(self).phase is Downloading && final(self).is_download(
                    r,
                    final(self).next as int,
                )
            }),
    {
        match event {
            FetchEvent::Listed(Err(cause)) => {
                self.phase = FetchPhase::Failed;
                FetchAction::Fail(
                    FetchError::ListFailed {
                        package: self.package.clone(),
                        version: self.version.clone(),
                        cause,
                    },
                )
            },
            FetchEvent::Listed(Ok(files)) => {
                self.files = names_of(&files);
                self.next = 0;
                assert(string_views(self.files@).len() == self.files@.len());
                self.advance()
            },
            FetchEvent::Downloaded(Err(cause)) => {
                self.phase = FetchPhase::Failed;
                let file = self.files[self.next].clone();
                FetchAction::Fail(FetchError::DownloadFailed { file, cause })
            },
            FetchEvent::Downloaded(Ok(())) => {
                // `next` indexes a file, so the length bounds the step past it.
                let _count = self.files.len();
                self.next = self.next + 1;
                self.advance()
            },
        }
    }
}

} // verus!
