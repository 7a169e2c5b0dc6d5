//! Unpacking a downloaded archive into the directory of an install.
//!
//! The library decides, the caller writes: an `Extraction` hands out one
//! action at a time, the caller performs it on the disk, says so where the
//! disk refused, and asks for the next. Nothing is written under a name
//! that leaves the target directory, and after the first failure nothing is
//! handed out any more.

use vstd::prelude::*;

use crate::archive::{names_directory, zip_archive_of, Archive};
use crate::error::PipelineError;
use crate::path::{
    entry_destination, entry_path, escapes, instance_dir, instance_directory, joined, without_root,
};
use crate::platform::Variant;
use crate::release::GodotVersion;

verus! {

/// What the caller is to do next.
#[derive(Debug, PartialEq, Eq)]
pub enum Action {
    /// Create this directory and the missing ones above it; one that exists
    /// is no error.
    CreateDir(String),
    /// Write a file at this path with this content.
    WriteFile(String, Vec<u8>),
    /// Everything is unpacked; this many files were written.
    Finished(usize),
    /// The extraction has failed and stays failed.
    Failed(PipelineError),
}

/// One download to be unpacked: which version, which variant, and where to.
pub struct AcquisitionRequest<'a> {
    pub version: &'a GodotVersion,
    pub variant: Variant,
    pub target_directory: String,
}

/// The state of unpacking one archive.
pub struct Extraction {
    archive: Archive,
    target: String,
    prepared: bool,
    position: usize,
    written: usize,
    halted: Option<PipelineError>,
}

/// Number of the first `upto` entries that are files.
pub open spec fn files_before(entries: Seq<(Seq<char>, Option<Seq<u8>>)>, upto: int) -> nat
    decreases upto,
{
    if upto <= 0 {
        0
    } else {
        let earlier = files_before(entries, upto - 1);
        if names_directory(entries[upto - 1].0) {
            earlier
        } else {
            earlier + 1
        }
    }
}

/// There are no more files among the first entries than entries.
pub proof fn lemma_files_before_bounded(entries: Seq<(Seq<char>, Option<Seq<u8>>)>, upto: int)
    requires
        0 <= upto,
    ensures
        files_before(entries, upto) <= upto,
    decreases upto,
{
    if upto > 0 {
        lemma_files_before_bounded(entries, upto - 1);
    }
}

impl<'a> AcquisitionRequest<'a> {
    /// The request to install `version` in `variant` below the application's
    /// data directory. The target directory is made of the version's tag and
    /// the variant, and of nothing else.
    pub fn new(version: &'a GodotVersion, variant: Variant, app_data: &str) -> (request: Self)
        ensures
            request.version == version,
            request.variant == variant,
            request.target_directory@ == instance_directory(app_data@, variant, version.tag@),
    {
        AcquisitionRequest {
            version,
            variant,
            target_directory: instance_dir(app_data, variant, version.tag.as_str()),
        }
    }
}

impl Extraction {
    /// The entries of the archive, in its order: of each its name, and its
    /// content where the entry can be read.
    pub closed spec fn entries(&self) -> Seq<(Seq<char>, Option<Seq<u8>>)> {
        self.archive.entries()
    }

    /// The directory that everything is written below.
    pub closed spec fn target(&self) -> Seq<char> {
        self.target@
    }

    /// The target directory has been handed out for creation.
    pub closed spec fn prepared(&self) -> bool {
        self.prepared
    }

    /// Number of entries dealt with.
    pub closed spec fn position(&self) -> nat {
        self.position as nat
    }

    /// Number of files handed out for writing.
    pub closed spec fn written(&self) -> nat {
        self.written as nat
    }

    /// The failure that has ended the extraction, if one has.
    pub closed spec fn halted(&self) -> Option<PipelineError> {
        self.halted
    }

    /// The counters fit the archive.
    pub open spec fn wf(&self) -> bool {
        &&& self.position() <= self.entries().len()
        &&& self.written() == files_before(self.entries(), self.position() as int)
    }

    /// `other` has come as far as `self`: the same flag and the same counters.
    pub open spec fn same_progress(&self, other: &Extraction) -> bool {
        &&& other.prepared() == self.prepared()
        &&& other.position() == self.position()
        &&& other.written() == self.written()
    }

    /// `action` is what follows the state `self`, and `after` is the state
    /// that it leaves.
    ///
    /// An extraction that has failed answers with its failure and stays as
    /// it is. Otherwise the target directory comes first. Then each entry in
    /// turn: a directory is created and a file written at the entry's place
    /// below the target; an entry whose place would be outside is refused,
    /// and so is one that cannot be read, and either ends the extraction.
    /// After the last entry the number of files written is reported.
    pub open spec fn follows(&self, action: Action, after: &Extraction) -> bool {
        let entries = self.entries();
        let at = self.position() as int;
        if self.halted() is Some {
            &&& action matches Action::Failed(e)
            &&& self.halted() == Some(e)
            &&& self.same_progress(after)
            &&& after.halted() == self.halted()
        } else if !self.prepared() {
            &&& action matches Action::CreateDir(path)
            &&& path@ == self.target()
            &&& after.prepared()
            &&& after.position() == self.position()
            &&& after.written() == self.written()
            &&& after.halted() is None
        } else if at >= entries.len() {
            &&& action matches Action::Finished(count)
            &&& count == self.written()
            &&& self.same_progress(after)
            &&& after.halted() is None
        } else {
            let name = entries[at].0;
            match action {
                Action::CreateDir(path) => {
                    &&& names_directory(name)
                    &&& entry_destination(self.target(), name) == Ok::<Seq<char>, PipelineError>(
                        path@,
                    )
                    &&& after.prepared()
                    &&& after.position() == self.position() + 1
                    &&& after.written() == self.written()
                    &&& after.halted() is None
                },
                Action::WriteFile(path, data) => {
                    &&& !names_directory(name)
                    &&& entry_destination(self.target(), name) == Ok::<Seq<char>, PipelineError>(
                        path@,
                    )
                    &&& entries[at].1 == Some(data@)
                    &&& after.prepared()
                    &&& after.position() == self.position() + 1
                    &&& after.written() == self.written() + 1
                    &&& after.halted() is None
                },
                Action::Failed(e) => {
                    &&& self.same_progress(after)
                    &&& after.halted() == Some(e)
                    &&& match e {
                        PipelineError::UnsafeArchiveEntry => escapes(without_root(name)),
                        PipelineError::CorruptArchive => entries[at].1 is None,
                        _ => false,
                    }
                },
                Action::Finished(_) => false,
            }
        }
    }

    /// The extraction of `archive` into `target`, with nothing done yet.
    pub fn new(archive: Archive, target: String) -> (extraction: Self)
        ensures
            extraction.wf(),
            extraction.entries() == archive.entries(),
            extraction.target() == target@,
            !extraction.prepared(),
            extraction.position() == 0,
            extraction.written() == 0,
            extraction.halted() is None,
    {
        Extraction { archive, target, prepared: false, position: 0, written: 0, halted: None }
    }

    /// The next action, and the step to the state after it.
    pub fn next_action(&mut self) -> (action: Action)
        requires
            old(self).wf(),
        ensures
            final(self).wf(),
            final(self).entries() == old(self).entries(),
            final(self).target() == old(self).target(),
            old(self).follows(action, final(self)),
    {
        if let Some(e) = self.halted {
            return Action::Failed(e);
        }
        if !self.prepared {
            self.prepared = true;
            return Action::CreateDir(self.target.clone());
        }
        let count = self.archive.len();
        if self.position >= count {
            return Action::Finished(self.written);
        }
        let (name, is_dir) = match self.archive.entry_name(self.position) {
            Ok(head) => head,
            Err(e) => {
                self.halted = Some(e);
                return Action::Failed(e);
            },
        };
        let path = match entry_path(self.target.as_str(), name.as_str()) {
            Ok(path) => path,
            Err(e) => {
                self.halted = Some(e);
                return Action::Failed(e);
            },
        };
        if is_dir {
            self.position = self.position + 1;
            return Action::CreateDir(path);
        }
        let data = match self.archive.entry_content(self.position) {
            Ok(data) => data,
            Err(e) => {
                self.halted = Some(e);
                return Action::Failed(e);
            },
        };
        proof {
            lemma_files_before_bounded(self.entries(), self.position as int);
        }
        self.position = self.position + 1;
        self.written = self.written + 1;
        Action::WriteFile(path, data)
    }

    /// Tells the extraction that the disk refused the action handed out
    /// last. That ends the extraction: the next answer is the failure of the
    /// file system, unless the extraction had failed before.
    pub fn disk_failed(&mut self)
        ensures
            final(self).entries() == old(self).entries(),
            final(self).target() == old(self).target(),
            old(self).same_progress(final(self)),
            old(self).wf() ==> final(self).wf(),
            final(self).halted() == Some(
                match old(self).halted() {
                    Some(e) => e,
                    None => PipelineError::Filesystem,
                },
            ),
    {
        if self.halted.is_none() {
            self.halted = Some(PipelineError::Filesystem);
        }
    }

    /// Whether everything has been handed out and nothing has failed.
    pub fn is_finished(&self) -> (r: bool)
        ensures
            r == (self.halted() is None && self.prepared() && self.position()
                >= self.entries().len()),
    {
        self.halted.is_none() && self.prepared && self.position >= self.archive.len()
    }

    /// Number of files handed out for writing so far.
    pub fn files_written(&self) -> (n: usize)
        ensures
            n == self.written(),
    {
        self.written
    }

    /// The directory that everything is written below.
    pub fn target_directory(&self) -> (dir: &str)
        ensures
            dir@ == self.target(),
    {
        self.target.as_str()
    }
}

/// Whatever is handed out for the disk lies at or below the target
/// directory: the target itself, or the target, a `/`, and a relative path
/// that stays inside.
pub proof fn law_actions_stay_below_target(before: Extraction, action: Action, after: Extraction)
    requires
        before.follows(action, &after),
    ensures
        match action {
            Action::CreateDir(path) => path@ == before.target() || exists|relative: Seq<char>|
                path@ == #[trigger] joined(before.target(), relative) && !escapes(relative),
            Action::WriteFile(path, _) => exists|relative: Seq<char>|
                path@ == #[trigger] joined(before.target(), relative) && !escapes(relative),
            _ => true,
        },
{
    if before.halted() is None && before.prepared() && before.position() < before.entries().len() {
        let name = before.entries()[before.position() as int].0;
        let relative = without_root(name);
        match action {
            Action::CreateDir(path) => {
                assert(path@ == joined(before.target(), relative) && !escapes(relative));
            },
            Action::WriteFile(path, _) => {
                assert(path@ == joined(before.target(), relative) && !escapes(relative));
            },
            _ => {},
        }
    }
}

/// An entry whose place would be outside the target is refused, not passed
/// over: the action that follows is a failure, and it ends the extraction.
pub proof fn law_unsafe_entry_is_refused(before: Extraction, action: Action, after: Extraction)
    requires
        before.follows(action, &after),
        before.halted() is None,
        before.prepared(),
        before.position() < before.entries().len(),
        escapes(without_root(before.entries()[before.position() as int].0)),
    ensures
        action is Failed,
        after.halted() is Some,
        before.same_progress(&after),
{
}

/// An entry that can be read and whose place is inside the target is never
/// refused.
pub proof fn law_sound_entry_is_unpacked(before: Extraction, action: Action, after: Extraction)
    requires
        before.follows(action, &after),
        before.halted() is None,
        before.prepared(),
        before.position() < before.entries().len(),
        !escapes(without_root(before.entries()[before.position() as int].0)),
        before.entries()[before.position() as int].1 is Some,
    ensures
        action is CreateDir || action is WriteFile,
        after.position() == before.position() + 1,
        after.halted() is None,
{
}

/// After a failure nothing is handed out for the disk and no success is
/// reported: the extraction answers with the same failure from then on.
pub proof fn law_failure_is_final(before: Extraction, action: Action, after: Extraction)
    requires
        before.follows(action, &after),
        before.halted() is Some,
    ensures
        action == Action::Failed(before.halted()->0),
        after.halted() == before.halted(),
        before.same_progress(&after),
{
}

/// The number reported at the end is the number of file entries of the
/// archive, and it is reported only where nothing has failed.
pub proof fn law_finished_counts_files(before: Extraction, action: Action, after: Extraction)
    requires
        before.wf(),
        before.follows(action, &after),
        action is Finished,
    ensures
        before.halted() is None,
        action->Finished_0 == files_before(before.entries(), before.entries().len() as int),
{
}

/// Starts unpacking the downloaded `bytes` for `request`.
///
/// Bytes that are no archive are refused as corrupt before anything is
/// handed out for the disk.
pub fn download_godot(bytes: Vec<u8>, request: AcquisitionRequest<'_>) -> (started: Result<
    Extraction,
    PipelineError,
>)
    ensures
        match started {
            Ok(extraction) => {
                &&& zip_archive_of(bytes@) == Some(extraction.entries())
                &&& extraction.target() == request.target_directory@
                &&& extraction.wf()
                &&& !extraction.prepared()
                &&& extraction.position() == 0
                &&& extraction.written() == 0
                &&& extraction.halted() is None
            },
            Err(e) => e == PipelineError::CorruptArchive && zip_archive_of(bytes@) is None,
        },
{
    match Archive::open(bytes) {
        Ok(archive) => Ok(Extraction::new(archive, request.target_directory)),
        Err(e) => Err(e),
    }
}

} // verus!
