//! The resource store: a flat directory of `<title>.<ext>` audio files and
//! `<title>.json` metadata files.
//!
//! The store decides; the caller performs. Creating a resource is a
//! [`CreateTask`] that names, one at a time, the filesystem step to take next
//! ([`CreateTask::action`]) and is advanced with what that step gave
//! ([`CreateTask::advance`]). Listing is split the same way: the store picks
//! the metadata files out of a directory listing and assembles the records
//! that were read from them.
//!
//! The existence check and the writes that follow it are not atomic: two
//! creates of one title that run at the same time may both pass the check.
//! The store assumes a single writer per title.

use crate::error::Error;
use crate::path::{
    file_name, file_name_spec, is_metadata_name, join, join_spec, json_ext, metadata_name,
};
use crate::resource::{Files, Resource};
use crate::sniff::{sniff_audio, sniffed_ext, sniffs_as_audio};
use base64::prelude::BASE64_STANDARD;
use base64::Engine;
use vstd::prelude::*;

verus! {

/// The bytes that standard, padded base64 decodes a text to, or `None` where
/// the text is not valid base64.
pub uninterp spec fn base64_decoded(text: Seq<char>) -> Option<Seq<u8>>;

/// Relies on base64's `Engine::decode` with the `BASE64_STANDARD` engine: the
/// result depends on the text alone, and every failure is a `DecodeError`.
#[verifier::external_body]
fn decode_base64(text: &str) -> (r: Result<Vec<u8>, base64::DecodeError>)
    ensures
        match r {
            Ok(bytes) => base64_decoded(text@) == Some(bytes@),
            Err(_) => base64_decoded(text@) is None,
        },
{
    BASE64_STANDARD.decode(text)
}

/// A store rooted at one directory.
#[derive(Debug, Clone)]
pub struct Project {
    resource_path: String,
}

impl Project {
    /// The store's directory.
    pub closed spec fn dir(&self) -> Seq<char> {
        self.resource_path@
    }

    /// A store over the directory `resource_path`.
    pub fn new(resource_path: String) -> (r: Project)
        ensures
            r.dir() == resource_path@,
    {
        Project { resource_path }
    }

    /// The store's directory.
    pub fn resource_path(&self) -> (r: &str)
        ensures
            r@ == self.dir(),
    {
        self.resource_path.as_str()
    }
}

/// Where a create stands.
#[derive(Debug, Clone, Copy, PartialEq, Eq, Structural)]
pub enum Phase {
    /// Waiting to learn whether the title's metadata file exists.
    Checking,
    /// Waiting for a clock reading for the new record.
    Stamping,
    /// Waiting for the audio file to be written; holds the record's time stamp.
    WritingAudio(u64),
    /// Waiting for the metadata file to be written; holds the record's time stamp.
    WritingRecord(u64),
    /// Done: the record with this time stamp was stored.
    Created(u64),
    /// Done: the create failed with this error.
    Failed(Error),
}

/// What a filesystem step gave back.
#[derive(Debug, Clone, Copy, PartialEq, Eq, Structural)]
pub enum StoreEvent {
    /// Whether the checked path exists.
    Exists(bool),
    /// Seconds since the Unix epoch, or `None` where the clock could not be read.
    Clock(Option<u64>),
    /// The requested write completed.
    Written,
    /// The step failed; the error is the kind it is reported as.
    Failed(Error),
}

/// The next filesystem step of a create.
#[derive(Debug)]
pub enum StoreAction {
    /// Check whether the file at this path exists.
    CheckExists(String),
    /// Read the wall clock.
    ReadClock,
    /// Write these bytes to the file at this path.
    WriteFile(String, Vec<u8>),
    /// Write this record, serialised, to the metadata file at this path.
    WriteMetadata(String, Resource),
    /// Nothing more to do: this is the outcome.
    Finish(Result<Resource, Error>),
}

/// A create in progress: the validated upload, the paths it goes to, and its phase.
#[derive(Debug)]
pub struct CreateTask {
    pub title: String,
    pub audio_file: String,
    pub json_file: String,
    pub audio_data: Vec<u8>,
    pub phase: Phase,
}

/// Whether a phase is final.
pub open spec fn is_done(p: Phase) -> bool {
    p is Created || p is Failed
}

/// The phase that a create moves to when a step gives `ev`. A failure ends
/// an unfinished create; any other event that does not answer the phase's
/// step leaves the phase as it is.
pub open spec fn next_phase(p: Phase, ev: StoreEvent) -> Phase {
    match (p, ev) {
        (Phase::Checking, StoreEvent::Exists(true)) => Phase::Failed(Error::AlreadyExists),
        (Phase::Checking, StoreEvent::Exists(false)) => Phase::Stamping,
        (Phase::Stamping, StoreEvent::Clock(c)) => Phase::WritingAudio(
            match c {
                Some(t) => t,
                None => 0,
            },
        ),
        (Phase::WritingAudio(t), StoreEvent::Written) => Phase::WritingRecord(t),
        (Phase::WritingRecord(t), StoreEvent::Written) => Phase::Created(t),
        (_, StoreEvent::Failed(e)) => if is_done(p) {
            p
        } else {
            Phase::Failed(e)
        },
        _ => p,
    }
}

impl CreateTask {
    /// The record that the task stores, with time stamp `t`.
    pub open spec fn record(&self, t: u64) -> Resource {
        Resource { title: self.title, audio_file: self.audio_file, time_stamp: t }
    }

    /// Whether `self` is a fresh task that stores `title` in `project`: the
    /// audio file named by the title and the extension `ext`, the metadata
    /// file by the title, nothing done yet.
    pub open spec fn prepared(&self, project: &Project, title: Seq<char>, ext: Seq<char>) -> bool {
        &&& self.title@ == title
        &&& self.audio_file@ == join_spec(project.dir(), file_name_spec(title, ext))
        &&& self.json_file@ == join_spec(project.dir(), metadata_name(title))
        &&& self.phase == Phase::Checking
    }

    /// Whether `self` is the task that `project` starts for `files`: the
    /// payload decoded and sniffed as audio, and the task prepared with the
    /// sniffed extension.
    pub open spec fn started(&self, project: &Project, files: &Files) -> bool {
        &&& base64_decoded(files.audio_data@) == Some(self.audio_data@)
        &&& sniffs_as_audio(self.audio_data@)
        &&& self.prepared(project, files.title@, sniffed_ext(self.audio_data@))
    }

    /// Whether `a` is the step that the task asks for in its phase.
    pub open spec fn asks(&self, a: &StoreAction) -> bool {
        match self.phase {
            Phase::Checking => a matches StoreAction::CheckExists(p) && p@ == self.json_file@,
            Phase::Stamping => a is ReadClock,
            Phase::WritingAudio(_) => a matches StoreAction::WriteFile(p, b) && p@
                == self.audio_file@ && b@ == self.audio_data@,
            Phase::WritingRecord(t) => a matches StoreAction::WriteMetadata(p, r) && p@
                == self.json_file@ && r == self.record(t),
            Phase::Created(t) => a matches StoreAction::Finish(Ok(r)) && r == self.record(t),
            Phase::Failed(e) => a matches StoreAction::Finish(Err(f)) && f == e,
        }
    }

    /// The step that the task asks for now.
    pub fn action(&self) -> (r: StoreAction)
        ensures
            self.asks(&r),
    {
        match self.phase {
            Phase::Checking => StoreAction::CheckExists(self.json_file.clone()),
            Phase::Stamping => StoreAction::ReadClock,
            Phase::WritingAudio(_) => {
                let bytes = self.audio_data.clone();
                assert(bytes@ =~= self.audio_data@);
                StoreAction::WriteFile(self.audio_file.clone(), bytes)
            },
            Phase::WritingRecord(t) => StoreAction::WriteMetadata(
                self.json_file.clone(),
                self.make_record(t),
            ),
            Phase::Created(t) => StoreAction::Finish(Ok(self.make_record(t))),
            Phase::Failed(e) => StoreAction::Finish(Err(e)),
        }
    }

    fn make_record(&self, t: u64) -> (r: Resource)
        ensures
            r == self.record(t),
    {
        Resource { title: self.title.clone(), audio_file: self.audio_file.clone(), time_stamp: t }
    }

    /// Moves the task on with what its step gave.
    pub fn advance(&mut self, ev: StoreEvent)
        ensures
            final(self).phase == next_phase(old(self).phase, ev),
            final(self).title == old(self).title,
            final(self).audio_file == old(self).audio_file,
            final(self).json_file == old(self).json_file,
            final(self).audio_data == old(self).audio_data,
    {
        let next = match (self.phase, ev) {
            (Phase::Checking, StoreEvent::Exists(true)) => Phase::Failed(Error::AlreadyExists),
            (Phase::Checking, StoreEvent::Exists(false)) => Phase::Stamping,
            (Phase::Stamping, StoreEvent::Clock(c)) => Phase::WritingAudio(
                match c {
                    Some(t) => t,
                    None => 0,
                },
            ),
            (Phase::WritingAudio(t), StoreEvent::Written) => Phase::WritingRecord(t),
            (Phase::WritingRecord(t), StoreEvent::Written) => Phase::Created(t),
            (Phase::Created(_), _) | (Phase::Failed(_), _) => self.phase,
            (_, StoreEvent::Failed(e)) => Phase::Failed(e),
            _ => self.phase,
        };
        self.phase = next;
    }

    /// Whether the task has reached its outcome.
    pub fn is_finished(&self) -> (r: bool)
        ensures
            r == is_done(self.phase),
    {
        match self.phase {
            Phase::Created(_) | Phase::Failed(_) => true,
            _ => false,
        }
    }
}

impl Project {
    /// The task that stores `audio_data` under `title`, given the extension
    /// that the payload's signature gave it as audio; `InvalidFileType` where
    /// it gave none.
    pub fn task_for(&self, title: String, audio_data: Vec<u8>, ext: Option<String>) -> (r: Result<
        CreateTask,
        Error,
    >)
        ensures
            match ext {
                Some(e) => r matches Ok(t) && t.prepared(self, title@, e@) && t.audio_data
                    == audio_data,
                None => r == Err::<CreateTask, Error>(Error::InvalidFileType),
            },
    {
        let ext = match ext {
            Some(ext) => ext,
            None => return Err(Error::InvalidFileType),
        };
        let json = "json";
        proof {
            reveal_strlit("json");
        }
        assert(json@ =~= json_ext());
        let audio_file = join(
            self.resource_path.as_str(),
            file_name(title.as_str(), ext.as_str()).as_str(),
        );
        let json_file = join(self.resource_path.as_str(), file_name(title.as_str(), json).as_str());
        Ok(CreateTask { title, audio_file, json_file, audio_data, phase: Phase::Checking })
    }

    /// Starts creating a resource from an upload.
    ///
    /// The payload is decoded from base64 (`Conversion` where it is not valid
    /// base64) and sniffed (`InvalidFileType` where its signature is not
    /// audio); both checks come before any filesystem step. Otherwise the
    /// task's first step is the existence check of the title's metadata file.
    pub fn begin_create(&self, files: Files) -> (r: Result<CreateTask, Error>)
        ensures
            match base64_decoded(files.audio_data@) {
                None => r == Err::<CreateTask, Error>(Error::Conversion),
                Some(bytes) => if sniffs_as_audio(bytes) {
                    r matches Ok(t) && t.started(self, &files)
                } else {
                    r == Err::<CreateTask, Error>(Error::InvalidFileType)
                },
            },
    {
        let audio_data = match decode_base64(files.audio_data.as_str()) {
            Ok(bytes) => bytes,
            Err(e) => return Err(Error::from(e)),
        };
        let ext = sniff_audio(audio_data.as_slice());
        self.task_for(files.title, audio_data, ext)
    }
}

/// What a file of the store directory holds: an audio payload, or the
/// record that a metadata file serialises.
pub enum Stored {
    Data(Seq<u8>),
    Record(Resource),
}

/// What a step gives when performed on the directory `dir` (paths to
/// contents) with the clock reading `clock`, where every step succeeds.
pub open spec fn reply(t: CreateTask, dir: Map<Seq<char>, Stored>, clock: Option<u64>) -> StoreEvent {
    match t.phase {
        Phase::Checking => StoreEvent::Exists(dir.contains_key(t.json_file@)),
        Phase::Stamping => StoreEvent::Clock(clock),
        _ => StoreEvent::Written,
    }
}

/// The directory after the task's current step is performed on it.
pub open spec fn effect(t: CreateTask, dir: Map<Seq<char>, Stored>) -> Map<Seq<char>, Stored> {
    match t.phase {
        Phase::WritingAudio(_) => dir.insert(t.audio_file@, Stored::Data(t.audio_data@)),
        Phase::WritingRecord(ts) => dir.insert(t.json_file@, Stored::Record(t.record(ts))),
        _ => dir,
    }
}

/// The task and directory after at most `steps` steps, each performed and
/// answered as `reply` and `effect` say; a finished task takes no step.
pub open spec fn run(t: CreateTask, dir: Map<Seq<char>, Stored>, clock: Option<u64>, steps: nat) -> (
    CreateTask,
    Map<Seq<char>, Stored>,
)
    decreases steps,
{
    if steps == 0 || is_done(t.phase) {
        (t, dir)
    } else {
        let next = CreateTask { phase: next_phase(t.phase, reply(t, dir, clock)), ..t };
        run(next, effect(t, dir), clock, (steps - 1) as nat)
    }
}

/// Whether the entry `n` of the store directory `d` is listed: it is a
/// metadata file that exists.
pub open spec fn listed(d: Seq<char>, dir: Map<Seq<char>, Stored>, n: Seq<char>) -> bool {
    is_metadata_name(n) && dir.contains_key(join_spec(d, n))
}

/// Whether every listed entry holds the record of the title it is named by;
/// a listing of such a directory succeeds.
pub open spec fn consistent(d: Seq<char>, dir: Map<Seq<char>, Stored>) -> bool {
    forall|n: Seq<char>|
        #[trigger] listed(d, dir, n) ==> (dir[join_spec(d, n)] matches Stored::Record(r)
            && metadata_name(r.title@) == n)
}

/// The listed entries whose record has the title `title`.
pub open spec fn entries_titled(d: Seq<char>, dir: Map<Seq<char>, Stored>, title: Seq<char>) -> Set<
    Seq<char>,
> {
    Set::new(
        |n: Seq<char>|
            listed(d, dir, n) && (dir[join_spec(d, n)] matches Stored::Record(r) && r.title@
                == title),
    )
}

/// A title with a separator is a path into another directory, and an empty
/// one names a hidden file without extension: neither is listed.
pub open spec fn plain_title(title: Seq<char>) -> bool {
    title.len() > 0 && !title.contains('/')
}

proof fn lemma_metadata_name_listed(title: Seq<char>)
    requires
        plain_title(title),
    ensures
        is_metadata_name(metadata_name(title)),
{
    let n = metadata_name(title);
    assert(n.subrange(n.len() - 5, n.len() as int) =~= seq!['.'] + json_ext());
    assert forall|i: int| 0 <= i < n.len() implies n[i] != '/' by {
        if i < title.len() {
            assert(n[i] == title[i]);
        }
    }
}

/// Creating a resource whose title is new to a consistent store directory,
/// and then listing the directory, lists exactly one entry with that title:
/// the record created, stamped with the clock reading taken during the
/// create, which is no earlier than any reading `before` taken ahead of it.
///
/// The audio file must not take the name of another title's metadata file.
pub proof fn lemma_create_then_list(
    project: &Project,
    files: &Files,
    task: CreateTask,
    dir: Map<Seq<char>, Stored>,
    before: u64,
    now: u64,
)
    requires
        task.started(project, files),
        plain_title(files.title@),
        consistent(project.dir(), dir),
        !dir.contains_key(task.json_file@),
        is_metadata_name(file_name_spec(files.title@, sniffed_ext(task.audio_data@)))
            ==> file_name_spec(files.title@, sniffed_ext(task.audio_data@)) == metadata_name(
            files.title@,
        ),
        before <= now,
    ensures
        ({
            let (done, after) = run(task, dir, Some(now), 4);
            &&& done.phase == Phase::Created(now)
            &&& consistent(project.dir(), after)
            &&& entries_titled(project.dir(), after, files.title@) == set![
                metadata_name(files.title@),
            ]
            &&& after[task.json_file@] == Stored::Record(done.record(now))
            &&& before <= done.record(now).time_stamp
        }),
{
    let d = project.dir();
    let title = files.title@;
    let audio_name = file_name_spec(title, sniffed_ext(task.audio_data@));
    let meta = metadata_name(title);
    let t1 = CreateTask { phase: Phase::Stamping, ..task };
    let t2 = CreateTask { phase: Phase::WritingAudio(now), ..task };
    let t3 = CreateTask { phase: Phase::WritingRecord(now), ..task };
    let t4 = CreateTask { phase: Phase::Created(now), ..task };
    let dir3 = dir.insert(task.audio_file@, Stored::Data(task.audio_data@));
    let after = dir3.insert(task.json_file@, Stored::Record(task.record(now)));
    assert(run(t4, after, Some(now), 0) == (t4, after));
    assert(run(t3, dir3, Some(now), 1) == (t4, after));
    assert(run(t2, dir, Some(now), 2) == (t4, after));
    assert(run(t1, dir, Some(now), 3) == (t4, after));
    assert(run(task, dir, Some(now), 4) == (t4, after));
    lemma_metadata_name_listed(title);
    assert forall|n: Seq<char>| #[trigger] listed(d, after, n) implies (after[join_spec(d, n)] matches Stored::Record(r)
        && metadata_name(r.title@) == n) by {
        if join_spec(d, n) == task.json_file@ {
            crate::path::lemma_join_injective(d, n, meta);
        } else if join_spec(d, n) == task.audio_file@ {
            crate::path::lemma_join_injective(d, n, audio_name);
        } else {
            assert(listed(d, dir, n));
        }
    }
    assert forall|n: Seq<char>| entries_titled(d, after, title).contains(n) <==> n == meta by {
        if n == meta {
            assert(listed(d, after, n));
        }
        if entries_titled(d, after, title).contains(n) {
            assert(listed(d, after, n));
        }
    }
    assert(entries_titled(d, after, title) =~= set![meta]);
}

/// Creating a resource whose title already has a metadata file fails with
/// `AlreadyExists` after its first step and leaves the directory exactly as
/// it was.
pub proof fn lemma_create_existing_title(
    project: &Project,
    files: &Files,
    task: CreateTask,
    dir: Map<Seq<char>, Stored>,
    clock: Option<u64>,
    steps: nat,
)
    requires
        task.started(project, files),
        dir.contains_key(task.json_file@),
        steps >= 1,
    ensures
        run(task, dir, clock, steps).0.phase == Phase::Failed(Error::AlreadyExists),
        run(task, dir, clock, steps).1 == dir,
{
    let t1 = CreateTask { phase: Phase::Failed(Error::AlreadyExists), ..task };
    assert(run(t1, dir, clock, (steps - 1) as nat) == (t1, dir));
}

/// The task and directory after the steps answered, in order, by `events`,
/// which may report failures: a write changes the directory only where it is
/// answered `Written`. A finished task takes no step.
pub open spec fn run_events(t: CreateTask, dir: Map<Seq<char>, Stored>, events: Seq<StoreEvent>) -> (
    CreateTask,
    Map<Seq<char>, Stored>,
)
    decreases events.len(),
{
    if events.len() == 0 || is_done(t.phase) {
        (t, dir)
    } else {
        let ev = events[0];
        let next = CreateTask { phase: next_phase(t.phase, ev), ..t };
        let changed = if ev == StoreEvent::Written {
            effect(t, dir)
        } else {
            dir
        };
        run_events(next, changed, events.drop_first())
    }
}

/// How far a create has changed the directory `before`, by its phase.
pub open spec fn written_so_far(
    t: CreateTask,
    before: Map<Seq<char>, Stored>,
    dir: Map<Seq<char>, Stored>,
) -> bool {
    let with_audio = before.insert(t.audio_file@, Stored::Data(t.audio_data@));
    match t.phase {
        Phase::Checking | Phase::Stamping | Phase::WritingAudio(_) => dir == before,
        Phase::WritingRecord(_) => dir == with_audio,
        Phase::Created(ts) => dir == with_audio.insert(t.json_file@, Stored::Record(t.record(ts))),
        Phase::Failed(_) => dir == before || dir == with_audio,
    }
}

proof fn lemma_run_events_written(
    t: CreateTask,
    before: Map<Seq<char>, Stored>,
    dir: Map<Seq<char>, Stored>,
    events: Seq<StoreEvent>,
)
    requires
        written_so_far(t, before, dir),
    ensures
        written_so_far(run_events(t, dir, events).0, before, run_events(t, dir, events).1),
        run_events(t, dir, events).0.audio_file == t.audio_file,
        run_events(t, dir, events).0.json_file == t.json_file,
        run_events(t, dir, events).0.audio_data == t.audio_data,
        run_events(t, dir, events).0.title == t.title,
    decreases events.len(),
{
    if events.len() > 0 && !is_done(t.phase) {
        let ev = events[0];
        let next = CreateTask { phase: next_phase(t.phase, ev), ..t };
        let changed = if ev == StoreEvent::Written {
            effect(t, dir)
        } else {
            dir
        };
        lemma_run_events_written(next, before, changed, events.drop_first());
    }
}

/// A create answered by any sequence of step results, failures included:
/// where it fails, the directory is unchanged or holds just one more file,
/// the audio payload at the task's audio path; and a metadata record it
/// wrote always has its audio file beside it.
pub proof fn lemma_create_failure_safety(
    project: &Project,
    files: &Files,
    task: CreateTask,
    dir: Map<Seq<char>, Stored>,
    events: Seq<StoreEvent>,
)
    requires
        task.started(project, files),
        task.audio_file@ != task.json_file@,
    ensures
        ({
            let (done, after) = run_events(task, dir, events);
            &&& done.phase is Failed ==> (after == dir || after == dir.insert(
                task.audio_file@,
                Stored::Data(task.audio_data@),
            ))
            &&& (after.contains_key(task.json_file@) && !dir.contains_key(task.json_file@))
                ==> after.contains_key(task.audio_file@) && after[task.audio_file@]
                == Stored::Data(task.audio_data@)
        }),
{
    lemma_run_events_written(task, dir, dir, events);
}

} // verus!
