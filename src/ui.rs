//! What the UI does with the events it polls, one per redraw.

use crate::bridge::{SenderTypeServer, SenderTypeUi};
use crate::client::Error;
use crate::resource::{Files, Resource};
use vstd::prelude::*;

verus! {

/// Where a record with time stamp `t` goes in `s`: after the last element
/// that is not later than `t`, where `s` is sorted.
pub open spec fn insert_pos(s: Seq<Resource>, t: u64) -> int
    decreases s.len(),
{
    if s.len() == 0 {
        0
    } else if s.last().time_stamp > t {
        insert_pos(s.drop_last(), t)
    } else {
        s.len() as int
    }
}

/// `s` sorted by time stamp, oldest first, records with equal time stamps
/// kept in their order in `s`.
pub open spec fn sorted_by_time(s: Seq<Resource>) -> Seq<Resource>
    decreases s.len(),
{
    if s.len() == 0 {
        Seq::empty()
    } else {
        let rest = sorted_by_time(s.drop_last());
        rest.insert(insert_pos(rest, s.last().time_stamp), s.last())
    }
}

proof fn lemma_insert_pos_bounds(s: Seq<Resource>, t: u64)
    ensures
        0 <= insert_pos(s, t) <= s.len(),
    decreases s.len(),
{
    if s.len() > 0 {
        lemma_insert_pos_bounds(s.drop_last(), t);
    }
}

proof fn lemma_sorted_len(s: Seq<Resource>)
    ensures
        sorted_by_time(s).len() == s.len(),
    decreases s.len(),
{
    if s.len() > 0 {
        lemma_sorted_len(s.drop_last());
        lemma_insert_pos_bounds(sorted_by_time(s.drop_last()), s.last().time_stamp);
    }
}

/// Whether no record of `s` comes after a later one.
pub open spec fn ordered_by_time(s: Seq<Resource>) -> bool {
    forall|i: int, j: int| 0 <= i < j < s.len() ==> s[i].time_stamp <= s[j].time_stamp
}

proof fn lemma_insert_pos_splits(s: Seq<Resource>, t: u64)
    requires
        ordered_by_time(s),
    ensures
        forall|i: int| 0 <= i < insert_pos(s, t) ==> s[i].time_stamp <= t,
        forall|i: int| insert_pos(s, t) <= i < s.len() ==> s[i].time_stamp > t,
    decreases s.len(),
{
    lemma_insert_pos_bounds(s, t);
    if s.len() > 0 {
        if s.last().time_stamp > t {
            let rest = s.drop_last();
            assert(ordered_by_time(rest));
            lemma_insert_pos_splits(rest, t);
            assert forall|i: int| 0 <= i < insert_pos(s, t) implies s[i].time_stamp <= t by {
                assert(s[i] == rest[i]);
            }
            assert forall|i: int| insert_pos(s, t) <= i < s.len() implies s[i].time_stamp > t by {
                if i < s.len() - 1 {
                    assert(s[i] == rest[i]);
                }
            }
        } else {
            assert forall|i: int| 0 <= i < s.len() implies s[i].time_stamp <= t by {
                if i < s.len() - 1 {
                    assert(s[i].time_stamp <= s[s.len() - 1].time_stamp);
                }
            }
        }
    }
}

/// What `sorted_by_time` gives is ordered by time stamp and holds the same
/// records, each as often, as its input.
pub proof fn lemma_sorted_by_time(s: Seq<Resource>)
    ensures
        ordered_by_time(sorted_by_time(s)),
        sorted_by_time(s).to_multiset() == s.to_multiset(),
    decreases s.len(),
{
    broadcast use vstd::seq_lib::to_multiset_insert, vstd::seq_lib::to_multiset_build;

    if s.len() == 0 {
        assert(sorted_by_time(s) =~= s);
    } else {
        let rest = sorted_by_time(s.drop_last());
        let x = s.last();
        let p = insert_pos(rest, x.time_stamp);
        lemma_sorted_by_time(s.drop_last());
        lemma_insert_pos_bounds(rest, x.time_stamp);
        lemma_insert_pos_splits(rest, x.time_stamp);
        let r = rest.insert(p, x);
        assert forall|i: int, j: int| 0 <= i < j < r.len() implies r[i].time_stamp
            <= r[j].time_stamp by {
            if j < p {
            } else if j == p {
            } else if i < p {
                assert(r[j] == rest[j - 1]);
            } else if i == p {
                assert(r[j] == rest[j - 1]);
            } else {
                assert(r[i] == rest[i - 1]);
                assert(r[j] == rest[j - 1]);
            }
        }
        assert(s.drop_last().push(x) =~= s);
    }
}

/// Sorts records by time stamp, oldest first; records with equal time stamps
/// keep their order.
pub fn sort_by_time(v: Vec<Resource>) -> (r: Vec<Resource>)
    ensures
        r@ == sorted_by_time(v@),
{
    let ghost all = v@;
    let mut out: Vec<Resource> = Vec::new();
    for x in it: v
        invariant
            it.seq() == all,
            out@ == sorted_by_time(all.subrange(0, it.index() as int)),
    {
        let ghost done = all.subrange(0, it.index() as int);
        proof {
            assert(all.subrange(0, it.index() + 1).drop_last() =~= done);
            lemma_sorted_len(done);
        }
        let t = x.time_stamp;
        let mut j: usize = out.len();
        assert(out@.subrange(0, j as int) =~= out@);
        while j > 0 && out[j - 1].time_stamp > t
            invariant
                j <= out@.len(),
                insert_pos(out@, t) == insert_pos(out@.subrange(0, j as int), t),
            decreases j,
        {
            assert(out@.subrange(0, j as int).drop_last() =~= out@.subrange(0, j - 1));
            j = j - 1;
        }
        out.insert(j, x);
    }
    assert(all.subrange(0, all.len() as int) =~= all);
    out
}

/// The state that the UI keeps between redraws.
#[derive(Debug, Default)]
pub struct UiState {
    /// The catalog, oldest first; replaced whole by each catalog event.
    pub resources: Vec<Resource>,
    /// The failure being shown, if any.
    pub error_modal: Option<Error>,
    /// The upload being filled in, if the add dialog is open.
    pub add_modal: Option<Files>,
}

/// A copy of `v`, record by record.
pub fn copy_resources(v: &Vec<Resource>) -> (r: Vec<Resource>)
    ensures
        r@ == v@,
{
    let mut r: Vec<Resource> = Vec::new();
    let mut i: usize = 0;
    while i < v.len()
        invariant
            i <= v@.len(),
            r@ == v@.subrange(0, i as int),
        decreases v.len() - i,
    {
        let x = &v[i];
        r.push(
            Resource {
                title: x.title.clone(),
                audio_file: x.audio_file.clone(),
                time_stamp: x.time_stamp,
            },
        );
        assert(r@ =~= v@.subrange(0, i + 1));
        i = i + 1;
    }
    assert(v@.subrange(0, v@.len() as int) =~= v@);
    r
}

/// What the UI must do after taking in an event.
#[derive(Debug)]
pub enum UiEffect {
    /// Nothing: the frame goes on unchanged.
    Idle,
    /// Redraw, the state having changed.
    Repaint,
    /// Play these bytes on a context of their own, then redraw.
    Play(Vec<u8>),
}

impl UiState {
    /// An empty catalog and no failure shown.
    pub fn new() -> (r: UiState)
        ensures
            r.resources@.len() == 0,
            r.error_modal is None,
            r.add_modal is None,
    {
        UiState { resources: Vec::new(), error_modal: Option::None, add_modal: Option::None }
    }

    /// Takes in one event: a catalog replaces the cached one, sorted by time
    /// stamp; audio is handed out to be played; a failure is shown. Every
    /// event but `Nothing` asks for a redraw.
    pub fn apply(&mut self, ev: SenderTypeUi) -> (r: UiEffect)
        ensures
            match ev {
                SenderTypeUi::Nothing => r is Idle && *final(self) == *old(self),
                SenderTypeUi::Resources(v) => r is Repaint && final(self).resources@
                    == sorted_by_time(v@) && final(self).error_modal == old(self).error_modal
                    && final(self).add_modal == old(self).add_modal,
                SenderTypeUi::PlayAudio(b) => r == UiEffect::Play(b) && *final(self) == *old(self),
                SenderTypeUi::Error(e) => r is Repaint && final(self).error_modal == Some(e)
                    && final(self).resources == old(self).resources && final(self).add_modal
                    == old(self).add_modal,
            },
    {
        match ev {
            SenderTypeUi::Nothing => UiEffect::Idle,
            SenderTypeUi::Resources(v) => {
                self.resources = sort_by_time(v);
                UiEffect::Repaint
            },
            SenderTypeUi::PlayAudio(b) => UiEffect::Play(b),
            SenderTypeUi::Error(e) => {
                self.error_modal = Some(e);
                UiEffect::Repaint
            },
        }
    }

    /// Closes the failure being shown.
    pub fn close_error(&mut self)
        ensures
            final(self).error_modal is None,
            final(self).resources == old(self).resources,
            final(self).add_modal == old(self).add_modal,
    {
        self.error_modal = Option::None;
    }

    /// Opens the add dialog with an empty upload.
    pub fn open_add(&mut self)
        ensures
            final(self).add_modal matches Some(f) && f.title@.len() == 0 && f.audio_data@.len()
                == 0,
            final(self).resources == old(self).resources,
            final(self).error_modal == old(self).error_modal,
    {
        self.add_modal = Some(Files { title: String::new(), audio_data: String::new() });
    }

    /// Closes the add dialog, dropping the upload.
    pub fn close_add(&mut self)
        ensures
            final(self).add_modal is None,
            final(self).resources == old(self).resources,
            final(self).error_modal == old(self).error_modal,
    {
        self.add_modal = Option::None;
    }

    /// Confirms the add dialog: where it holds an upload with both a title and
    /// a payload, the dialog closes and the command to send is the upload with
    /// the catalog as cached; otherwise nothing changes and there is no command.
    pub fn confirm_add(&mut self) -> (r: Option<SenderTypeServer>)
        ensures
            match old(self).add_modal {
                Some(f) => if f.title@.len() > 0 && f.audio_data@.len() > 0 {
                    &&& r matches Some(SenderTypeServer::AddResource(known, g))
                    &&& known@ == old(self).resources@
                    &&& g == f
                    &&& final(self).add_modal is None
                } else {
                    r is None && *final(self) == *old(self)
                },
                None => r is None && *final(self) == *old(self),
            },
            final(self).resources == old(self).resources,
            final(self).error_modal == old(self).error_modal,
    {
        let ready = match &self.add_modal {
            Some(f) => f.is_complete(),
            None => false,
        };
        if !ready {
            return Option::None;
        }
        match self.add_modal.take() {
            Some(f) => Some(SenderTypeServer::AddResource(copy_resources(&self.resources), f)),
            None => Option::None,
        }
    }

    /// The command that fetches the audio of the `i`-th cached record, to
    /// play it; `None` where there is no such record.
    pub fn play_command(&self, i: usize) -> (r: Option<SenderTypeServer>)
        ensures
            i < self.resources@.len() ==> r == Some(
                SenderTypeServer::DownloadAudio(self.resources@[i as int].audio_file),
            ),
            i >= self.resources@.len() ==> r is None,
    {
        if i < self.resources.len() {
            Some(SenderTypeServer::DownloadAudio(self.resources[i].audio_file.clone()))
        } else {
            Option::None
        }
    }
}

} // verus!
