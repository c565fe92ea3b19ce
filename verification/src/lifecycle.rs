//! The download lifecycle: typed progress events and the per-download
//! state machine that guards their order.
//!
//! A download emits `Started`, then any number of `Progress` events
//! with non-decreasing percentages, then exactly one terminal event,
//! `Finished` or `Error`; nothing follows a terminal event.

use vstd::prelude::*;
use vstd::string::StringExecFns;
use crate::metadata::ModInfo;
use crate::registry::ModsState;

verus! {

/// Emitted exactly once, before any bytes are transferred.
/// `content_length` may be 0 when the source reports no size.
#[derive(Debug, PartialEq)]
pub struct DownloadStarted {
    pub mod_id: i64,
    pub name: String,
    pub content_length: usize,
    pub thumbnail_url: String,
}

/// Emitted while bytes arrive; `step` labels the phase (downloading,
/// extracting, installing) so multi-phase downloads reuse the shape.
#[derive(Debug, PartialEq)]
pub struct DownloadProgress {
    pub mod_id: i64,
    pub name: String,
    pub bytes_downloaded: usize,
    pub total_bytes: usize,
    pub percentage: u8,
    pub step: String,
}

/// Emitted once on success, carrying the fully materialized record.
#[derive(Debug, PartialEq)]
pub struct DownloadFinished {
    pub mod_id: i64,
    pub name: String,
    pub mod_info: ModInfo,
}

/// Emitted once on failure, carrying a human-readable message.
#[derive(Debug, PartialEq)]
pub struct DownloadError {
    pub mod_id: i64,
    pub name: String,
    pub error: String,
}

impl Clone for DownloadStarted {
    fn clone(&self) -> (r: Self)
        ensures
            r == *self,
    {
        DownloadStarted {
            mod_id: self.mod_id,
            name: self.name.clone(),
            content_length: self.content_length,
            thumbnail_url: self.thumbnail_url.clone(),
        }
    }
}

impl Clone for DownloadProgress {
    fn clone(&self) -> (r: Self)
        ensures
            r == *self,
    {
        DownloadProgress {
            mod_id: self.mod_id,
            name: self.name.clone(),
            bytes_downloaded: self.bytes_downloaded,
            total_bytes: self.total_bytes,
            percentage: self.percentage,
            step: self.step.clone(),
        }
    }
}

impl Clone for DownloadFinished {
    fn clone(&self) -> (r: Self)
        ensures
            r.mod_id == self.mod_id,
            r.name == self.name,
            r.mod_info.deep_view() == self.mod_info.deep_view(),
    {
        DownloadFinished {
            mod_id: self.mod_id,
            name: self.name.clone(),
            mod_info: self.mod_info.clone(),
        }
    }
}

impl Clone for DownloadError {
    fn clone(&self) -> (r: Self)
        ensures
            r == *self,
    {
        DownloadError {
            mod_id: self.mod_id,
            name: self.name.clone(),
            error: self.error.clone(),
        }
    }
}

/// One event of the download lifecycle stream.
#[derive(Debug, PartialEq)]
pub enum DownloadEvent {
    Started(DownloadStarted),
    Progress(DownloadProgress),
    Finished(DownloadFinished),
    Error(DownloadError),
}

/// The mod id an event speaks of.
pub open spec fn event_mod_id(e: DownloadEvent) -> i64 {
    match e {
        DownloadEvent::Started(s) => s.mod_id,
        DownloadEvent::Progress(p) => p.mod_id,
        DownloadEvent::Finished(f) => f.mod_id,
        DownloadEvent::Error(x) => x.mod_id,
    }
}

/// Whether an event ends the download it belongs to.
pub open spec fn is_terminal_event(e: DownloadEvent) -> bool {
    e is Finished || e is Error
}

/// The ordering guarantee of the lifecycle stream: every event names
/// the same mod; `Started` stands first and only first; a terminal
/// event stands last; progress percentages stay within 0..=100 and
/// never decrease.
pub open spec fn valid_event_seq(s: Seq<DownloadEvent>, mod_id: i64) -> bool {
    &&& forall|i: int| 0 <= i < s.len() ==> event_mod_id(#[trigger] s[i]) == mod_id
    &&& forall|i: int| 0 <= i < s.len() ==> ((#[trigger] s[i]) is Started <==> i == 0)
    &&& forall|i: int| 0 <= i < s.len() && is_terminal_event(#[trigger] s[i]) ==> i == s.len() - 1
    &&& forall|i: int|
        0 <= i < s.len() && (#[trigger] s[i]) is Progress ==> s[i]->Progress_0.percentage <= 100
    &&& forall|i: int, j: int|
        #![trigger s[i], s[j]]
        0 <= i < j < s.len() && s[i] is Progress && s[j] is Progress
            ==> s[i]->Progress_0.percentage <= s[j]->Progress_0.percentage
}

/// Why the state machine refused an event.
#[derive(Debug, PartialEq)]
pub enum LifecycleError {
    /// `Started` arrived on a download that already started.
    AlreadyStarted,
    /// A non-`Started` event arrived before `Started`, or after a
    /// terminal event.
    NotActive,
    /// The event names another mod than the session tracks.
    ModIdMismatch,
    /// A progress percentage above 100.
    PercentageOutOfRange,
    /// A progress percentage below an earlier one.
    PercentageRegressed,
}

impl Clone for LifecycleError {
    fn clone(&self) -> (r: Self)
        ensures
            r == *self,
    {
        match self {
            LifecycleError::AlreadyStarted => LifecycleError::AlreadyStarted,
            LifecycleError::NotActive => LifecycleError::NotActive,
            LifecycleError::ModIdMismatch => LifecycleError::ModIdMismatch,
            LifecycleError::PercentageOutOfRange => LifecycleError::PercentageOutOfRange,
            LifecycleError::PercentageRegressed => LifecycleError::PercentageRegressed,
        }
    }
}

impl LifecycleError {
    /// A human-readable description of the refusal.
    pub fn message(&self) -> (r: String)
        ensures
            *self is AlreadyStarted ==> r@ == "Download already started"@,
            *self is NotActive ==> r@ == "Download is not active"@,
            *self is ModIdMismatch ==> r@ == "Event names another mod"@,
            *self is PercentageOutOfRange ==> r@ == "Progress percentage above 100"@,
            *self is PercentageRegressed ==> r@ == "Progress percentage decreased"@,
    {
        match self {
            LifecycleError::AlreadyStarted => String::from_str("Download already started"),
            LifecycleError::NotActive => String::from_str("Download is not active"),
            LifecycleError::ModIdMismatch => String::from_str("Event names another mod"),
            LifecycleError::PercentageOutOfRange => String::from_str(
                "Progress percentage above 100",
            ),
            LifecycleError::PercentageRegressed => String::from_str(
                "Progress percentage decreased",
            ),
        }
    }
}

/// Where a download stands.
#[derive(Debug, PartialEq)]
pub enum DownloadPhase {
    /// No event yet.
    Idle,
    /// `Started` seen, no terminal event yet.
    Active,
    /// A terminal event seen; nothing more is accepted.
    Done,
}

/// The state machine of one download attempt: it accepts events in
/// the lifecycle order and keeps the stream it accepted, in emission
/// order.
pub struct DownloadSession {
    mod_id: i64,
    phase: DownloadPhase,
    last_percentage: u8,
    events: Vec<DownloadEvent>,
}

impl DownloadSession {
    /// The mod id this session tracks.
    pub closed spec fn id(&self) -> i64 {
        self.mod_id
    }

    /// Where the download stands.
    pub closed spec fn phase(&self) -> DownloadPhase {
        self.phase
    }

    /// The highest percentage accepted so far, 0 before any.
    pub closed spec fn last_pct(&self) -> u8 {
        self.last_percentage
    }

    /// The accepted events, in emission order.
    pub closed spec fn log(&self) -> Seq<DownloadEvent> {
        self.events@
    }

    /// Well-formedness: the log is a valid lifecycle stream and the
    /// phase and percentage bound agree with it.
    pub open spec fn wf(&self) -> bool {
        &&& valid_event_seq(self.log(), self.id())
        &&& (self.phase() is Idle <==> self.log().len() == 0)
        &&& (self.phase() is Done <==> (self.log().len() > 0 && is_terminal_event(
            self.log().last(),
        )))
        &&& forall|i: int|
            0 <= i < self.log().len() && (#[trigger] self.log()[i]) is Progress
                ==> self.log()[i]->Progress_0.percentage <= self.last_pct()
    }

    /// A fresh session for one download attempt of the given mod.
    pub fn new(mod_id: i64) -> (r: Self)
        ensures
            r.wf(),
            r.id() == mod_id,
            r.phase() is Idle,
            r.log() == Seq::<DownloadEvent>::empty(),
    {
        DownloadSession { mod_id, phase: DownloadPhase::Idle, last_percentage: 0, events: Vec::new() }
    }

    /// Whether the session accepts progress and terminal events.
    pub fn is_active(&self) -> (b: bool)
        ensures
            b == (self.phase() is Active),
    {
        match self.phase {
            DownloadPhase::Active => true,
            _ => false,
        }
    }

    /// The mod id this session tracks.
    pub fn mod_id(&self) -> (r: i64)
        ensures
            r == self.id(),
    {
        self.mod_id
    }

    /// The accepted events, in emission order.
    pub fn events(&self) -> (r: &Vec<DownloadEvent>)
        ensures
            r@ == self.log(),
    {
        &self.events
    }

    /// Accepts the `Started` event that opens the stream.
    pub fn start(&mut self, ev: DownloadStarted) -> (r: Result<(), LifecycleError>)
        requires
            old(self).wf(),
        ensures
            final(self).wf(),
            ev.mod_id != old(self).id() ==> r == Err::<(), LifecycleError>(
                LifecycleError::ModIdMismatch,
            ) && *final(self) == *old(self),
            ev.mod_id == old(self).id() && !(old(self).phase() is Idle) ==> r == Err::<
                (),
                LifecycleError,
            >(LifecycleError::AlreadyStarted) && *final(self) == *old(self),
            ev.mod_id == old(self).id() && old(self).phase() is Idle ==> {
                &&& r == Ok::<(), LifecycleError>(())
                &&& final(self).log() == old(self).log().push(DownloadEvent::Started(ev))
                &&& final(self).phase() is Active
                &&& final(self).id() == old(self).id()
                &&& final(self).last_pct() == 0
            },
    {
        if ev.mod_id != self.mod_id {
            return Err(LifecycleError::ModIdMismatch);
        }
        match self.phase {
            DownloadPhase::Idle => {
                let ghost s0 = self.events@;
                self.events.push(DownloadEvent::Started(ev));
                self.phase = DownloadPhase::Active;
                self.last_percentage = 0;
                proof {
                    let s1 = self.events@;
                    assert(forall|i: int| 0 <= i < s0.len() ==> s1[i] == s0[i]);
                    assert(s1.len() == 1);
                    assert(s1[0] == DownloadEvent::Started(ev));
                }
                Ok(())
            },
            _ => Err(LifecycleError::AlreadyStarted),
        }
    }

    /// Accepts one `Progress` event; its percentage must stay within
    /// 0..=100 and must not fall below an earlier one.
    pub fn progress(&mut self, ev: DownloadProgress) -> (r: Result<(), LifecycleError>)
        requires
            old(self).wf(),
        ensures
            final(self).wf(),
            ev.mod_id != old(self).id() ==> r == Err::<(), LifecycleError>(
                LifecycleError::ModIdMismatch,
            ) && *final(self) == *old(self),
            ev.mod_id == old(self).id() && !(old(self).phase() is Active) ==> r == Err::<
                (),
                LifecycleError,
            >(LifecycleError::NotActive) && *final(self) == *old(self),
            ev.mod_id == old(self).id() && old(self).phase() is Active && ev.percentage > 100
                ==> {
                &&& r == Err::<(), LifecycleError>(LifecycleError::PercentageOutOfRange)
                &&& *final(self) == *old(self)
            },
            ev.mod_id == old(self).id() && old(self).phase() is Active && ev.percentage <= 100
                && ev.percentage < old(self).last_pct() ==> r == Err::<(), LifecycleError>(
                LifecycleError::PercentageRegressed,
            ) && *final(self) == *old(self),
            ev.mod_id == old(self).id() && old(self).phase() is Active && ev.percentage <= 100
                && ev.percentage >= old(self).last_pct() ==> {
                &&& r == Ok::<(), LifecycleError>(())
                &&& final(self).log() == old(self).log().push(DownloadEvent::Progress(ev))
                &&& final(self).phase() is Active
                &&& final(self).id() == old(self).id()
                &&& final(self).last_pct() == ev.percentage
            },
    {
        if ev.mod_id != self.mod_id {
            return Err(LifecycleError::ModIdMismatch);
        }
        match self.phase {
            DownloadPhase::Active => {
                if ev.percentage > 100 {
                    return Err(LifecycleError::PercentageOutOfRange);
                }
                if ev.percentage < self.last_percentage {
                    return Err(LifecycleError::PercentageRegressed);
                }
                let ghost s0 = self.events@;
                let pct = ev.percentage;
                self.events.push(DownloadEvent::Progress(ev));
                self.last_percentage = pct;
                proof {
                    let s1 = self.events@;
                    assert(forall|i: int| 0 <= i < s0.len() ==> s1[i] == s0[i]);
                    assert(s1[s0.len() as int] == DownloadEvent::Progress(ev));
                    assert(s0.len() > 0 && !is_terminal_event(s0.last()));
                }
                Ok(())
            },
            _ => Err(LifecycleError::NotActive),
        }
    }

    /// Accepts the `Finished` event that closes the stream on
    /// success.
    pub fn finish(&mut self, ev: DownloadFinished) -> (r: Result<(), LifecycleError>)
        requires
            old(self).wf(),
        ensures
            final(self).wf(),
            ev.mod_id != old(self).id() ==> r == Err::<(), LifecycleError>(
                LifecycleError::ModIdMismatch,
            ) && *final(self) == *old(self),
            ev.mod_id == old(self).id() && !(old(self).phase() is Active) ==> r == Err::<
                (),
                LifecycleError,
            >(LifecycleError::NotActive) && *final(self) == *old(self),
            ev.mod_id == old(self).id() && old(self).phase() is Active ==> {
                &&& r == Ok::<(), LifecycleError>(())
                &&& final(self).log() == old(self).log().push(DownloadEvent::Finished(ev))
                &&& final(self).phase() is Done
                &&& final(self).id() == old(self).id()
            },
    {
        if ev.mod_id != self.mod_id {
            return Err(LifecycleError::ModIdMismatch);
        }
        match self.phase {
            DownloadPhase::Active => {
                let ghost s0 = self.events@;
                self.events.push(DownloadEvent::Finished(ev));
                self.phase = DownloadPhase::Done;
                proof {
                    let s1 = self.events@;
                    assert(forall|i: int| 0 <= i < s0.len() ==> s1[i] == s0[i]);
                    assert(s1[s0.len() as int] == DownloadEvent::Finished(ev));
                    assert(s0.len() > 0 && !is_terminal_event(s0.last()));
                }
                Ok(())
            },
            _ => Err(LifecycleError::NotActive),
        }
    }

    /// Accepts the `Error` event that closes the stream on failure.
    /// This takes no registry: a failed download leaves the mods
    /// registry exactly as it stood. A download cancelled by the
    /// caller between progress events is reported the same way: an
    /// `Error` event closes the stream, no `Finished` follows, and
    /// no record is registered.
    pub fn fail(&mut self, ev: DownloadError) -> (r: Result<(), LifecycleError>)
        requires
            old(self).wf(),
        ensures
            final(self).wf(),
            ev.mod_id != old(self).id() ==> r == Err::<(), LifecycleError>(
                LifecycleError::ModIdMismatch,
            ) && *final(self) == *old(self),
            ev.mod_id == old(self).id() && !(old(self).phase() is Active) ==> r == Err::<
                (),
                LifecycleError,
            >(LifecycleError::NotActive) && *final(self) == *old(self),
            ev.mod_id == old(self).id() && old(self).phase() is Active ==> {
                &&& r == Ok::<(), LifecycleError>(())
                &&& final(self).log() == old(self).log().push(DownloadEvent::Error(ev))
                &&& final(self).phase() is Done
                &&& final(self).id() == old(self).id()
            },
    {
        if ev.mod_id != self.mod_id {
            return Err(LifecycleError::ModIdMismatch);
        }
        match self.phase {
            DownloadPhase::Active => {
                let ghost s0 = self.events@;
                self.events.push(DownloadEvent::Error(ev));
                self.phase = DownloadPhase::Done;
                proof {
                    let s1 = self.events@;
                    assert(forall|i: int| 0 <= i < s0.len() ==> s1[i] == s0[i]);
                    assert(s1[s0.len() as int] == DownloadEvent::Error(ev));
                    assert(s0.len() > 0 && !is_terminal_event(s0.last()));
                }
                Ok(())
            },
            _ => Err(LifecycleError::NotActive),
        }
    }
}

/// Completes a download all-or-nothing: when the session accepts the
/// `Finished` event, the materialized record is registered under the
/// id and the event is recorded; when it refuses, the registry is
/// left untouched, so no half-finished download ever registers a
/// record.
pub fn finish_and_register(
    reg: &mut ModsState,
    sess: &mut DownloadSession,
    id: String,
    ev: DownloadFinished,
) -> (r: Result<(), LifecycleError>)
    requires
        old(reg).wf(),
        old(sess).wf(),
    ensures
        final(reg).wf(),
        final(sess).wf(),
        ev.mod_id != old(sess).id() ==> r == Err::<(), LifecycleError>(
            LifecycleError::ModIdMismatch,
        ) && *final(reg) == *old(reg) && *final(sess) == *old(sess),
        ev.mod_id == old(sess).id() && !(old(sess).phase() is Active) ==> r == Err::<
            (),
            LifecycleError,
        >(LifecycleError::NotActive) && *final(reg) == *old(reg) && *final(sess) == *old(sess),
        ev.mod_id == old(sess).id() && old(sess).phase() is Active ==> {
            &&& r == Ok::<(), LifecycleError>(())
            &&& final(reg).as_map() == old(reg).as_map().insert(id@, ev.mod_info.deep_view())
            &&& !old(reg).contains(id@) ==> final(reg).entries() == old(reg).entries().push(
                (id@, ev.mod_info.deep_view()),
            )
            &&& final(sess).log().len() == old(sess).log().len() + 1
            &&& final(sess).log().last() matches DownloadEvent::Finished(f) && f.mod_id
                == ev.mod_id && f.name == ev.name && f.mod_info.deep_view()
                == ev.mod_info.deep_view()
            &&& final(sess).log().subrange(0, old(sess).log().len() as int) == old(sess).log()
            &&& final(sess).phase() is Done
        },
{
    if ev.mod_id != sess.mod_id() {
        return Err(LifecycleError::ModIdMismatch);
    }
    if !sess.is_active() {
        return Err(LifecycleError::NotActive);
    }
    let record = ev.mod_info.clone();
    let fin = DownloadFinished { mod_id: ev.mod_id, name: ev.name, mod_info: ev.mod_info };
    reg.insert(id, record);
    let r = sess.finish(fin);
    proof {
        assert(sess.log().subrange(0, old(sess).log().len() as int) =~= old(sess).log());
    }
    r
}

} // verus!
