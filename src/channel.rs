//! The notification handle: opening a group, marking paths and mounts,
//! draining queued records and answering permission events.
use vstd::prelude::*;
use nix::errno::Errno;
use nix::sys::fanotify::{
    EventFFlags, Fanotify as Group, FanotifyEvent, FanotifyResponse as ResponseRecord, InitFlags,
    MarkFlags, MaskFlags, Response,
};
use crate::decode::{RawEvent, needs_verdict, needs_verdict_spec};
use crate::dispatch::{ops_for, plan, ChannelOp};
use crate::flags::{
    init_flags, init_word, mark_flags, mark_word, EVENT_FILE_FLAGS, FanotifyMode, MarkOp, MarkScope,
};
use crate::policy::{response_word, FanotifyResponse};

verus! {

#[verifier::external_type_specification]
#[verifier::external_body]
pub struct ExGroup(Group);

#[verifier::external_type_specification]
#[verifier::external_body]
pub struct ExFanotifyEvent(FanotifyEvent);

#[verifier::external_type_specification]
#[verifier::external_body]
pub struct ExErrno(Errno);

/// Why a request on the channel failed.
#[derive(Clone, Copy, Debug, PartialEq, Eq, Structural)]
pub enum FanotifyError {
    /// The kernel refused the request with this error number.
    Os(i32),
    /// The event carries no descriptor to answer (a queue overflow).
    NoDescriptor,
}

/// Relies on nix's `Fanotify::init`: opens a group with the given
/// initialisation word and descriptor flags, which it hands back beside the
/// outcome.
#[verifier::external_body]
fn init_group(flags: u32, event_flags: u32) -> (r: (Result<Group, Errno>, u32, u32))
    ensures
        r.1 == flags,
        r.2 == event_flags,
{
    (Group::init(InitFlags::from_bits_retain(flags), EventFFlags::from_bits_retain(event_flags)), flags, event_flags)
}

/// Relies on nix's `Fanotify::mark`, relative to the working directory: sends
/// one mark request, whose flag word, mask and path it hands back beside the
/// outcome.
#[verifier::external_body]
fn mark_group<'a>(group: &Group, flags: u32, mask: u64, path: &'a str) -> (r: (Result<(), Errno>, u32, u64, &'a str))
    ensures
        r.1 == flags,
        r.2 == mask,
        r.3@ == path@,
{
    (group.mark(MarkFlags::from_bits_retain(flags), MaskFlags::from_bits_retain(mask), None, Some(path)), flags, mask, path)
}

/// Relies on nix's `Fanotify::read_events`: the records of one read.
#[verifier::external_body]
fn read_group(group: &Group) -> (r: Result<Vec<FanotifyEvent>, Errno>) {
    group.read_events()
}

/// Relies on nix's `FanotifyEvent::{mask, fd, pid}`: the plain fields of a record.
#[verifier::external_body]
fn event_record(event: &FanotifyEvent) -> (r: RawEvent) {
    RawEvent {
        mask: event.mask().bits(),
        has_fd: match event.fd() {
            Some(_) => true,
            None => false,
        },
        pid: event.pid(),
    }
}

/// Relies on nix's `Fanotify::write_response`: writes the response word for
/// the event's descriptor (nothing where the event carries none, which gives
/// none) and hands the word back beside the outcome.
#[verifier::external_body]
fn write_group(group: &Group, event: &FanotifyEvent, response: u32) -> (r: (Option<Result<(), Errno>>, u32))
    ensures
        r.1 == response,
{
    let outcome = match event.fd() {
        Some(fd) => Some(group.write_response(ResponseRecord::new(fd, Response::from_bits_retain(response)))),
        None => None,
    };
    (outcome, response)
}

/// Relies on nix's `Errno` being the raw error number.
#[verifier::external_body]
fn errno_code(e: Errno) -> (r: i32) {
    e as i32
}

fn os_error<T>(r: Result<T, Errno>) -> (out: Result<T, FanotifyError>)
    ensures
        r is Ok <==> out is Ok,
        out matches Err(e) ==> e is Os,
{
    match r {
        Ok(v) => Ok(v),
        Err(e) => Err(FanotifyError::Os(errno_code(e))),
    }
}

/// A drained batch: the records in the order read, and beside each the slot
/// of the event that owns its descriptor. Emptying a slot drops the event,
/// which closes its descriptor.
pub struct Batch {
    records: Vec<RawEvent>,
    events: Vec<Option<FanotifyEvent>>,
}

/// What became of one operation of the plan: for a verdict, the response
/// word handed to the kernel and the outcome of the write.
#[derive(Debug)]
pub struct OpOutcome {
    pub op: ChannelOp,
    pub word: Option<u32>,
    pub result: Result<(), FanotifyError>,
}

impl Batch {
    /// The records of the batch, in the order read.
    pub closed spec fn records_view(&self) -> Seq<RawEvent> {
        self.records@
    }

    /// Which records still hold their descriptor open.
    pub closed spec fn open_view(&self) -> Seq<bool> {
        self.events@.map_values(|e: Option<FanotifyEvent>| e is Some)
    }

    proof fn lemma_open_view(&self)
        ensures
            self.open_view().len() == self.events@.len(),
            forall|k: int| 0 <= k < self.events@.len() ==> self.open_view()[k] == (self.events@[k] is Some),
    {
    }

    /// Each record has its slot, and every permission record still holds
    /// its event.
    pub open spec fn wf(&self) -> bool {
        &&& self.open_view().len() == self.records_view().len()
        &&& forall|i: int|
            0 <= i < self.records_view().len() && needs_verdict_spec(self.records_view()[i].mask)
                ==> self.open_view()[i]
    }

    /// The records of the batch, in the order read.
    pub fn records(&self) -> (r: &Vec<RawEvent>)
        ensures
            r@ == self.records_view(),
    {
        &self.records
    }

    /// The event of record `i`, while it holds its descriptor open.
    pub fn event(&self, i: usize) -> (r: Option<&FanotifyEvent>)
        ensures
            i < self.open_view().len() ==> (r is Some <==> self.open_view()[i as int]),
            i >= self.open_view().len() ==> r is None,
    {
        if i < self.events.len() {
            self.events[i].as_ref()
        } else {
            None
        }
    }

    /// Whether each record has its slot and every permission record still
    /// holds its event.
    pub fn is_paired(&self) -> (r: bool)
        ensures
            r == self.wf(),
    {
        proof {
            self.lemma_open_view();
        }
        if self.records.len() != self.events.len() {
            return false;
        }
        let mut i: usize = 0;
        while i < self.records.len()
            invariant
                self.records.len() == self.events.len(),
                0 <= i <= self.records.len(),
                forall|k: int|
                    0 <= k < i && needs_verdict_spec(self.records@[k].mask) ==> self.events@[k] is Some,
            decreases self.records.len() - i,
        {
            if needs_verdict(self.records[i].mask) && self.events[i].is_none() {
                proof {
                    self.lemma_open_view();
                }
                assert(needs_verdict_spec(self.records_view()[i as int].mask) && !self.open_view()[i as int]);
                assert(!self.wf());
                return false;
            }
            i = i + 1;
        }
        true
    }

    /// Closes the descriptors of the records that need no verdict, so that
    /// none stays open while verdicts are sought.
    pub fn release_observed(&mut self)
        requires
            old(self).wf(),
        ensures
            final(self).wf(),
            final(self).records_view() == old(self).records_view(),
            forall|i: int|
                0 <= i < final(self).open_view().len() ==> (final(self).open_view()[i] <==> (
                old(self).open_view()[i] && needs_verdict_spec(old(self).records_view()[i].mask))),
    {
        proof {
            self.lemma_open_view();
        }
        let ghost before = self.events@;
        let mut i: usize = 0;
        while i < self.records.len()
            invariant
                self.records@ == old(self).records@,
                self.events.len() == self.records.len(),
                before == old(self).events@,
                before.len() == self.records.len(),
                0 <= i <= self.records.len(),
                forall|k: int|
                    0 <= k < i ==> (self.events@[k] is Some <==> (before[k] is Some
                        && needs_verdict_spec(self.records@[k].mask))),
                forall|k: int| i <= k < self.events.len() ==> self.events@[k] == before[k],
            decreases self.records.len() - i,
        {
            if !needs_verdict(self.records[i].mask) {
                self.events[i] = None;
            }
            i = i + 1;
        }
        proof {
            self.lemma_open_view();
            assert forall|k: int|
                0 <= k < self.records_view().len() && needs_verdict_spec(self.records_view()[k].mask)
                implies self.open_view()[k] by {
                assert(old(self).open_view()[k]);
                assert(before[k] is Some);
            }
        }
    }
}

/// A notification group, with the requests it was opened with and the mark
/// requests sent on it since.
pub struct Fanotify {
    group: Group,
    opened_with: Ghost<Option<(u32, u32)>>,
    marks: Ghost<Seq<(u32, u64, Seq<char>)>>,
}

impl Fanotify {
    /// The initialisation word and the descriptor flags the group was opened
    /// with; none for a group taken over from elsewhere.
    pub closed spec fn init_request(&self) -> Option<(u32, u32)> {
        self.opened_with@
    }

    /// The mark requests sent through this handle, oldest first: flag word,
    /// mask and path.
    pub closed spec fn marks_sent(&self) -> Seq<(u32, u64, Seq<char>)> {
        self.marks@
    }

    /// The group this handle holds.
    pub closed spec fn held(&self) -> Group {
        self.group
    }

    fn open(mode: FanotifyMode, nonblocking: bool) -> (r: Result<Fanotify, FanotifyError>)
        ensures
            r matches Ok(f) ==> f.init_request() == Some((init_word(mode, nonblocking), EVENT_FILE_FLAGS))
                && f.marks_sent().len() == 0,
            r matches Err(e) ==> e is Os,
    {
        let flags = init_flags(mode, nonblocking);
        let (outcome, sent_flags, sent_event_flags) = init_group(flags, EVENT_FILE_FLAGS);
        match outcome {
            Ok(group) => Ok(
                Fanotify {
                    group,
                    opened_with: Ghost(Some((sent_flags, sent_event_flags))),
                    marks: Ghost(Seq::empty()),
                },
            ),
            Err(e) => Err(FanotifyError::Os(errno_code(e))),
        }
    }

    /// Opens a group of the given class whose reads block; its events carry
    /// read-only descriptors that are closed on exec.
    pub fn new_with_blocking(mode: FanotifyMode) -> (r: Result<Fanotify, FanotifyError>)
        ensures
            r matches Ok(f) ==> f.init_request() == Some((init_word(mode, false), EVENT_FILE_FLAGS))
                && f.marks_sent().len() == 0,
            r matches Err(e) ==> e is Os,
    {
        Self::open(mode, false)
    }

    /// Opens a group of the given class whose reads do not block; its events
    /// carry read-only descriptors that are closed on exec.
    pub fn new_with_nonblocking(mode: FanotifyMode) -> (r: Result<Fanotify, FanotifyError>)
        ensures
            r matches Ok(f) ==> f.init_request() == Some((init_word(mode, true), EVENT_FILE_FLAGS))
                && f.marks_sent().len() == 0,
            r matches Err(e) ==> e is Os,
    {
        Self::open(mode, true)
    }

    /// Takes over a group opened elsewhere, as it is.
    pub fn from_raw(group: Group) -> (r: Fanotify)
        ensures
            r.held() == group,
            r.init_request() is None,
            r.marks_sent().len() == 0,
    {
        Fanotify { group, opened_with: Ghost(None), marks: Ghost(Seq::empty()) }
    }

    /// The underlying group, to wait on its descriptor.
    pub fn group(&self) -> (r: &Group)
        ensures
            *r == self.held(),
    {
        &self.group
    }

    /// Sends one mark request, with the flag word `mark_word(op, scope)`.
    pub fn mark(&mut self, op: MarkOp, scope: MarkScope, mask: u64, path: &str) -> (r: Result<(), FanotifyError>)
        ensures
            final(self).marks_sent() == old(self).marks_sent().push((mark_word(op, scope), mask, path@)),
            final(self).held() == old(self).held(),
            final(self).init_request() == old(self).init_request(),
            r matches Err(e) ==> e is Os,
    {
        let flags = mark_flags(op, scope);
        let (outcome, sent_flags, sent_mask, sent_path) = mark_group(&self.group, flags, mask, path);
        self.marks = Ghost(self.marks@.push((sent_flags, sent_mask, sent_path@)));
        os_error(outcome)
    }

    /// Adds `mode` to the mark on `path`.
    pub fn add_path(&mut self, mode: u64, path: &str) -> (r: Result<(), FanotifyError>)
        ensures
            final(self).marks_sent() == old(self).marks_sent().push(
                (mark_word(MarkOp::Add, MarkScope::Path), mode, path@),
            ),
            final(self).held() == old(self).held(),
            final(self).init_request() == old(self).init_request(),
            r matches Err(e) ==> e is Os,
    {
        self.mark(MarkOp::Add, MarkScope::Path, mode, path)
    }

    /// Adds `mode` to the mark on the mount that holds `path`.
    pub fn add_mountpoint(&mut self, mode: u64, path: &str) -> (r: Result<(), FanotifyError>)
        ensures
            final(self).marks_sent() == old(self).marks_sent().push(
                (mark_word(MarkOp::Add, MarkScope::Mountpoint), mode, path@),
            ),
            final(self).held() == old(self).held(),
            final(self).init_request() == old(self).init_request(),
            r matches Err(e) ==> e is Os,
    {
        self.mark(MarkOp::Add, MarkScope::Mountpoint, mode, path)
    }

    /// Removes `mode` from the mark on `path`.
    pub fn remove_path(&mut self, mode: u64, path: &str) -> (r: Result<(), FanotifyError>)
        ensures
            final(self).marks_sent() == old(self).marks_sent().push(
                (mark_word(MarkOp::Remove, MarkScope::Path), mode, path@),
            ),
            final(self).held() == old(self).held(),
            final(self).init_request() == old(self).init_request(),
            r matches Err(e) ==> e is Os,
    {
        self.mark(MarkOp::Remove, MarkScope::Path, mode, path)
    }

    /// Removes every mark of the kind that `path` designates.
    pub fn flush_path(&mut self, mode: u64, path: &str) -> (r: Result<(), FanotifyError>)
        ensures
            final(self).marks_sent() == old(self).marks_sent().push(
                (mark_word(MarkOp::Flush, MarkScope::Path), mode, path@),
            ),
            final(self).held() == old(self).held(),
            final(self).init_request() == old(self).init_request(),
            r matches Err(e) ==> e is Os,
    {
        self.mark(MarkOp::Flush, MarkScope::Path, mode, path)
    }

    /// Reads the records that are queued, each beside the event that owns
    /// its descriptor.
    pub fn drain(&self) -> (r: Result<Batch, FanotifyError>)
        ensures
            r matches Ok(b) ==> b.wf() && forall|i: int| 0 <= i < b.open_view().len() ==> b.open_view()[i],
            r matches Err(e) ==> e is Os,
    {
        match read_group(&self.group) {
            Err(e) => Err(FanotifyError::Os(errno_code(e))),
            Ok(events) => {
                let mut records: Vec<RawEvent> = Vec::new();
                let mut slots: Vec<Option<FanotifyEvent>> = Vec::new();
                let mut rest = events;
                while rest.len() > 0
                    invariant
                        records.len() == slots.len(),
                        forall|k: int| 0 <= k < slots.len() ==> slots@[k] is Some,
                    decreases rest.len(),
                {
                    let event = rest.remove(0);
                    records.push(event_record(&event));
                    slots.push(Some(event));
                }
                let b = Batch { records, events: slots };
                assert(b.open_view().len() == b.records_view().len());
                Ok(b)
            },
        }
    }

    /// Writes the verdict for one event; the word handed to the kernel comes
    /// back beside the outcome.
    fn write_verdict(&self, event: &FanotifyEvent, response: FanotifyResponse) -> (r: (Result<(), FanotifyError>, u32))
        ensures
            r.1 == response_word(response),
    {
        let (outcome, word) = write_group(&self.group, event, response.bits());
        match outcome {
            None => (Err(FanotifyError::NoDescriptor), word),
            Some(res) => (os_error(res), word),
        }
    }

    /// Answers a drained batch. First the descriptors of the records that
    /// need no verdict are closed; then the operations of
    /// `plan(records, verdicts)` are carried out in order: for each record
    /// that carries a descriptor and a permission bit, the word of its
    /// verdict is written against its descriptor, and then that descriptor
    /// is closed. The outcome at `k` is that of the `k`-th operation.
    pub fn settle(&self, batch: Batch, verdicts: &Vec<FanotifyResponse>) -> (r: Vec<OpOutcome>)
        requires
            batch.wf(),
            verdicts.len() == batch.records_view().len(),
        ensures
            r.len() == plan(batch.records_view(), verdicts@).len(),
            forall|k: int|
                0 <= k < r.len() ==> {
                    &&& r[k].op == plan(batch.records_view(), verdicts@)[k]
                    &&& (r[k].op matches ChannelOp::Respond { response, .. } ==> r[k].word == Some(
                        response_word(response),
                    ))
                    &&& (r[k].op is Release ==> r[k].word is None && r[k].result is Ok)
                },
    {
        let mut batch = batch;
        batch.release_observed();
        proof {
            batch.lemma_open_view();
        }
        let Batch { records, events } = batch;
        let ghost recs = records@;
        let mut rest = events;
        assert forall|k: int|
            0 <= k < rest.len() && needs_verdict_spec(recs[0 + k].mask) implies rest@[k] is Some by {
            assert(batch.open_view()[k]);
        }
        let mut out: Vec<OpOutcome> = Vec::new();
        let mut i: usize = 0;
        while i < records.len()
            invariant
                records@ == recs,
                recs == batch.records_view(),
                verdicts.len() == records.len(),
                0 <= i <= records.len(),
                rest.len() == records.len() - i,
                forall|k: int|
                    0 <= k < rest.len() && needs_verdict_spec(recs[i + k].mask) ==> rest@[k] is Some,
                out.len() == plan(recs.take(i as int), verdicts@.take(i as int)).len(),
                forall|k: int|
                    0 <= k < out.len() ==> {
                        &&& out@[k].op == plan(recs.take(i as int), verdicts@.take(i as int))[k]
                        &&& (out@[k].op matches ChannelOp::Respond { response, .. } ==> out@[k].word
                            == Some(response_word(response)))
                        &&& (out@[k].op is Release ==> out@[k].word is None && out@[k].result is Ok)
                    },
            decreases records.len() - i,
        {
            let slot = rest.remove(0);
            let rec = records[i];
            let v = verdicts[i];
            let ghost prev = out@;
            proof {
                let rs = recs.take(i as int + 1);
                let ws = verdicts@.take(i as int + 1);
                assert(rs.drop_last() =~= recs.take(i as int));
                assert(ws.take(i as int) =~= verdicts@.take(i as int));
                assert(rs.last() == rec);
            }
            if rec.has_fd && needs_verdict(rec.mask) {
                match slot {
                    Some(event) => {
                        let (result, word) = self.write_verdict(&event, v);
                        out.push(OpOutcome { op: ChannelOp::Respond { index: i, response: v }, word: Some(word), result });
                    },
                    None => {},
                }
                out.push(OpOutcome { op: ChannelOp::Release { index: i }, word: None, result: Ok(()) });
            }
            proof {
                let p = plan(recs.take(i as int), verdicts@.take(i as int));
                let ops = ops_for(rec, i, v);
                assert(plan(recs.take(i as int + 1), verdicts@.take(i as int + 1)) == p + ops);
                assert forall|k: int| 0 <= k < out.len() implies out@[k].op == (p + ops)[k] by {
                    if k < prev.len() {
                        assert(out@[k] == prev[k]);
                    }
                }
            }
            i = i + 1;
        }
        assert(recs.take(records.len() as int) =~= recs);
        assert(verdicts@.take(verdicts.len() as int) =~= verdicts@);
        out
    }
}

} // verus!
