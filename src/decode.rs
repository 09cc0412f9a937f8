//! Turning the raw records that the kernel queues into structured events.
use vstd::prelude::*;
use crate::flags::{
    FAN_ACCESS, FAN_ACCESS_PERM, FAN_CLOSE_NOWRITE, FAN_CLOSE_WRITE, FAN_MODIFY, FAN_OPEN,
    FAN_OPEN_PERM, PERMISSION_BITS,
};

verus! {

/// One record as the kernel delivers it: the bits that fired, whether it
/// carries a descriptor of the file concerned (a queue overflow carries
/// none) and the process that caused the event.
#[derive(Clone, Copy, Debug, PartialEq, Eq, Structural)]
pub struct RawEvent {
    pub mask: u64,
    pub has_fd: bool,
    pub pid: i32,
}

/// The single kind under which a record is reported.
#[derive(Clone, Copy, Debug, PartialEq, Eq, Structural)]
pub enum EventKind {
    Access,
    AccessPerm,
    CloseNoWrite,
    CloseWrite,
    Open,
    OpenPerm,
    Modify,
    Unknown,
}

/// Whether `bit` is set in `mask`.
pub open spec fn has(mask: u64, bit: u64) -> bool {
    mask & bit != 0
}

/// The kind of a mask: the first of Access, AccessPerm, CloseNoWrite,
/// CloseWrite, Open, OpenPerm, Modify whose bit is set, or Unknown.
pub open spec fn kind_spec(mask: u64) -> EventKind {
    if has(mask, FAN_ACCESS) {
        EventKind::Access
    } else if has(mask, FAN_ACCESS_PERM) {
        EventKind::AccessPerm
    } else if has(mask, FAN_CLOSE_NOWRITE) {
        EventKind::CloseNoWrite
    } else if has(mask, FAN_CLOSE_WRITE) {
        EventKind::CloseWrite
    } else if has(mask, FAN_OPEN) {
        EventKind::Open
    } else if has(mask, FAN_OPEN_PERM) {
        EventKind::OpenPerm
    } else if has(mask, FAN_MODIFY) {
        EventKind::Modify
    } else {
        EventKind::Unknown
    }
}

/// The name under which a kind is reported; empty for Unknown.
pub open spec fn kind_name(k: EventKind) -> Seq<char> {
    match k {
        EventKind::Access => "FAN_ACCESS"@,
        EventKind::AccessPerm => "FAN_ACCESS_PERM"@,
        EventKind::CloseNoWrite => "FAN_CLOSE_NOWRITE"@,
        EventKind::CloseWrite => "FAN_CLOSE_WRITE"@,
        EventKind::Open => "FAN_OPEN"@,
        EventKind::OpenPerm => "FAN_OPEN_PERM"@,
        EventKind::Modify => "FAN_MODIFY"@,
        EventKind::Unknown => ""@,
    }
}

/// Whether a mask carries a bit whose event blocks until a verdict is written.
pub open spec fn needs_verdict_spec(mask: u64) -> bool {
    has(mask, PERMISSION_BITS)
}

/// Classifies a mask by the fixed precedence of `kind_spec`.
pub fn kind_of(mask: u64) -> (r: EventKind)
    ensures
        r == kind_spec(mask),
{
    if mask & FAN_ACCESS != 0 {
        EventKind::Access
    } else if mask & FAN_ACCESS_PERM != 0 {
        EventKind::AccessPerm
    } else if mask & FAN_CLOSE_NOWRITE != 0 {
        EventKind::CloseNoWrite
    } else if mask & FAN_CLOSE_WRITE != 0 {
        EventKind::CloseWrite
    } else if mask & FAN_OPEN != 0 {
        EventKind::Open
    } else if mask & FAN_OPEN_PERM != 0 {
        EventKind::OpenPerm
    } else if mask & FAN_MODIFY != 0 {
        EventKind::Modify
    } else {
        EventKind::Unknown
    }
}

/// Whether a record with this mask must be answered with a verdict.
pub fn needs_verdict(mask: u64) -> (r: bool)
    ensures
        r == needs_verdict_spec(mask),
{
    mask & PERMISSION_BITS != 0
}

impl EventKind {
    /// The name under which this kind is reported.
    pub fn name(&self) -> (r: String)
        ensures
            r@ == kind_name(*self),
    {
        match self {
            EventKind::Access => "FAN_ACCESS".to_owned(),
            EventKind::AccessPerm => "FAN_ACCESS_PERM".to_owned(),
            EventKind::CloseNoWrite => "FAN_CLOSE_NOWRITE".to_owned(),
            EventKind::CloseWrite => "FAN_CLOSE_WRITE".to_owned(),
            EventKind::Open => "FAN_OPEN".to_owned(),
            EventKind::OpenPerm => "FAN_OPEN_PERM".to_owned(),
            EventKind::Modify => "FAN_MODIFY".to_owned(),
            EventKind::Unknown => "".to_owned(),
        }
    }
}

/// A decoded event: the path of the file, the name of its kind and the
/// process that caused it.
#[derive(Debug)]
pub struct Event {
    pub path: String,
    pub genre: String,
    pub pid: u32,
}

/// Decodes a record whose descriptor resolved to `path`, or to nothing. An
/// unresolved path is reported empty; the kind is classified either way.
pub fn decode(raw: &RawEvent, path: Option<String>) -> (r: Event)
    ensures
        r.path@ == (match path {
            Some(p) => p@,
            None => Seq::<char>::empty(),
        }),
        r.genre@ == kind_name(kind_spec(raw.mask)),
        r.pid == raw.pid as u32,
{
    let kind = kind_of(raw.mask);
    let path = match path {
        Some(p) => p,
        None => String::new(),
    };
    Event { path, genre: kind.name(), pid: raw.pid as u32 }
}

/// Decodes a drained batch, record `i` with the path its descriptor
/// resolved to, `paths[i]`.
pub fn decode_batch(records: &Vec<RawEvent>, paths: Vec<Option<String>>) -> (r: Vec<Event>)
    requires
        records.len() == paths.len(),
    ensures
        r.len() == records.len(),
        forall|i: int|
            0 <= i < r.len() ==> {
                &&& r[i].path@ == (match paths@[i] {
                    Some(p) => p@,
                    None => Seq::<char>::empty(),
                })
                &&& r[i].genre@ == kind_name(kind_spec(records@[i].mask))
                &&& r[i].pid == records@[i].pid as u32
            },
{
    let ghost given = paths@;
    let mut rest = paths;
    let mut out: Vec<Event> = Vec::new();
    let mut i: usize = 0;
    while i < records.len()
        invariant
            records.len() == given.len(),
            0 <= i <= records.len(),
            out.len() == i,
            rest@ == given.subrange(i as int, given.len() as int),
            forall|k: int|
                0 <= k < i ==> {
                    &&& out@[k].path@ == (match given[k] {
                        Some(p) => p@,
                        None => Seq::<char>::empty(),
                    })
                    &&& out@[k].genre@ == kind_name(kind_spec(records@[k].mask))
                    &&& out@[k].pid == records@[k].pid as u32
                },
        decreases records.len() - i,
    {
        let path = rest.remove(0);
        assert(path == given[i as int]);
        out.push(decode(&records[i], path));
        i = i + 1;
        assert(rest@ =~= given.subrange(i as int, given.len() as int));
    }
    out
}

/// Access takes precedence over Modify: a mask with both bits is classified
/// Access, whichever order the bits were combined in.
pub proof fn lemma_access_wins_over_modify(mask: u64)
    requires
        has(mask, FAN_ACCESS),
        has(mask, FAN_MODIFY),
    ensures
        kind_spec(mask) == EventKind::Access,
        kind_spec(mask | FAN_MODIFY) == EventKind::Access,
        kind_spec(FAN_MODIFY | FAN_ACCESS) == kind_spec(FAN_ACCESS | FAN_MODIFY),
        kind_spec(FAN_ACCESS | FAN_MODIFY) == EventKind::Access,
{
    assert((mask | 2u64) & 1u64 != 0) by (bit_vector)
        requires mask & 1u64 != 0;
    assert((2u64 | 1u64) & 1u64 != 0) by (bit_vector);
    assert((1u64 | 2u64) & 1u64 != 0) by (bit_vector);
}

} // verus!
