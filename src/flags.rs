//! The fanotify flag vocabulary and the flag words handed to the kernel.
use vstd::prelude::*;

verus! {

/// Event fired when a file is read.
pub const FAN_ACCESS: u64 = 0x0000_0001;
/// Event fired when a file is written.
pub const FAN_MODIFY: u64 = 0x0000_0002;
/// Event fired when a file opened for writing is closed.
pub const FAN_CLOSE_WRITE: u64 = 0x0000_0008;
/// Event fired when a file opened read-only is closed.
pub const FAN_CLOSE_NOWRITE: u64 = 0x0000_0010;
/// Both kinds of close.
pub const FAN_CLOSE: u64 = 0x0000_0018;
/// Event fired when a file is opened.
pub const FAN_OPEN: u64 = 0x0000_0020;
/// Event fired when a file is opened for execution.
pub const FAN_OPEN_EXEC: u64 = 0x0000_1000;
/// Permission event: an open waits for a verdict.
pub const FAN_OPEN_PERM: u64 = 0x0001_0000;
/// Permission event: a read waits for a verdict.
pub const FAN_ACCESS_PERM: u64 = 0x0002_0000;
/// Permission event: an open for execution waits for a verdict.
pub const FAN_OPEN_EXEC_PERM: u64 = 0x0004_0000;
/// Mark flag: also report events on the children of a marked directory.
pub const FAN_EVENT_ON_CHILD: u64 = 0x0800_0000;
/// Mark flag: also report events on directories.
pub const FAN_ONDIR: u64 = 0x4000_0000;

/// The bits of a mask whose events block until a verdict is written.
pub const PERMISSION_BITS: u64 = 0x0007_0000;

/// Initialisation flag: the group descriptor is closed on exec.
pub const FAN_CLOEXEC: u32 = 0x0000_0001;
/// Initialisation flag: reads on the group do not block.
pub const FAN_NONBLOCK: u32 = 0x0000_0002;
/// Notification class: events are reported only, never blocked.
pub const FAN_CLASS_NOTIF: u32 = 0x0000_0000;
/// Notification class: permission events once content is final.
pub const FAN_CLASS_CONTENT: u32 = 0x0000_0004;
/// Notification class: permission events before content is final.
pub const FAN_CLASS_PRE_CONTENT: u32 = 0x0000_0008;

/// Flags of the descriptors that events carry: read-only, closed on exec.
pub const EVENT_FILE_FLAGS: u32 = 0x0008_0000;

/// Mark operation: add to the mark's mask.
pub const FAN_MARK_ADD: u32 = 0x0000_0001;
/// Mark operation: remove from the mark's mask.
pub const FAN_MARK_REMOVE: u32 = 0x0000_0002;
/// Mark scope: the whole mount that holds the path.
pub const FAN_MARK_MOUNT: u32 = 0x0000_0010;
/// Mark operation: remove every mark of the given scope.
pub const FAN_MARK_FLUSH: u32 = 0x0000_0080;

/// Response word that lets a blocked operation go on.
pub const FAN_ALLOW: u32 = 0x0000_0001;
/// Response word that makes a blocked operation fail.
pub const FAN_DENY: u32 = 0x0000_0002;

/// The class a notification group is opened with.
#[derive(Clone, Copy, Debug, PartialEq, Eq, Structural)]
pub enum FanotifyMode {
    PRECONTENT,
    CONTENT,
    NOTIF,
}

/// Class flag of a mode.
pub open spec fn class_bits(mode: FanotifyMode) -> u32 {
    match mode {
        FanotifyMode::PRECONTENT => FAN_CLASS_PRE_CONTENT,
        FanotifyMode::CONTENT => FAN_CLASS_CONTENT,
        FanotifyMode::NOTIF => FAN_CLASS_NOTIF,
    }
}

/// The initialisation word for a mode: always close-on-exec, with the
/// non-blocking flag exactly when asked for.
pub open spec fn init_word(mode: FanotifyMode, nonblocking: bool) -> u32 {
    FAN_CLOEXEC | class_bits(mode) | (if nonblocking { FAN_NONBLOCK } else { 0u32 })
}

/// Computes the initialisation word of a group of the given class.
pub fn init_flags(mode: FanotifyMode, nonblocking: bool) -> (r: u32)
    ensures
        r == init_word(mode, nonblocking),
{
    let class: u32 = match mode {
        FanotifyMode::PRECONTENT => FAN_CLASS_PRE_CONTENT,
        FanotifyMode::CONTENT => FAN_CLASS_CONTENT,
        FanotifyMode::NOTIF => FAN_CLASS_NOTIF,
    };
    let blocking_bit: u32 = if nonblocking { FAN_NONBLOCK } else { 0 };
    FAN_CLOEXEC | class | blocking_bit
}

/// What a mark request does to the marks of its scope.
#[derive(Clone, Copy, Debug, PartialEq, Eq, Structural)]
pub enum MarkOp {
    Add,
    Remove,
    Flush,
}

/// Whether a mark covers one path or the whole mount that holds it.
#[derive(Clone, Copy, Debug, PartialEq, Eq, Structural)]
pub enum MarkScope {
    Path,
    Mountpoint,
}

/// The flag word of a mark request.
pub open spec fn mark_word(op: MarkOp, scope: MarkScope) -> u32 {
    let op_bits = match op {
        MarkOp::Add => FAN_MARK_ADD,
        MarkOp::Remove => FAN_MARK_REMOVE,
        MarkOp::Flush => FAN_MARK_FLUSH,
    };
    match scope {
        MarkScope::Path => op_bits,
        MarkScope::Mountpoint => op_bits | FAN_MARK_MOUNT,
    }
}

/// Computes the flag word of a mark request.
pub fn mark_flags(op: MarkOp, scope: MarkScope) -> (r: u32)
    ensures
        r == mark_word(op, scope),
{
    let op_bits: u32 = match op {
        MarkOp::Add => FAN_MARK_ADD,
        MarkOp::Remove => FAN_MARK_REMOVE,
        MarkOp::Flush => FAN_MARK_FLUSH,
    };
    match scope {
        MarkScope::Path => op_bits,
        MarkScope::Mountpoint => op_bits | FAN_MARK_MOUNT,
    }
}

} // verus!
