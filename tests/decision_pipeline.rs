use fanotify::channel::{Fanotify, FanotifyError};
use fanotify::decode::{decode, decode_batch, kind_of, needs_verdict, EventKind, RawEvent};
use fanotify::dispatch::{plan_batch, ChannelOp};
use fanotify::flags::{
    init_flags, mark_flags, FanotifyMode, MarkOp, MarkScope, FAN_ACCESS, FAN_ACCESS_PERM,
    FAN_CLOSE, FAN_CLOSE_NOWRITE, FAN_CLOSE_WRITE, FAN_EVENT_ON_CHILD, FAN_MODIFY, FAN_ONDIR,
    FAN_OPEN, FAN_OPEN_EXEC, FAN_OPEN_EXEC_PERM, FAN_OPEN_PERM,
};
use fanotify::policy::{decide, policy_action, verdict_of_exit, FanotifyResponse, PolicyAction};
use nix::sys::fanotify::{InitFlags, MarkFlags, MaskFlags, Response};

fn rec(mask: u64, has_fd: bool, pid: i32) -> RawEvent {
    RawEvent { mask, has_fd, pid }
}

#[test]
fn mask_constants_match_the_kernel() {
    assert_eq!(FAN_ACCESS, MaskFlags::FAN_ACCESS.bits());
    assert_eq!(FAN_MODIFY, MaskFlags::FAN_MODIFY.bits());
    assert_eq!(FAN_CLOSE_WRITE, MaskFlags::FAN_CLOSE_WRITE.bits());
    assert_eq!(FAN_CLOSE_NOWRITE, MaskFlags::FAN_CLOSE_NOWRITE.bits());
    assert_eq!(FAN_CLOSE, MaskFlags::FAN_CLOSE.bits());
    assert_eq!(FAN_OPEN, MaskFlags::FAN_OPEN.bits());
    assert_eq!(FAN_OPEN_EXEC, MaskFlags::FAN_OPEN_EXEC.bits());
    assert_eq!(FAN_OPEN_PERM, MaskFlags::FAN_OPEN_PERM.bits());
    assert_eq!(FAN_ACCESS_PERM, MaskFlags::FAN_ACCESS_PERM.bits());
    assert_eq!(FAN_OPEN_EXEC_PERM, MaskFlags::FAN_OPEN_EXEC_PERM.bits());
    assert_eq!(FAN_EVENT_ON_CHILD, MaskFlags::FAN_EVENT_ON_CHILD.bits());
    assert_eq!(FAN_ONDIR, MaskFlags::FAN_ONDIR.bits());
}

#[test]
fn init_words_match_the_kernel() {
    let cloexec = InitFlags::FAN_CLOEXEC.bits();
    assert_eq!(init_flags(FanotifyMode::CONTENT, false), cloexec | InitFlags::FAN_CLASS_CONTENT.bits());
    assert_eq!(init_flags(FanotifyMode::CONTENT, false), 5);
    assert_eq!(
        init_flags(FanotifyMode::PRECONTENT, true),
        cloexec | InitFlags::FAN_CLASS_PRE_CONTENT.bits() | InitFlags::FAN_NONBLOCK.bits()
    );
    assert_eq!(init_flags(FanotifyMode::PRECONTENT, true), 11);
    assert_eq!(init_flags(FanotifyMode::NOTIF, false), 1);
    assert_eq!(init_flags(FanotifyMode::NOTIF, true), 3);
}

#[test]
fn mark_words_match_the_kernel() {
    assert_eq!(mark_flags(MarkOp::Add, MarkScope::Path), MarkFlags::FAN_MARK_ADD.bits());
    assert_eq!(
        mark_flags(MarkOp::Add, MarkScope::Mountpoint),
        (MarkFlags::FAN_MARK_ADD | MarkFlags::FAN_MARK_MOUNT).bits()
    );
    assert_eq!(mark_flags(MarkOp::Remove, MarkScope::Path), MarkFlags::FAN_MARK_REMOVE.bits());
    assert_eq!(mark_flags(MarkOp::Flush, MarkScope::Path), MarkFlags::FAN_MARK_FLUSH.bits());
    assert_eq!(mark_flags(MarkOp::Flush, MarkScope::Mountpoint), 0x90);
}

#[test]
fn response_words_match_the_kernel() {
    assert_eq!(FanotifyResponse::Allow.bits(), Response::FAN_ALLOW.bits());
    assert_eq!(FanotifyResponse::Deny.bits(), Response::FAN_DENY.bits());
}

#[test]
fn access_wins_over_modify_in_any_order() {
    assert_eq!(kind_of(FAN_ACCESS | FAN_MODIFY), EventKind::Access);
    assert_eq!(kind_of(FAN_MODIFY | FAN_ACCESS), EventKind::Access);
    assert_eq!(kind_of(FAN_MODIFY), EventKind::Modify);
}

#[test]
fn classification_follows_the_precedence() {
    assert_eq!(kind_of(FAN_ACCESS_PERM | FAN_CLOSE_NOWRITE), EventKind::AccessPerm);
    assert_eq!(kind_of(FAN_CLOSE_NOWRITE | FAN_CLOSE_WRITE), EventKind::CloseNoWrite);
    assert_eq!(kind_of(FAN_CLOSE_WRITE | FAN_OPEN), EventKind::CloseWrite);
    assert_eq!(kind_of(FAN_OPEN | FAN_OPEN_PERM), EventKind::Open);
    assert_eq!(kind_of(FAN_OPEN_PERM | FAN_MODIFY), EventKind::OpenPerm);
    assert_eq!(kind_of(0), EventKind::Unknown);
    assert_eq!(kind_of(FAN_OPEN_EXEC_PERM), EventKind::Unknown);
}

#[test]
fn kind_names() {
    assert_eq!(EventKind::Access.name(), "FAN_ACCESS");
    assert_eq!(EventKind::AccessPerm.name(), "FAN_ACCESS_PERM");
    assert_eq!(EventKind::CloseNoWrite.name(), "FAN_CLOSE_NOWRITE");
    assert_eq!(EventKind::CloseWrite.name(), "FAN_CLOSE_WRITE");
    assert_eq!(EventKind::Open.name(), "FAN_OPEN");
    assert_eq!(EventKind::OpenPerm.name(), "FAN_OPEN_PERM");
    assert_eq!(EventKind::Modify.name(), "FAN_MODIFY");
    assert_eq!(EventKind::Unknown.name(), "");
}

#[test]
fn permission_bits_need_a_verdict() {
    assert!(needs_verdict(FAN_OPEN_PERM));
    assert!(needs_verdict(FAN_ACCESS_PERM));
    assert!(needs_verdict(FAN_OPEN_EXEC_PERM));
    assert!(needs_verdict(FAN_ACCESS | FAN_OPEN_PERM));
    assert!(!needs_verdict(FAN_OPEN | FAN_CLOSE | FAN_MODIFY | FAN_ACCESS));
    assert!(!needs_verdict(0));
}

#[test]
fn unresolved_path_decodes_to_empty() {
    let e = decode(&rec(FAN_CLOSE_WRITE, true, 42), None);
    assert_eq!(e.path, "");
    assert_eq!(e.genre, "FAN_CLOSE_WRITE");
    assert_eq!(e.pid, 42);
}

#[test]
fn resolved_path_is_kept() {
    let e = decode(&rec(FAN_ACCESS | FAN_MODIFY, true, 7), Some(String::from("/tmp/a")));
    assert_eq!(e.path, "/tmp/a");
    assert_eq!(e.genre, "FAN_ACCESS");
    assert_eq!(e.pid, 7);
}

#[test]
fn no_verifier_allows_without_running() {
    let path = String::from("/usr/bin/ls");
    assert_eq!(policy_action(None, &path), PolicyAction::Decided(FanotifyResponse::Allow));
    let empty = String::new();
    assert_eq!(policy_action(None, &empty), PolicyAction::Decided(FanotifyResponse::Allow));
}

#[test]
fn verifier_is_exempt_on_its_own_path() {
    let scanner = String::from("/usr/local/bin/scan");
    let same = String::from("/usr/local/bin/scan");
    assert_eq!(
        policy_action(Some(&scanner), &same),
        PolicyAction::Decided(FanotifyResponse::Allow)
    );
    let other = String::from("/usr/bin/ls");
    assert_eq!(policy_action(Some(&scanner), &other), PolicyAction::RunVerifier);
}

#[test]
fn exit_code_decides() {
    assert_eq!(verdict_of_exit(Some(0)), FanotifyResponse::Allow);
    assert_eq!(verdict_of_exit(Some(7)), FanotifyResponse::Deny);
    assert_eq!(verdict_of_exit(Some(-1)), FanotifyResponse::Deny);
    assert_eq!(verdict_of_exit(None), FanotifyResponse::Deny);
}

#[test]
fn each_permission_record_is_answered_once_and_released_once() {
    let records = vec![
        rec(FAN_OPEN_PERM, true, 10),
        rec(FAN_CLOSE_WRITE, true, 11),
        rec(FAN_ACCESS_PERM | FAN_ACCESS, true, 12),
        rec(0x4000, false, 0),
    ];
    let verdicts = vec![
        FanotifyResponse::Allow,
        FanotifyResponse::Allow,
        FanotifyResponse::Deny,
        FanotifyResponse::Allow,
    ];
    let ops = plan_batch(&records, &verdicts);
    assert_eq!(
        ops,
        vec![
            ChannelOp::Respond { index: 0, response: FanotifyResponse::Allow },
            ChannelOp::Release { index: 0 },
            ChannelOp::Respond { index: 2, response: FanotifyResponse::Deny },
            ChannelOp::Release { index: 2 },
        ]
    );
}

#[test]
fn permission_record_without_descriptor_is_not_answered() {
    let records = vec![rec(FAN_OPEN_PERM, false, 1), rec(FAN_OPEN, true, 2)];
    let verdicts = vec![FanotifyResponse::Deny, FanotifyResponse::Deny];
    assert!(plan_batch(&records, &verdicts).is_empty());
}

#[test]
fn empty_batch_has_no_operations() {
    assert!(plan_batch(&Vec::new(), &Vec::new()).is_empty());
}

#[test]
fn open_permission_without_verifier_is_allowed_end_to_end() {
    let raw = rec(FAN_OPEN_PERM, true, 4242);
    let event = decode(&raw, Some(String::from("/mnt/watched/file.txt")));
    assert_eq!(event.genre, "FAN_OPEN_PERM");
    assert_eq!(event.path, "/mnt/watched/file.txt");
    assert_eq!(event.pid, 4242);
    let verdict = match policy_action(None, &event.path) {
        PolicyAction::Decided(v) => v,
        PolicyAction::RunVerifier => panic!("no verifier is configured"),
    };
    assert_eq!(verdict, FanotifyResponse::Allow);
    let ops = plan_batch(&vec![raw], &vec![verdict]);
    assert_eq!(
        ops,
        vec![
            ChannelOp::Respond { index: 0, response: FanotifyResponse::Allow },
            ChannelOp::Release { index: 0 },
        ]
    );
}

#[test]
fn opening_a_group_reports_kernel_refusal_as_an_error() {
    match Fanotify::new_with_nonblocking(FanotifyMode::CONTENT) {
        Ok(mut f) => {
            let r = f.add_path(FAN_OPEN, "/nonexistent/path/for/marking");
            assert!(matches!(r, Err(FanotifyError::Os(_))));
        }
        Err(e) => assert!(matches!(e, FanotifyError::Os(code) if code > 0)),
    }
}

#[test]
fn only_answered_records_reach_the_policy() {
    let path = String::from("/bin/true");
    let scanner = String::from("/usr/local/bin/scan");
    assert_eq!(decide(&rec(FAN_OPEN, true, 1), &path, Some(&scanner)), None);
    assert_eq!(decide(&rec(FAN_OPEN_PERM, false, 1), &path, Some(&scanner)), None);
    assert_eq!(
        decide(&rec(FAN_OPEN_EXEC_PERM, true, 1), &path, Some(&scanner)),
        Some(PolicyAction::RunVerifier)
    );
    assert_eq!(
        decide(&rec(FAN_OPEN_PERM, true, 1), &path, None),
        Some(PolicyAction::Decided(FanotifyResponse::Allow))
    );
}

#[test]
fn batch_decoding_keeps_order_and_paths() {
    let records = vec![rec(FAN_OPEN_PERM, true, 3), rec(FAN_MODIFY, true, 4)];
    let events = decode_batch(&records, vec![Some(String::from("/a")), None]);
    assert_eq!(events.len(), 2);
    assert_eq!(events[0].path, "/a");
    assert_eq!(events[0].genre, "FAN_OPEN_PERM");
    assert_eq!(events[0].pid, 3);
    assert_eq!(events[1].path, "");
    assert_eq!(events[1].genre, "FAN_MODIFY");
    assert_eq!(events[1].pid, 4);
}
