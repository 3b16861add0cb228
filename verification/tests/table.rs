use syscall_dispatch::table::{entries, lookup, Sys};

/// Entry, identifier, stub, arity, takes the saved context.
fn rows() -> Vec<(Sys, usize, bool, usize, bool)> {
    vec![
        (Sys::Read, 0, false, 3, false),
        (Sys::Write, 1, false, 3, false),
        (Sys::Open, 2, false, 3, false),
        (Sys::Close, 3, false, 1, false),
        (Sys::Stat, 4, false, 2, false),
        (Sys::Fstat, 5, false, 2, false),
        (Sys::Lseek, 8, false, 3, false),
        (Sys::Mmap, 9, false, 6, false),
        (Sys::Munmap, 11, false, 2, false),
        (Sys::Brk, 12, true, 0, false),
        (Sys::Sigaction, 13, true, 0, false),
        (Sys::Sigprocmask, 14, true, 0, false),
        (Sys::Ioctl, 16, true, 0, false),
        (Sys::Readv, 19, false, 3, false),
        (Sys::Writev, 20, false, 3, false),
        (Sys::Yield, 24, false, 0, false),
        (Sys::Dup2, 33, false, 2, false),
        (Sys::Sleep, 35, false, 1, false),
        (Sys::Getpid, 39, false, 0, false),
        (Sys::Fork, 57, false, 0, true),
        (Sys::Exec, 59, false, 3, true),
        (Sys::Exit, 60, false, 1, false),
        (Sys::Wait, 61, false, 2, false),
        (Sys::Kill, 62, false, 1, false),
        (Sys::Getdirentry, 78, false, 2, false),
        (Sys::GetTime, 96, false, 0, false),
        (Sys::Getuid, 102, true, 0, false),
        (Sys::Geteuid, 107, true, 0, false),
        (Sys::Getegid, 108, true, 0, false),
        (Sys::Sigaltstack, 131, true, 0, false),
        (Sys::SetPriority, 141, false, 1, false),
        (Sys::ArchPrctl, 158, false, 2, true),
        (Sys::SetTidAddress, 218, true, 0, false),
        (Sys::ExitGroup, 231, true, 1, false),
    ]
}

#[test]
fn every_entry_has_its_identifier() {
    for (entry, id, _, _, _) in rows() {
        assert_eq!(entry.id(), id);
        assert_eq!(lookup(id), Some(entry));
    }
}

#[test]
fn lookup_finds_nothing_between_entries() {
    let ids: Vec<usize> = rows().iter().map(|row| row.1).collect();
    for id in 0usize..2048 {
        assert_eq!(lookup(id).is_some(), ids.contains(&id));
    }
    for id in [6usize, 7, 10, 15, 17, 18, 21, 56, 58, 63, 217, 219, 230, 232, 293] {
        assert_eq!(lookup(id), None);
    }
    assert_eq!(lookup(usize::MAX), None);
}

#[test]
fn entries_lists_the_whole_table_by_rising_identifier() {
    let all = entries();
    let expected: Vec<Sys> = rows().iter().map(|row| row.0).collect();
    assert_eq!(all.len(), 34);
    assert_eq!(all, expected);
    for pair in all.windows(2) {
        assert!(pair[0].id() < pair[1].id());
    }
}

#[test]
fn stubs_are_the_ten_compatibility_entries() {
    for (entry, _, stub, _, _) in rows() {
        assert_eq!(entry.is_stub(), stub);
    }
    let stubs: Vec<usize> = entries().iter().filter(|e| e.is_stub()).map(|e| e.id()).collect();
    assert_eq!(stubs, vec![12, 13, 14, 16, 102, 107, 108, 131, 218, 231]);
}

#[test]
fn every_entry_has_its_arity() {
    for (entry, _, _, arity, _) in rows() {
        assert_eq!(entry.arity(), arity);
    }
    assert_eq!(Sys::Mmap.arity(), 6);
    assert_eq!(Sys::Yield.arity(), 0);
    assert_eq!(Sys::ExitGroup.arity(), 1);
}

#[test]
fn three_handlers_take_the_saved_context() {
    for (entry, _, _, _, frame) in rows() {
        assert_eq!(entry.takes_frame(), frame);
    }
    let takers: Vec<Sys> = entries().into_iter().filter(|e| e.takes_frame()).collect();
    assert_eq!(takers, vec![Sys::Fork, Sys::Exec, Sys::ArchPrctl]);
}

#[test]
fn a_stub_names_itself_in_its_notice() {
    assert_eq!(Sys::Brk.notice(), Some("sys_brk is unimplemented"));
    assert_eq!(Sys::Sigaction.notice(), Some("sys_sigaction is unimplemented"));
    assert_eq!(Sys::Sigprocmask.notice(), Some("sys_sigprocmask is unimplemented"));
    assert_eq!(Sys::Ioctl.notice(), Some("sys_ioctl is unimplemented"));
    assert_eq!(Sys::Getuid.notice(), Some("sys_getuid is unimplemented"));
    assert_eq!(Sys::Geteuid.notice(), Some("sys_geteuid is unimplemented"));
    assert_eq!(Sys::Getegid.notice(), Some("sys_getegid is unimplemented"));
    assert_eq!(Sys::Sigaltstack.notice(), Some("sys_sigaltstack is unimplemented"));
    assert_eq!(Sys::SetTidAddress.notice(), Some("sys_set_tid_address is unimplemented"));
    assert_eq!(Sys::ExitGroup.notice(), Some("sys_exit_group is unimplemented"));
}

#[test]
fn a_handler_entry_has_no_notice() {
    for (entry, _, stub, _, _) in rows() {
        assert_eq!(entry.notice().is_some(), stub);
    }
    assert_eq!(Sys::Read.notice(), None);
    assert_eq!(Sys::ArchPrctl.notice(), None);
}
