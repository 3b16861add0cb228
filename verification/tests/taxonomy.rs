use syscall_dispatch::error::SysError;
use syscall_dispatch::result::{collapse, expand, SysResult};

fn all_kinds() -> Vec<(SysError, isize, &'static str)> {
    vec![
        (SysError::EUNDEF, 0, "Unknown error"),
        (SysError::EPERM, 1, "Operation not permitted"),
        (SysError::ENOENT, 2, "No such file or directory"),
        (SysError::ESRCH, 3, "No such process"),
        (SysError::EINTR, 4, "Interrupted system call"),
        (SysError::EIO, 5, "I/O error"),
        (SysError::ENXIO, 6, "No such device or address"),
        (SysError::E2BIG, 7, "Argument list too long"),
        (SysError::ENOEXEC, 8, "Exec format error"),
        (SysError::EBADF, 9, "Bad file number"),
        (SysError::ECHILD, 10, "No child processes"),
        (SysError::EAGAIN, 11, "Try again"),
        (SysError::ENOMEM, 12, "Out of memory"),
        (SysError::EACCES, 13, "Permission denied"),
        (SysError::EFAULT, 14, "Bad address"),
        (SysError::ENOTBLK, 15, "Block device required"),
        (SysError::EBUSY, 16, "Device or resource busy"),
        (SysError::EEXIST, 17, "File exists"),
        (SysError::EXDEV, 18, "Cross-device link"),
        (SysError::ENODEV, 19, "No such device"),
        (SysError::ENOTDIR, 20, "Not a directory"),
        (SysError::EISDIR, 21, "Is a directory"),
        (SysError::EINVAL, 22, "Invalid argument"),
        (SysError::ENFILE, 23, "File table overflow"),
        (SysError::EMFILE, 24, "Too many open files"),
        (SysError::ENOTTY, 25, "Not a typewriter"),
        (SysError::ETXTBSY, 26, "Text file busy"),
        (SysError::EFBIG, 27, "File too large"),
        (SysError::ENOSPC, 28, "No space left on device"),
        (SysError::ESPIPE, 29, "Illegal seek"),
        (SysError::EROFS, 30, "Read-only file system"),
        (SysError::EMLINK, 31, "Too many links"),
        (SysError::EPIPE, 32, "Broken pipe"),
        (SysError::EDOM, 33, "Math argument out of domain of func"),
        (SysError::ERANGE, 34, "Math result not representable"),
        (SysError::EDEADLK, 35, "Resource deadlock would occur"),
        (SysError::ENAMETOOLONG, 36, "File name too long"),
        (SysError::ENOLCK, 37, "No record locks available"),
        (SysError::ENOSYS, 38, "Function not implemented"),
        (SysError::ENOTEMPTY, 39, "Directory not empty"),
    ]
}

#[test]
fn every_kind_has_its_code() {
    let kinds = all_kinds();
    assert_eq!(kinds.len(), 40);
    for (kind, code, _) in kinds {
        assert_eq!(kind.code(), code);
    }
}

#[test]
fn selected_codes_follow_errno_numbering() {
    assert_eq!(SysError::EPERM.code(), 1);
    assert_eq!(SysError::ENOENT.code(), 2);
    assert_eq!(SysError::EBADF.code(), 9);
    assert_eq!(SysError::EFAULT.code(), 14);
    assert_eq!(SysError::EINVAL.code(), 22);
    assert_eq!(SysError::ENOSYS.code(), 38);
    assert_eq!(SysError::ENOTEMPTY.code(), 39);
}

#[test]
fn from_code_inverts_code() {
    for (kind, code, _) in all_kinds() {
        assert_eq!(SysError::from_code(code), Some(kind));
        assert_eq!(SysError::from_code(kind.code()).map(|k| k.code()), Some(code));
    }
}

#[test]
fn from_code_rejects_codes_outside_the_taxonomy() {
    assert_eq!(SysError::from_code(-1), None);
    assert_eq!(SysError::from_code(40), None);
    assert_eq!(SysError::from_code(isize::MAX), None);
    assert_eq!(SysError::from_code(isize::MIN), None);
}

#[test]
fn codes_are_pairwise_distinct() {
    let kinds = all_kinds();
    for (i, (a, _, _)) in kinds.iter().enumerate() {
        for (j, (b, _, _)) in kinds.iter().enumerate() {
            assert_eq!(a.code() == b.code(), i == j);
        }
    }
}

#[test]
fn every_kind_has_its_phrase() {
    for (kind, _, phrase) in all_kinds() {
        assert_eq!(kind.description(), phrase);
        assert_eq!(kind.to_string(), phrase.to_string());
    }
}

#[test]
fn unclassified_failure_reads_unknown_error() {
    assert_eq!(SysError::EUNDEF.description(), "Unknown error");
    assert_eq!(SysError::EUNDEF.to_string(), "Unknown error");
}

#[test]
fn formatting_twice_gives_the_same_string() {
    for (kind, _, _) in all_kinds() {
        let first = kind.to_string();
        let second = kind.to_string();
        assert_eq!(first, second);
        assert_eq!(kind.description(), kind.description());
    }
}

#[test]
fn phrases_are_pairwise_distinct() {
    let kinds = all_kinds();
    for (i, (a, _, _)) in kinds.iter().enumerate() {
        for (j, (b, _, _)) in kinds.iter().enumerate() {
            assert_eq!(a.description() == b.description(), i == j);
        }
    }
}

#[test]
fn success_collapses_to_its_payload() {
    assert_eq!(collapse(Ok(0)), 0);
    assert_eq!(collapse(Ok(1)), 1);
    assert_eq!(collapse(Ok(4096)), 4096);
    assert_eq!(collapse(Ok(isize::MAX)), isize::MAX);
}

#[test]
fn failure_collapses_to_its_negated_code() {
    for (kind, code, _) in all_kinds() {
        assert_eq!(collapse(Err(kind)), -code);
    }
    assert_eq!(collapse(Err(SysError::ENOENT)), -2);
    assert_eq!(collapse(Err(SysError::ENOTEMPTY)), -39);
}

#[test]
fn named_failures_collapse_below_zero() {
    for (kind, _, _) in all_kinds() {
        if kind != SysError::EUNDEF {
            let raw = collapse(Err(kind));
            assert!(raw < 0);
            assert!(raw >= -39);
        }
    }
}

#[test]
fn well_formed_outcomes_never_collide() {
    let mut outcomes: Vec<SysResult> = Vec::new();
    for payload in [0isize, 1, 2, 38, 39, 40, 1000, isize::MAX] {
        outcomes.push(Ok(payload));
    }
    for (kind, _, _) in all_kinds() {
        if kind != SysError::EUNDEF {
            outcomes.push(Err(kind));
        }
    }
    for (i, a) in outcomes.iter().enumerate() {
        for (j, b) in outcomes.iter().enumerate() {
            assert_eq!(collapse(*a) == collapse(*b), i == j);
        }
    }
}

#[test]
fn unclassified_failure_collapses_onto_payload_zero() {
    assert_eq!(collapse(Err(SysError::EUNDEF)), 0);
    assert_eq!(collapse(Err(SysError::EUNDEF)), collapse(Ok(0)));
}

#[test]
fn expand_inverts_collapse() {
    for payload in [0isize, 1, 7, 39, 40, 65536, isize::MAX] {
        assert_eq!(expand(collapse(Ok(payload))), Some(Ok(payload)));
    }
    for (kind, _, _) in all_kinds() {
        if kind != SysError::EUNDEF {
            assert_eq!(expand(collapse(Err(kind))), Some(Err(kind)));
        }
    }
}

#[test]
fn collapse_inverts_expand() {
    for raw in -39isize..=200 {
        let outcome = expand(raw).expect("in range");
        assert_eq!(collapse(outcome), raw);
    }
    assert_eq!(expand(-1), Some(Err(SysError::EPERM)));
    assert_eq!(expand(-22), Some(Err(SysError::EINVAL)));
    assert_eq!(expand(0), Some(Ok(0)));
}

#[test]
fn expand_rejects_integers_below_the_codes() {
    assert_eq!(expand(-40), None);
    assert_eq!(expand(-1000), None);
    assert_eq!(expand(isize::MIN), None);
}
