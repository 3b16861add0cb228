//! The table of supported calls.
//!
//! Each entry pairs a call identifier with what the kernel does for it. The
//! identifiers are sparse: a value between two entries is not an entry. An
//! entry is either served by a handler of its own or is a stub, a call that
//! is recognised for compatibility and answered without doing its work.

use vstd::prelude::*;

verus! {

/// An entry of the table.
#[derive(Debug, Clone, Copy, PartialEq, Eq, Structural)]
pub enum Sys {
    /// 0: read from a descriptor into a buffer.
    Read,
    /// 1: write a buffer to a descriptor.
    Write,
    /// 2: open a path.
    Open,
    /// 3: close a descriptor.
    Close,
    /// 4: file status by path.
    Stat,
    /// 5: file status by descriptor.
    Fstat,
    /// 8: move a descriptor's offset.
    Lseek,
    /// 9: map memory.
    Mmap,
    /// 11: unmap memory.
    Munmap,
    /// 12: set the program break (stub).
    Brk,
    /// 13: set a signal action (stub).
    Sigaction,
    /// 14: set the signal mask (stub).
    Sigprocmask,
    /// 16: device control (stub).
    Ioctl,
    /// 19: scatter read.
    Readv,
    /// 20: gather write.
    Writev,
    /// 24: give up the processor.
    Yield,
    /// 33: duplicate a descriptor onto another.
    Dup2,
    /// 35: sleep.
    Sleep,
    /// 39: the caller's process identifier.
    Getpid,
    /// 57: create a child process.
    Fork,
    /// 59: replace the process image.
    Exec,
    /// 60: end the calling process.
    Exit,
    /// 61: wait for a child.
    Wait,
    /// 62: end another process.
    Kill,
    /// 78: read a directory entry.
    Getdirentry,
    /// 96: the current time.
    GetTime,
    /// 102: the caller's user identifier (stub).
    Getuid,
    /// 107: the caller's effective user identifier (stub).
    Geteuid,
    /// 108: the caller's effective group identifier (stub).
    Getegid,
    /// 131: set the alternate signal stack (stub).
    Sigaltstack,
    /// 141: set the scheduling priority.
    SetPriority,
    /// 158: architecture-specific thread state.
    ArchPrctl,
    /// 218: set the thread-identifier address (stub).
    SetTidAddress,
    /// 231: end every thread of the process (stub).
    ExitGroup,
}

/// The entry with the given identifier, if the table has one.
pub open spec fn spec_lookup(id: int) -> Option<Sys> {
    if id == 0 {
        Some(Sys::Read)
    } else if id == 1 {
        Some(Sys::Write)
    } else if id == 2 {
        Some(Sys::Open)
    } else if id == 3 {
        Some(Sys::Close)
    } else if id == 4 {
        Some(Sys::Stat)
    } else if id == 5 {
        Some(Sys::Fstat)
    } else if id == 8 {
        Some(Sys::Lseek)
    } else if id == 9 {
        Some(Sys::Mmap)
    } else if id == 11 {
        Some(Sys::Munmap)
    } else if id == 12 {
        Some(Sys::Brk)
    } else if id == 13 {
        Some(Sys::Sigaction)
    } else if id == 14 {
        Some(Sys::Sigprocmask)
    } else if id == 16 {
        Some(Sys::Ioctl)
    } else if id == 19 {
        Some(Sys::Readv)
    } else if id == 20 {
        Some(Sys::Writev)
    } else if id == 24 {
        Some(Sys::Yield)
    } else if id == 33 {
        Some(Sys::Dup2)
    } else if id == 35 {
        Some(Sys::Sleep)
    } else if id == 39 {
        Some(Sys::Getpid)
    } else if id == 57 {
        Some(Sys::Fork)
    } else if id == 59 {
        Some(Sys::Exec)
    } else if id == 60 {
        Some(Sys::Exit)
    } else if id == 61 {
        Some(Sys::Wait)
    } else if id == 62 {
        Some(Sys::Kill)
    } else if id == 78 {
        Some(Sys::Getdirentry)
    } else if id == 96 {
        Some(Sys::GetTime)
    } else if id == 102 {
        Some(Sys::Getuid)
    } else if id == 107 {
        Some(Sys::Geteuid)
    } else if id == 108 {
        Some(Sys::Getegid)
    } else if id == 131 {
        Some(Sys::Sigaltstack)
    } else if id == 141 {
        Some(Sys::SetPriority)
    } else if id == 158 {
        Some(Sys::ArchPrctl)
    } else if id == 218 {
        Some(Sys::SetTidAddress)
    } else if id == 231 {
        Some(Sys::ExitGroup)
    } else {
        None
    }
}

/// An identifier is supported when the table has an entry for it.
pub open spec fn in_table(id: int) -> bool {
    spec_lookup(id) is Some
}

impl Sys {
    /// The identifier of this entry.
    pub open spec fn spec_id(self) -> int {
        match self {
            Sys::Read => 0,
            Sys::Write => 1,
            Sys::Open => 2,
            Sys::Close => 3,
            Sys::Stat => 4,
            Sys::Fstat => 5,
            Sys::Lseek => 8,
            Sys::Mmap => 9,
            Sys::Munmap => 11,
            Sys::Brk => 12,
            Sys::Sigaction => 13,
            Sys::Sigprocmask => 14,
            Sys::Ioctl => 16,
            Sys::Readv => 19,
            Sys::Writev => 20,
            Sys::Yield => 24,
            Sys::Dup2 => 33,
            Sys::Sleep => 35,
            Sys::Getpid => 39,
            Sys::Fork => 57,
            Sys::Exec => 59,
            Sys::Exit => 60,
            Sys::Wait => 61,
            Sys::Kill => 62,
            Sys::Getdirentry => 78,
            Sys::GetTime => 96,
            Sys::Getuid => 102,
            Sys::Geteuid => 107,
            Sys::Getegid => 108,
            Sys::Sigaltstack => 131,
            Sys::SetPriority => 141,
            Sys::ArchPrctl => 158,
            Sys::SetTidAddress => 218,
            Sys::ExitGroup => 231,
        }
    }

    /// Whether this entry is a stub.
    pub open spec fn spec_is_stub(self) -> bool {
        match self {
            Sys::Brk
            | Sys::Sigaction
            | Sys::Sigprocmask
            | Sys::Ioctl
            | Sys::Getuid
            | Sys::Geteuid
            | Sys::Getegid
            | Sys::Sigaltstack
            | Sys::SetTidAddress
            | Sys::ExitGroup => true,
            _ => false,
        }
    }

    /// How many of the six argument words this entry reads, counted from the
    /// first.
    pub open spec fn spec_arity(self) -> nat {
        match self {
            Sys::Brk
            | Sys::Sigaction
            | Sys::Sigprocmask
            | Sys::Ioctl
            | Sys::Yield
            | Sys::Getpid
            | Sys::Fork
            | Sys::GetTime
            | Sys::Getuid
            | Sys::Geteuid
            | Sys::Getegid
            | Sys::Sigaltstack
            | Sys::SetTidAddress => 0,
            Sys::Close
            | Sys::Sleep
            | Sys::Exit
            | Sys::Kill
            | Sys::SetPriority
            | Sys::ExitGroup => 1,
            Sys::Stat
            | Sys::Fstat
            | Sys::Munmap
            | Sys::Dup2
            | Sys::Wait
            | Sys::Getdirentry
            | Sys::ArchPrctl => 2,
            Sys::Read
            | Sys::Write
            | Sys::Open
            | Sys::Lseek
            | Sys::Readv
            | Sys::Writev
            | Sys::Exec => 3,
            Sys::Mmap => 6,
        }
    }

    /// Whether the handler of this entry works on the saved context of the
    /// interrupted thread.
    pub open spec fn spec_takes_frame(self) -> bool {
        match self {
            Sys::Fork | Sys::Exec | Sys::ArchPrctl => true,
            _ => false,
        }
    }

    /// The notice that is due when this entry is answered: a stub names
    /// itself as not implemented, any other entry is silent.
    pub open spec fn spec_notice(self) -> Option<Seq<char>> {
        match self {
            Sys::Brk => Some("sys_brk is unimplemented"@),
            Sys::Sigaction => Some("sys_sigaction is unimplemented"@),
            Sys::Sigprocmask => Some("sys_sigprocmask is unimplemented"@),
            Sys::Ioctl => Some("sys_ioctl is unimplemented"@),
            Sys::Getuid => Some("sys_getuid is unimplemented"@),
            Sys::Geteuid => Some("sys_geteuid is unimplemented"@),
            Sys::Getegid => Some("sys_getegid is unimplemented"@),
            Sys::Sigaltstack => Some("sys_sigaltstack is unimplemented"@),
            Sys::SetTidAddress => Some("sys_set_tid_address is unimplemented"@),
            Sys::ExitGroup => Some("sys_exit_group is unimplemented"@),
            _ => None,
        }
    }

    /// The identifier of this entry.
    pub fn id(self) -> (id: usize)
        ensures
            id == self.spec_id(),
            spec_lookup(id as int) == Some(self),
    {
        match self {
            Sys::Read => 0,
            Sys::Write => 1,
            Sys::Open => 2,
            Sys::Close => 3,
            Sys::Stat => 4,
            Sys::Fstat => 5,
            Sys::Lseek => 8,
            Sys::Mmap => 9,
            Sys::Munmap => 11,
            Sys::Brk => 12,
            Sys::Sigaction => 13,
            Sys::Sigprocmask => 14,
            Sys::Ioctl => 16,
            Sys::Readv => 19,
            Sys::Writev => 20,
            Sys::Yield => 24,
            Sys::Dup2 => 33,
            Sys::Sleep => 35,
            Sys::Getpid => 39,
            Sys::Fork => 57,
            Sys::Exec => 59,
            Sys::Exit => 60,
            Sys::Wait => 61,
            Sys::Kill => 62,
            Sys::Getdirentry => 78,
            Sys::GetTime => 96,
            Sys::Getuid => 102,
            Sys::Geteuid => 107,
            Sys::Getegid => 108,
            Sys::Sigaltstack => 131,
            Sys::SetPriority => 141,
            Sys::ArchPrctl => 158,
            Sys::SetTidAddress => 218,
            Sys::ExitGroup => 231,
        }
    }

    /// Whether this entry is a stub.
    pub fn is_stub(self) -> (stub: bool)
        ensures
            stub == self.spec_is_stub(),
    {
        match self {
            Sys::Brk
            | Sys::Sigaction
            | Sys::Sigprocmask
            | Sys::Ioctl
            | Sys::Getuid
            | Sys::Geteuid
            | Sys::Getegid
            | Sys::Sigaltstack
            | Sys::SetTidAddress
            | Sys::ExitGroup => true,
            _ => false,
        }
    }

    /// How many of the six argument words this entry reads.
    pub fn arity(self) -> (n: usize)
        ensures
            n == self.spec_arity(),
            n <= 6,
    {
        match self {
            Sys::Brk
            | Sys::Sigaction
            | Sys::Sigprocmask
            | Sys::Ioctl
            | Sys::Yield
            | Sys::Getpid
            | Sys::Fork
            | Sys::GetTime
            | Sys::Getuid
            | Sys::Geteuid
            | Sys::Getegid
            | Sys::Sigaltstack
            | Sys::SetTidAddress => 0,
            Sys::Close
            | Sys::Sleep
            | Sys::Exit
            | Sys::Kill
            | Sys::SetPriority
            | Sys::ExitGroup => 1,
            Sys::Stat
            | Sys::Fstat
            | Sys::Munmap
            | Sys::Dup2
            | Sys::Wait
            | Sys::Getdirentry
            | Sys::ArchPrctl => 2,
            Sys::Read
            | Sys::Write
            | Sys::Open
            | Sys::Lseek
            | Sys::Readv
            | Sys::Writev
            | Sys::Exec => 3,
            Sys::Mmap => 6,
        }
    }

    /// Whether the handler of this entry works on the saved context of the
    /// interrupted thread.
    pub fn takes_frame(self) -> (takes: bool)
        ensures
            takes == self.spec_takes_frame(),
    {
        match self {
            Sys::Fork | Sys::Exec | Sys::ArchPrctl => true,
            _ => false,
        }
    }

    /// The notice that is due when this entry is answered: `Some` exactly for
    /// a stub.
    pub fn notice(self) -> (text: Option<&'static str>)
        ensures
            text is Some <==> self.spec_is_stub(),
            match text {
                Some(s) => self.spec_notice() == Some(s@),
                None => self.spec_notice() is None,
            },
    {
        match self {
            Sys::Brk => Some("sys_brk is unimplemented"),
            Sys::Sigaction => Some("sys_sigaction is unimplemented"),
            Sys::Sigprocmask => Some("sys_sigprocmask is unimplemented"),
            Sys::Ioctl => Some("sys_ioctl is unimplemented"),
            Sys::Getuid => Some("sys_getuid is unimplemented"),
            Sys::Geteuid => Some("sys_geteuid is unimplemented"),
            Sys::Getegid => Some("sys_getegid is unimplemented"),
            Sys::Sigaltstack => Some("sys_sigaltstack is unimplemented"),
            Sys::SetTidAddress => Some("sys_set_tid_address is unimplemented"),
            Sys::ExitGroup => Some("sys_exit_group is unimplemented"),
            _ => None,
        }
    }
}

/// Looks an identifier up in the table.
pub fn lookup(id: usize) -> (entry: Option<Sys>)
    ensures
        entry == spec_lookup(id as int),
        entry matches Some(s) ==> s.spec_id() == id,
        entry is None ==> forall|s: Sys| s.spec_id() != id,
{
    match id {
        0 => Some(Sys::Read),
        1 => Some(Sys::Write),
        2 => Some(Sys::Open),
        3 => Some(Sys::Close),
        4 => Some(Sys::Stat),
        5 => Some(Sys::Fstat),
        8 => Some(Sys::Lseek),
        9 => Some(Sys::Mmap),
        11 => Some(Sys::Munmap),
        12 => Some(Sys::Brk),
        13 => Some(Sys::Sigaction),
        14 => Some(Sys::Sigprocmask),
        16 => Some(Sys::Ioctl),
        19 => Some(Sys::Readv),
        20 => Some(Sys::Writev),
        24 => Some(Sys::Yield),
        33 => Some(Sys::Dup2),
        35 => Some(Sys::Sleep),
        39 => Some(Sys::Getpid),
        57 => Some(Sys::Fork),
        59 => Some(Sys::Exec),
        60 => Some(Sys::Exit),
        61 => Some(Sys::Wait),
        62 => Some(Sys::Kill),
        78 => Some(Sys::Getdirentry),
        96 => Some(Sys::GetTime),
        102 => Some(Sys::Getuid),
        107 => Some(Sys::Geteuid),
        108 => Some(Sys::Getegid),
        131 => Some(Sys::Sigaltstack),
        141 => Some(Sys::SetPriority),
        158 => Some(Sys::ArchPrctl),
        218 => Some(Sys::SetTidAddress),
        231 => Some(Sys::ExitGroup),
        _ => None,
    }
}

/// All entries of the table, by rising identifier.
pub fn entries() -> (all: Vec<Sys>)
    ensures
        all@.len() == 34,
        forall|s: Sys| all@.contains(s),
        forall|i: int, j: int| 0 <= i < j < all@.len() ==> all@[i].spec_id() < all@[j].spec_id(),
{
    let all = vec![
        Sys::Read,
        Sys::Write,
        Sys::Open,
        Sys::Close,
        Sys::Stat,
        Sys::Fstat,
        Sys::Lseek,
        Sys::Mmap,
        Sys::Munmap,
        Sys::Brk,
        Sys::Sigaction,
        Sys::Sigprocmask,
        Sys::Ioctl,
        Sys::Readv,
        Sys::Writev,
        Sys::Yield,
        Sys::Dup2,
        Sys::Sleep,
        Sys::Getpid,
        Sys::Fork,
        Sys::Exec,
        Sys::Exit,
        Sys::Wait,
        Sys::Kill,
        Sys::Getdirentry,
        Sys::GetTime,
        Sys::Getuid,
        Sys::Geteuid,
        Sys::Getegid,
        Sys::Sigaltstack,
        Sys::SetPriority,
        Sys::ArchPrctl,
        Sys::SetTidAddress,
        Sys::ExitGroup,
    ];
    all
}

/// Looking up the identifier of an entry finds that entry, and an entry
/// found under an identifier has that identifier: entries and supported
/// identifiers correspond one to one.
pub proof fn lemma_lookup_id(s: Sys, id: int)
    ensures
        spec_lookup(s.spec_id()) == Some(s),
        spec_lookup(id) == Some(s) <==> s.spec_id() == id,
{
}

/// An identifier is supported exactly when some entry has it.
pub proof fn lemma_in_table(id: int)
    ensures
        in_table(id) <==> exists|s: Sys| s.spec_id() == id,
{
    if in_table(id) {
        let s = spec_lookup(id)->Some_0;
        assert(s.spec_id() == id);
    }
}

} // verus!
