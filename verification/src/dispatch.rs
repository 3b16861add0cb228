//! The dispatcher.
//!
//! `syscall` decides what one trapped call denotes. It never runs a
//! handler and never touches user memory: an address stays a plain word, for
//! the handler to validate. The caller carries the decision out, on the
//! saved context it owns, and collapses the handler's outcome with
//! `crate::result::collapse`.
//!
//! Every identifier takes exactly one of three routes: a typed call of a
//! handler, a stub, or the fault path for an identifier that the table does
//! not hold.

use vstd::prelude::*;
use crate::error::SysError;
use crate::result::{spec_collapse, SysResult};
use crate::table::{in_table, spec_lookup, Sys};
use crate::words::{low_byte, signed_32, signed_64, signed_word};
use crate::words::{spec_low_byte, spec_signed_32, spec_signed_64, spec_signed_word};

verus! {

/// A typed call of a handler, with its arguments taken from the raw words.
/// A field that holds an address is a `usize` that nothing has dereferenced.
#[allow(inconsistent_fields)]
#[derive(Debug, Clone, Copy, PartialEq, Eq, Structural)]
pub enum Call {
    /// Read up to `len` bytes from `fd` into the buffer at address `base`.
    Read { fd: usize, base: usize, len: usize },
    /// Write `len` bytes from the buffer at address `base` to `fd`.
    Write { fd: usize, base: usize, len: usize },
    /// Open the file named by the string at address `path`.
    Open { path: usize, flags: usize, mode: usize },
    /// Close `fd`.
    Close { fd: usize },
    /// Write the status of the file named at address `path` to the status block at address `stat`.
    Stat { path: usize, stat: usize },
    /// Write the status of `fd` to the status block at address `stat`.
    Fstat { fd: usize, stat: usize },
    /// Move the offset of `fd`.
    Lseek { fd: usize, offset: i64, whence: u8 },
    /// Map `len` bytes at `addr`.
    Mmap { addr: usize, len: usize, prot: usize, flags: usize, fd: i32, offset: usize },
    /// Unmap `len` bytes at `addr`.
    Munmap { addr: usize, len: usize },
    /// Read from `fd` into the `count` buffers described at address `iov`.
    Readv { fd: usize, iov: usize, count: usize },
    /// Write the `count` buffers described at address `iov` to `fd`.
    Writev { fd: usize, iov: usize, count: usize },
    /// Give up the processor.
    Yield,
    /// Make descriptor `to` a copy of descriptor `from`.
    Dup2 { from: usize, to: usize },
    /// Sleep for `time`.
    Sleep { time: usize },
    /// The caller's process identifier.
    Getpid,
    /// Create a child process from the saved context.
    Fork,
    /// Replace the process image by the program named at address `name`,
    /// with `argc` arguments at address `argv`.
    Exec { name: usize, argc: usize, argv: usize },
    /// End the calling process with `code`.
    Exit { code: isize },
    /// Wait for child `pid` and write its exit code to address `code`.
    Wait { pid: usize, code: usize },
    /// End process `pid`.
    Kill { pid: usize },
    /// Write the next entry of directory `fd` to the record at address `entry`.
    Getdirentry { fd: usize, entry: usize },
    /// The current time.
    GetTime,
    /// Set the caller's scheduling priority.
    SetPriority { priority: usize },
    /// Get or set architecture-specific thread state.
    ArchPrctl { code: i32, addr: usize },
}

/// How a stub is answered.
#[derive(Debug, Clone, Copy, PartialEq, Eq, Structural)]
pub enum StubPolicy {
    /// Report success with payload zero.
    Zero,
    /// Report success with the identifier of the calling thread.
    CallerIdentity,
    /// Run the given handler call in the stub's place.
    Delegate(Call),
}

/// What answering a stub comes to.
#[derive(Debug, Clone, Copy, PartialEq, Eq)]
pub enum Answer {
    /// The outcome is fixed: collapse it and return.
    Fixed(SysResult),
    /// The outcome is that of this handler call.
    Run(Call),
}

/// The route that one trapped call takes.
#[derive(Debug, Clone, Copy, PartialEq, Eq)]
pub enum Route {
    /// Run this handler and collapse its outcome.
    Handler(Call),
    /// Emit the notice of the stub `which`, then answer by `policy`.
    Stub { which: Sys, policy: StubPolicy },
    /// The table has no entry for `id`: report the identifier with all six
    /// words, then hand the saved context to the fault handler.
    Unknown { id: usize, args: [usize; 6] },
}

impl Call {
    /// The table entry whose handler this call runs.
    pub open spec fn spec_sys(self) -> Sys {
        match self {
            Call::Read { .. } => Sys::Read,
            Call::Write { .. } => Sys::Write,
            Call::Open { .. } => Sys::Open,
            Call::Close { .. } => Sys::Close,
            Call::Stat { .. } => Sys::Stat,
            Call::Fstat { .. } => Sys::Fstat,
            Call::Lseek { .. } => Sys::Lseek,
            Call::Mmap { .. } => Sys::Mmap,
            Call::Munmap { .. } => Sys::Munmap,
            Call::Readv { .. } => Sys::Readv,
            Call::Writev { .. } => Sys::Writev,
            Call::Yield => Sys::Yield,
            Call::Dup2 { .. } => Sys::Dup2,
            Call::Sleep { .. } => Sys::Sleep,
            Call::Getpid => Sys::Getpid,
            Call::Fork => Sys::Fork,
            Call::Exec { .. } => Sys::Exec,
            Call::Exit { .. } => Sys::Exit,
            Call::Wait { .. } => Sys::Wait,
            Call::Kill { .. } => Sys::Kill,
            Call::Getdirentry { .. } => Sys::Getdirentry,
            Call::GetTime => Sys::GetTime,
            Call::SetPriority { .. } => Sys::SetPriority,
            Call::ArchPrctl { .. } => Sys::ArchPrctl,
        }
    }

    /// The table entry whose handler this call runs.
    pub fn sys(self) -> (s: Sys)
        ensures
            s == self.spec_sys(),
            !s.spec_is_stub(),
    {
        match self {
            Call::Read { .. } => Sys::Read,
            Call::Write { .. } => Sys::Write,
            Call::Open { .. } => Sys::Open,
            Call::Close { .. } => Sys::Close,
            Call::Stat { .. } => Sys::Stat,
            Call::Fstat { .. } => Sys::Fstat,
            Call::Lseek { .. } => Sys::Lseek,
            Call::Mmap { .. } => Sys::Mmap,
            Call::Munmap { .. } => Sys::Munmap,
            Call::Readv { .. } => Sys::Readv,
            Call::Writev { .. } => Sys::Writev,
            Call::Yield => Sys::Yield,
            Call::Dup2 { .. } => Sys::Dup2,
            Call::Sleep { .. } => Sys::Sleep,
            Call::Getpid => Sys::Getpid,
            Call::Fork => Sys::Fork,
            Call::Exec { .. } => Sys::Exec,
            Call::Exit { .. } => Sys::Exit,
            Call::Wait { .. } => Sys::Wait,
            Call::Kill { .. } => Sys::Kill,
            Call::Getdirentry { .. } => Sys::Getdirentry,
            Call::GetTime => Sys::GetTime,
            Call::SetPriority { .. } => Sys::SetPriority,
            Call::ArchPrctl { .. } => Sys::ArchPrctl,
        }
    }
}

impl StubPolicy {
    /// How the policy is carried out for a caller whose thread has the
    /// identifier `caller`.
    pub open spec fn spec_answer(self, caller: usize) -> Answer {
        match self {
            StubPolicy::Zero => Answer::Fixed(Ok(0isize)),
            StubPolicy::CallerIdentity => Answer::Fixed(Ok(spec_signed_word(caller) as isize)),
            StubPolicy::Delegate(call) => Answer::Run(call),
        }
    }

    /// Carries the policy out as far as it goes without a handler: the
    /// outcome that the policy fixes, given the identifier of the calling
    /// thread, or the handler call that is to decide it.
    pub fn answer(self, caller: usize) -> (a: Answer)
        ensures
            a == self.spec_answer(caller),
    {
        match self {
            StubPolicy::Zero => Answer::Fixed(Ok(0)),
            StubPolicy::CallerIdentity => Answer::Fixed(Ok(signed_word(caller))),
            StubPolicy::Delegate(call) => Answer::Run(call),
        }
    }
}

/// The route of a table entry, given the six raw words.
pub open spec fn spec_decide(s: Sys, args: [usize; 6]) -> Route {
    match s {
        Sys::Read => Route::Handler(Call::Read { fd: args[0], base: args[1], len: args[2] }),
        Sys::Write => Route::Handler(Call::Write { fd: args[0], base: args[1], len: args[2] }),
        Sys::Open => Route::Handler(Call::Open { path: args[0], flags: args[1], mode: args[2] }),
        Sys::Close => Route::Handler(Call::Close { fd: args[0] }),
        Sys::Stat => Route::Handler(Call::Stat { path: args[0], stat: args[1] }),
        Sys::Fstat => Route::Handler(Call::Fstat { fd: args[0], stat: args[1] }),
        Sys::Lseek => Route::Handler(
            Call::Lseek {
                fd: args[0],
                offset: spec_signed_64(args[1]) as i64,
                whence: spec_low_byte(args[2]) as u8,
            },
        ),
        Sys::Mmap => Route::Handler(
            Call::Mmap {
                addr: args[0],
                len: args[1],
                prot: args[2],
                flags: args[3],
                fd: spec_signed_32(args[4]) as i32,
                offset: args[5],
            },
        ),
        Sys::Munmap => Route::Handler(Call::Munmap { addr: args[0], len: args[1] }),
        Sys::Brk => Route::Stub { which: Sys::Brk, policy: StubPolicy::Zero },
        Sys::Sigaction => Route::Stub { which: Sys::Sigaction, policy: StubPolicy::Zero },
        Sys::Sigprocmask => Route::Stub { which: Sys::Sigprocmask, policy: StubPolicy::Zero },
        Sys::Ioctl => Route::Stub { which: Sys::Ioctl, policy: StubPolicy::Zero },
        Sys::Readv => Route::Handler(Call::Readv { fd: args[0], iov: args[1], count: args[2] }),
        Sys::Writev => Route::Handler(Call::Writev { fd: args[0], iov: args[1], count: args[2] }),
        Sys::Yield => Route::Handler(Call::Yield),
        Sys::Dup2 => Route::Handler(Call::Dup2 { from: args[0], to: args[1] }),
        Sys::Sleep => Route::Handler(Call::Sleep { time: args[0] }),
        Sys::Getpid => Route::Handler(Call::Getpid),
        Sys::Fork => Route::Handler(Call::Fork),
        Sys::Exec => Route::Handler(Call::Exec { name: args[0], argc: args[1], argv: args[2] }),
        Sys::Exit => Route::Handler(Call::Exit { code: spec_signed_word(args[0]) as isize }),
        Sys::Wait => Route::Handler(Call::Wait { pid: args[0], code: args[1] }),
        Sys::Kill => Route::Handler(Call::Kill { pid: args[0] }),
        Sys::Getdirentry => Route::Handler(Call::Getdirentry { fd: args[0], entry: args[1] }),
        Sys::GetTime => Route::Handler(Call::GetTime),
        Sys::Getuid => Route::Stub { which: Sys::Getuid, policy: StubPolicy::Zero },
        Sys::Geteuid => Route::Stub { which: Sys::Geteuid, policy: StubPolicy::Zero },
        Sys::Getegid => Route::Stub { which: Sys::Getegid, policy: StubPolicy::Zero },
        Sys::Sigaltstack => Route::Stub { which: Sys::Sigaltstack, policy: StubPolicy::Zero },
        Sys::SetPriority => Route::Handler(Call::SetPriority { priority: args[0] }),
        Sys::ArchPrctl => Route::Handler(
            Call::ArchPrctl {
                code: spec_signed_32(args[0]) as i32,
                addr: args[1],
            },
        ),
        Sys::SetTidAddress => Route::Stub {
            which: Sys::SetTidAddress,
            policy: StubPolicy::CallerIdentity,
        },
        Sys::ExitGroup => Route::Stub {
            which: Sys::ExitGroup,
            policy: StubPolicy::Delegate(Call::Exit { code: spec_signed_word(args[0]) as isize }),
        },
    }
}

/// The route of a call: that of its table entry, or the fault path where
/// the table has none.
pub open spec fn spec_route(id: usize, args: [usize; 6]) -> Route {
    match spec_lookup(id as int) {
        Some(s) => spec_decide(s, args),
        None => Route::Unknown { id, args },
    }
}

/// Decides the route of one trapped call from its identifier and its six
/// raw argument words.
///
/// A supported identifier gives the typed call of its handler, or its stub
/// with the policy by which the stub is answered; any other identifier gives
/// `Route::Unknown` with the identifier and the words as they came.
pub fn syscall(id: usize, args: [usize; 6]) -> (route: Route)
    ensures
        route == spec_route(id, args),
        in_table(id as int) <==> !(route is Unknown),
        route matches Route::Handler(call) ==> spec_lookup(id as int) == Some(call.spec_sys()),
        route matches Route::Stub { which, .. } ==> spec_lookup(id as int) == Some(which)
            && which.spec_is_stub(),
        route matches Route::Unknown { id: seen, args: words } ==> seen == id && words == args,
{
    match id {
        0 => Route::Handler(Call::Read { fd: args[0], base: args[1], len: args[2] }),
        1 => Route::Handler(Call::Write { fd: args[0], base: args[1], len: args[2] }),
        2 => Route::Handler(Call::Open { path: args[0], flags: args[1], mode: args[2] }),
        3 => Route::Handler(Call::Close { fd: args[0] }),
        4 => Route::Handler(Call::Stat { path: args[0], stat: args[1] }),
        5 => Route::Handler(Call::Fstat { fd: args[0], stat: args[1] }),
        8 => Route::Handler(
            Call::Lseek {
                fd: args[0],
                offset: signed_64(args[1]),
                whence: low_byte(args[2]),
            },
        ),
        9 => Route::Handler(
            Call::Mmap {
                addr: args[0],
                len: args[1],
                prot: args[2],
                flags: args[3],
                fd: signed_32(args[4]),
                offset: args[5],
            },
        ),
        11 => Route::Handler(Call::Munmap { addr: args[0], len: args[1] }),
        12 => Route::Stub { which: Sys::Brk, policy: StubPolicy::Zero },
        13 => Route::Stub { which: Sys::Sigaction, policy: StubPolicy::Zero },
        14 => Route::Stub { which: Sys::Sigprocmask, policy: StubPolicy::Zero },
        16 => Route::Stub { which: Sys::Ioctl, policy: StubPolicy::Zero },
        19 => Route::Handler(Call::Readv { fd: args[0], iov: args[1], count: args[2] }),
        20 => Route::Handler(Call::Writev { fd: args[0], iov: args[1], count: args[2] }),
        24 => Route::Handler(Call::Yield),
        33 => Route::Handler(Call::Dup2 { from: args[0], to: args[1] }),
        35 => Route::Handler(Call::Sleep { time: args[0] }),
        39 => Route::Handler(Call::Getpid),
        57 => Route::Handler(Call::Fork),
        59 => Route::Handler(Call::Exec { name: args[0], argc: args[1], argv: args[2] }),
        60 => Route::Handler(Call::Exit { code: signed_word(args[0]) }),
        61 => Route::Handler(Call::Wait { pid: args[0], code: args[1] }),
        62 => Route::Handler(Call::Kill { pid: args[0] }),
        78 => Route::Handler(Call::Getdirentry { fd: args[0], entry: args[1] }),
        96 => Route::Handler(Call::GetTime),
        102 => Route::Stub { which: Sys::Getuid, policy: StubPolicy::Zero },
        107 => Route::Stub { which: Sys::Geteuid, policy: StubPolicy::Zero },
        108 => Route::Stub { which: Sys::Getegid, policy: StubPolicy::Zero },
        131 => Route::Stub { which: Sys::Sigaltstack, policy: StubPolicy::Zero },
        141 => Route::Handler(Call::SetPriority { priority: args[0] }),
        158 => Route::Handler(Call::ArchPrctl { code: signed_32(args[0]), addr: args[1] }),
        218 => Route::Stub { which: Sys::SetTidAddress, policy: StubPolicy::CallerIdentity },
        231 => Route::Stub {
            which: Sys::ExitGroup,
            policy: StubPolicy::Delegate(Call::Exit { code: signed_word(args[0]) }),
        },
        _ => Route::Unknown { id, args },
    }
}

/// Which of the three routes a call takes is decided by the table alone,
/// whatever the argument words: a handler for an entry that is no stub, a
/// stub for an entry that is one, the fault path where there is no entry.
/// The three exclude one another and leave no identifier out.
pub proof fn lemma_route_by_table(id: usize, args: [usize; 6])
    ensures
        spec_route(id, args) is Handler <==> (spec_lookup(id as int) matches Some(s)
            && !s.spec_is_stub()),
        spec_route(id, args) is Stub <==> (spec_lookup(id as int) matches Some(s)
            && s.spec_is_stub()),
        spec_route(id, args) is Unknown <==> spec_lookup(id as int) is None,
{
}

/// A supported identifier is routed to its own handler or to its own stub,
/// never both, and never to the fault path, whatever the argument words.
pub proof fn lemma_supported_never_unknown(id: usize, args: [usize; 6])
    requires
        in_table(id as int),
    ensures
        !(spec_route(id, args) is Unknown),
        spec_route(id, args) is Handler != spec_route(id, args) is Stub,
        spec_route(id, args) matches Route::Handler(call) ==> call.spec_sys().spec_id() == id,
        spec_route(id, args) matches Route::Stub { which, .. } ==> which.spec_id() == id,
{
}

/// An identifier that the table does not hold is routed to the fault path,
/// whatever the argument words, and the fault path receives the identifier
/// and all six words as they came.
pub proof fn lemma_unsupported_always_unknown(id: usize, args: [usize; 6])
    requires
        !in_table(id as int),
    ensures
        spec_route(id, args) == (Route::Unknown { id, args }),
{
}

/// A route reads no more of the six words than the arity of its entry says:
/// two calls of one entry that agree on those words take the same route.
pub proof fn lemma_route_reads_arity_words(s: Sys, a: [usize; 6], b: [usize; 6])
    requires
        forall|i: int| 0 <= i < s.spec_arity() ==> a[i] == b[i],
    ensures
        spec_decide(s, a) == spec_decide(s, b),
{
    if s.spec_arity() >= 1 {
        assert(a[0] == b[0]);
    }
    if s.spec_arity() >= 2 {
        assert(a[1] == b[1]);
    }
    if s.spec_arity() >= 3 {
        assert(a[2] == b[2]);
    }
    if s.spec_arity() >= 6 {
        assert(a[3] == b[3]);
        assert(a[4] == b[4]);
        assert(a[5] == b[5]);
    }
}

/// Every stub takes the stub route with a notice due, whatever the argument
/// words. All but two are answered with success and payload zero, which
/// collapses to zero; the thread-identifier stub is answered with the
/// caller's identity, and process-group exit runs the exit handler.
pub proof fn lemma_stub_route(s: Sys, args: [usize; 6], caller: usize)
    requires
        s.spec_is_stub(),
    ensures
        s.spec_notice() is Some,
        spec_route(s.spec_id() as usize, args) matches Route::Stub { which, policy } && which == s
            && policy == match s {
            Sys::SetTidAddress => StubPolicy::CallerIdentity,
            Sys::ExitGroup => StubPolicy::Delegate(
                Call::Exit { code: spec_signed_word(args[0]) as isize },
            ),
            _ => StubPolicy::Zero,
        },
        s != Sys::SetTidAddress && s != Sys::ExitGroup ==> spec_decide(s, args) == (Route::Stub {
            which: s,
            policy: StubPolicy::Zero,
        }) && StubPolicy::Zero.spec_answer(caller) == Answer::Fixed(Ok(0isize))
            && spec_collapse(Ok(0isize)) == 0,
{
}

/// Process-group exit is single-process exit: for the same argument words,
/// the stub delegates to exactly the call that the exit identifier runs.
pub proof fn lemma_exit_group_is_exit(args: [usize; 6])
    ensures
        spec_route(60, args) == Route::Handler(
            Call::Exit { code: spec_signed_word(args[0]) as isize },
        ),
        spec_route(231, args) == (Route::Stub {
            which: Sys::ExitGroup,
            policy: StubPolicy::Delegate(Call::Exit { code: spec_signed_word(args[0]) as isize }),
        }),
        spec_route(231, args) matches Route::Stub { policy: StubPolicy::Delegate(call), .. }
            && spec_route(60, args) == Route::Handler(call),
{
}

} // verus!
