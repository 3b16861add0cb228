//! The closed set of failure kinds a system call may report.
//!
//! Every kind has a stable small-integer code, following the POSIX errno
//! numbering, and a fixed English phrase. A kind carries no context: it is
//! pure data.

use vstd::prelude::*;

verus! {

/// A failure kind. `EUNDEF` is the one member without a positive code: it
/// stands for a failure that belongs to none of the named kinds.
#[allow(non_camel_case_types)]
#[derive(Debug, Clone, Copy, PartialEq, Eq, Structural)]
pub enum SysError {
    /// Unknown error (code 0).
    EUNDEF,
    /// Operation not permitted (code 1).
    EPERM,
    /// No such file or directory (code 2).
    ENOENT,
    /// No such process (code 3).
    ESRCH,
    /// Interrupted system call (code 4).
    EINTR,
    /// I/O error (code 5).
    EIO,
    /// No such device or address (code 6).
    ENXIO,
    /// Argument list too long (code 7).
    E2BIG,
    /// Exec format error (code 8).
    ENOEXEC,
    /// Bad file number (code 9).
    EBADF,
    /// No child processes (code 10).
    ECHILD,
    /// Try again (code 11).
    EAGAIN,
    /// Out of memory (code 12).
    ENOMEM,
    /// Permission denied (code 13).
    EACCES,
    /// Bad address (code 14).
    EFAULT,
    /// Block device required (code 15).
    ENOTBLK,
    /// Device or resource busy (code 16).
    EBUSY,
    /// File exists (code 17).
    EEXIST,
    /// Cross-device link (code 18).
    EXDEV,
    /// No such device (code 19).
    ENODEV,
    /// Not a directory (code 20).
    ENOTDIR,
    /// Is a directory (code 21).
    EISDIR,
    /// Invalid argument (code 22).
    EINVAL,
    /// File table overflow (code 23).
    ENFILE,
    /// Too many open files (code 24).
    EMFILE,
    /// Not a typewriter (code 25).
    ENOTTY,
    /// Text file busy (code 26).
    ETXTBSY,
    /// File too large (code 27).
    EFBIG,
    /// No space left on device (code 28).
    ENOSPC,
    /// Illegal seek (code 29).
    ESPIPE,
    /// Read-only file system (code 30).
    EROFS,
    /// Too many links (code 31).
    EMLINK,
    /// Broken pipe (code 32).
    EPIPE,
    /// Math argument out of domain of func (code 33).
    EDOM,
    /// Math result not representable (code 34).
    ERANGE,
    /// Resource deadlock would occur (code 35).
    EDEADLK,
    /// File name too long (code 36).
    ENAMETOOLONG,
    /// No record locks available (code 37).
    ENOLCK,
    /// Function not implemented (code 38).
    ENOSYS,
    /// Directory not empty (code 39).
    ENOTEMPTY,
}

impl SysError {
    /// The code of this kind, as a mathematical integer.
    pub open spec fn spec_code(self) -> int {
        match self {
            SysError::EUNDEF => 0,
            SysError::EPERM => 1,
            SysError::ENOENT => 2,
            SysError::ESRCH => 3,
            SysError::EINTR => 4,
            SysError::EIO => 5,
            SysError::ENXIO => 6,
            SysError::E2BIG => 7,
            SysError::ENOEXEC => 8,
            SysError::EBADF => 9,
            SysError::ECHILD => 10,
            SysError::EAGAIN => 11,
            SysError::ENOMEM => 12,
            SysError::EACCES => 13,
            SysError::EFAULT => 14,
            SysError::ENOTBLK => 15,
            SysError::EBUSY => 16,
            SysError::EEXIST => 17,
            SysError::EXDEV => 18,
            SysError::ENODEV => 19,
            SysError::ENOTDIR => 20,
            SysError::EISDIR => 21,
            SysError::EINVAL => 22,
            SysError::ENFILE => 23,
            SysError::EMFILE => 24,
            SysError::ENOTTY => 25,
            SysError::ETXTBSY => 26,
            SysError::EFBIG => 27,
            SysError::ENOSPC => 28,
            SysError::ESPIPE => 29,
            SysError::EROFS => 30,
            SysError::EMLINK => 31,
            SysError::EPIPE => 32,
            SysError::EDOM => 33,
            SysError::ERANGE => 34,
            SysError::EDEADLK => 35,
            SysError::ENAMETOOLONG => 36,
            SysError::ENOLCK => 37,
            SysError::ENOSYS => 38,
            SysError::ENOTEMPTY => 39,
        }
    }

    /// The phrase of this kind, as a sequence of characters.
    pub open spec fn spec_description(self) -> Seq<char> {
        match self {
            SysError::EUNDEF => "Unknown error"@,
            SysError::EPERM => "Operation not permitted"@,
            SysError::ENOENT => "No such file or directory"@,
            SysError::ESRCH => "No such process"@,
            SysError::EINTR => "Interrupted system call"@,
            SysError::EIO => "I/O error"@,
            SysError::ENXIO => "No such device or address"@,
            SysError::E2BIG => "Argument list too long"@,
            SysError::ENOEXEC => "Exec format error"@,
            SysError::EBADF => "Bad file number"@,
            SysError::ECHILD => "No child processes"@,
            SysError::EAGAIN => "Try again"@,
            SysError::ENOMEM => "Out of memory"@,
            SysError::EACCES => "Permission denied"@,
            SysError::EFAULT => "Bad address"@,
            SysError::ENOTBLK => "Block device required"@,
            SysError::EBUSY => "Device or resource busy"@,
            SysError::EEXIST => "File exists"@,
            SysError::EXDEV => "Cross-device link"@,
            SysError::ENODEV => "No such device"@,
            SysError::ENOTDIR => "Not a directory"@,
            SysError::EISDIR => "Is a directory"@,
            SysError::EINVAL => "Invalid argument"@,
            SysError::ENFILE => "File table overflow"@,
            SysError::EMFILE => "Too many open files"@,
            SysError::ENOTTY => "Not a typewriter"@,
            SysError::ETXTBSY => "Text file busy"@,
            SysError::EFBIG => "File too large"@,
            SysError::ENOSPC => "No space left on device"@,
            SysError::ESPIPE => "Illegal seek"@,
            SysError::EROFS => "Read-only file system"@,
            SysError::EMLINK => "Too many links"@,
            SysError::EPIPE => "Broken pipe"@,
            SysError::EDOM => "Math argument out of domain of func"@,
            SysError::ERANGE => "Math result not representable"@,
            SysError::EDEADLK => "Resource deadlock would occur"@,
            SysError::ENAMETOOLONG => "File name too long"@,
            SysError::ENOLCK => "No record locks available"@,
            SysError::ENOSYS => "Function not implemented"@,
            SysError::ENOTEMPTY => "Directory not empty"@,
        }
    }

    /// The kind with the given code, where there is one.
    pub open spec fn spec_from_code(code: int) -> Option<SysError> {
        if code == 0 {
            Some(SysError::EUNDEF)
        } else if code == 1 {
            Some(SysError::EPERM)
        } else if code == 2 {
            Some(SysError::ENOENT)
        } else if code == 3 {
            Some(SysError::ESRCH)
        } else if code == 4 {
            Some(SysError::EINTR)
        } else if code == 5 {
            Some(SysError::EIO)
        } else if code == 6 {
            Some(SysError::ENXIO)
        } else if code == 7 {
            Some(SysError::E2BIG)
        } else if code == 8 {
            Some(SysError::ENOEXEC)
        } else if code == 9 {
            Some(SysError::EBADF)
        } else if code == 10 {
            Some(SysError::ECHILD)
        } else if code == 11 {
            Some(SysError::EAGAIN)
        } else if code == 12 {
            Some(SysError::ENOMEM)
        } else if code == 13 {
            Some(SysError::EACCES)
        } else if code == 14 {
            Some(SysError::EFAULT)
        } else if code == 15 {
            Some(SysError::ENOTBLK)
        } else if code == 16 {
            Some(SysError::EBUSY)
        } else if code == 17 {
            Some(SysError::EEXIST)
        } else if code == 18 {
            Some(SysError::EXDEV)
        } else if code == 19 {
            Some(SysError::ENODEV)
        } else if code == 20 {
            Some(SysError::ENOTDIR)
        } else if code == 21 {
            Some(SysError::EISDIR)
        } else if code == 22 {
            Some(SysError::EINVAL)
        } else if code == 23 {
            Some(SysError::ENFILE)
        } else if code == 24 {
            Some(SysError::EMFILE)
        } else if code == 25 {
            Some(SysError::ENOTTY)
        } else if code == 26 {
            Some(SysError::ETXTBSY)
        } else if code == 27 {
            Some(SysError::EFBIG)
        } else if code == 28 {
            Some(SysError::ENOSPC)
        } else if code == 29 {
            Some(SysError::ESPIPE)
        } else if code == 30 {
            Some(SysError::EROFS)
        } else if code == 31 {
            Some(SysError::EMLINK)
        } else if code == 32 {
            Some(SysError::EPIPE)
        } else if code == 33 {
            Some(SysError::EDOM)
        } else if code == 34 {
            Some(SysError::ERANGE)
        } else if code == 35 {
            Some(SysError::EDEADLK)
        } else if code == 36 {
            Some(SysError::ENAMETOOLONG)
        } else if code == 37 {
            Some(SysError::ENOLCK)
        } else if code == 38 {
            Some(SysError::ENOSYS)
        } else if code == 39 {
            Some(SysError::ENOTEMPTY)
        } else {
            None
        }
    }

    /// A kind is named when it is one of the kinds with a positive code,
    /// that is, any kind but `EUNDEF`.
    pub open spec fn is_named(self) -> bool {
        self != SysError::EUNDEF
    }

    /// The code of this kind.
    pub fn code(self) -> (c: isize)
        ensures
            c == self.spec_code(),
            0 <= c <= 39,
            self.is_named() <==> c > 0,
    {
        match self {
            SysError::EUNDEF => 0,
            SysError::EPERM => 1,
            SysError::ENOENT => 2,
            SysError::ESRCH => 3,
            SysError::EINTR => 4,
            SysError::EIO => 5,
            SysError::ENXIO => 6,
            SysError::E2BIG => 7,
            SysError::ENOEXEC => 8,
            SysError::EBADF => 9,
            SysError::ECHILD => 10,
            SysError::EAGAIN => 11,
            SysError::ENOMEM => 12,
            SysError::EACCES => 13,
            SysError::EFAULT => 14,
            SysError::ENOTBLK => 15,
            SysError::EBUSY => 16,
            SysError::EEXIST => 17,
            SysError::EXDEV => 18,
            SysError::ENODEV => 19,
            SysError::ENOTDIR => 20,
            SysError::EISDIR => 21,
            SysError::EINVAL => 22,
            SysError::ENFILE => 23,
            SysError::EMFILE => 24,
            SysError::ENOTTY => 25,
            SysError::ETXTBSY => 26,
            SysError::EFBIG => 27,
            SysError::ENOSPC => 28,
            SysError::ESPIPE => 29,
            SysError::EROFS => 30,
            SysError::EMLINK => 31,
            SysError::EPIPE => 32,
            SysError::EDOM => 33,
            SysError::ERANGE => 34,
            SysError::EDEADLK => 35,
            SysError::ENAMETOOLONG => 36,
            SysError::ENOLCK => 37,
            SysError::ENOSYS => 38,
            SysError::ENOTEMPTY => 39,
        }
    }

    /// The kind with the given code: `Some` exactly for the codes 0 to 39,
    /// and then the one kind that has this code.
    pub fn from_code(code: isize) -> (r: Option<SysError>)
        ensures
            r == Self::spec_from_code(code as int),
            r is Some <==> 0 <= code <= 39,
            r matches Some(e) ==> e.spec_code() == code,
    {
        match code {
            0 => Some(SysError::EUNDEF),
            1 => Some(SysError::EPERM),
            2 => Some(SysError::ENOENT),
            3 => Some(SysError::ESRCH),
            4 => Some(SysError::EINTR),
            5 => Some(SysError::EIO),
            6 => Some(SysError::ENXIO),
            7 => Some(SysError::E2BIG),
            8 => Some(SysError::ENOEXEC),
            9 => Some(SysError::EBADF),
            10 => Some(SysError::ECHILD),
            11 => Some(SysError::EAGAIN),
            12 => Some(SysError::ENOMEM),
            13 => Some(SysError::EACCES),
            14 => Some(SysError::EFAULT),
            15 => Some(SysError::ENOTBLK),
            16 => Some(SysError::EBUSY),
            17 => Some(SysError::EEXIST),
            18 => Some(SysError::EXDEV),
            19 => Some(SysError::ENODEV),
            20 => Some(SysError::ENOTDIR),
            21 => Some(SysError::EISDIR),
            22 => Some(SysError::EINVAL),
            23 => Some(SysError::ENFILE),
            24 => Some(SysError::EMFILE),
            25 => Some(SysError::ENOTTY),
            26 => Some(SysError::ETXTBSY),
            27 => Some(SysError::EFBIG),
            28 => Some(SysError::ENOSPC),
            29 => Some(SysError::ESPIPE),
            30 => Some(SysError::EROFS),
            31 => Some(SysError::EMLINK),
            32 => Some(SysError::EPIPE),
            33 => Some(SysError::EDOM),
            34 => Some(SysError::ERANGE),
            35 => Some(SysError::EDEADLK),
            36 => Some(SysError::ENAMETOOLONG),
            37 => Some(SysError::ENOLCK),
            38 => Some(SysError::ENOSYS),
            39 => Some(SysError::ENOTEMPTY),
            _ => None,
        }
    }

    /// The fixed English phrase of this kind. A failure outside the named
    /// kinds reads "Unknown error".
    pub fn description(self) -> (s: &'static str)
        ensures
            s@ == self.spec_description(),
    {
        match self {
            SysError::EUNDEF => "Unknown error",
            SysError::EPERM => "Operation not permitted",
            SysError::ENOENT => "No such file or directory",
            SysError::ESRCH => "No such process",
            SysError::EINTR => "Interrupted system call",
            SysError::EIO => "I/O error",
            SysError::ENXIO => "No such device or address",
            SysError::E2BIG => "Argument list too long",
            SysError::ENOEXEC => "Exec format error",
            SysError::EBADF => "Bad file number",
            SysError::ECHILD => "No child processes",
            SysError::EAGAIN => "Try again",
            SysError::ENOMEM => "Out of memory",
            SysError::EACCES => "Permission denied",
            SysError::EFAULT => "Bad address",
            SysError::ENOTBLK => "Block device required",
            SysError::EBUSY => "Device or resource busy",
            SysError::EEXIST => "File exists",
            SysError::EXDEV => "Cross-device link",
            SysError::ENODEV => "No such device",
            SysError::ENOTDIR => "Not a directory",
            SysError::EISDIR => "Is a directory",
            SysError::EINVAL => "Invalid argument",
            SysError::ENFILE => "File table overflow",
            SysError::EMFILE => "Too many open files",
            SysError::ENOTTY => "Not a typewriter",
            SysError::ETXTBSY => "Text file busy",
            SysError::EFBIG => "File too large",
            SysError::ENOSPC => "No space left on device",
            SysError::ESPIPE => "Illegal seek",
            SysError::EROFS => "Read-only file system",
            SysError::EMLINK => "Too many links",
            SysError::EPIPE => "Broken pipe",
            SysError::EDOM => "Math argument out of domain of func",
            SysError::ERANGE => "Math result not representable",
            SysError::EDEADLK => "Resource deadlock would occur",
            SysError::ENAMETOOLONG => "File name too long",
            SysError::ENOLCK => "No record locks available",
            SysError::ENOSYS => "Function not implemented",
            SysError::ENOTEMPTY => "Directory not empty",
        }
    }

    /// The phrase of this kind as an owned string.
    pub fn to_string(self) -> (s: String)
        ensures
            s@ == self.spec_description(),
    {
        self.description().to_owned()
    }
}

/// Every code lies between 0 and 39.
pub proof fn lemma_code_range()
    ensures
        forall|e: SysError| 0 <= #[trigger] e.spec_code() <= 39,
{
}

/// Two kinds with the same code are the same kind.
pub proof fn lemma_code_injective(a: SysError, b: SysError)
    requires
        a.spec_code() == b.spec_code(),
    ensures
        a == b,
{
}

/// Codes and kinds correspond one to one: the kind found under the code of
/// a kind is that kind, a kind found under a code has that code, and a kind
/// is found under exactly the codes 0 to 39.
pub proof fn lemma_from_code_inverts_code(e: SysError, c: int)
    ensures
        SysError::spec_from_code(e.spec_code()) == Some(e),
        SysError::spec_from_code(c) == Some(e) <==> e.spec_code() == c,
        SysError::spec_from_code(c) is Some <==> 0 <= c <= 39,
{
}

/// Formatting is a function of the kind alone: two phrases obtained for one
/// kind are the same string.
pub proof fn lemma_description_idempotent(e: SysError, first: Seq<char>, second: Seq<char>)
    requires
        first == e.spec_description(),
        second == e.spec_description(),
    ensures
        first == second,
{
}

/// The length of each phrase and a few of its characters, enough to tell
/// any two phrases apart.
proof fn lemma_description_marks(e: SysError)
    ensures
        ({
            let d = e.spec_description();
            match e {
                SysError::EUNDEF => d.len() == 13 && d[3] == 'n' && d[8] == 'e',
                SysError::EPERM => d.len() == 23 && d[3] == 'r' && d[8] == 'n',
                SysError::ENOENT => d.len() == 25 && d[3] == 's' && d[8] == 'f',
                SysError::ESRCH => d.len() == 15 && d[3] == 's' && d[8] == 'p',
                SysError::EINTR => d.len() == 23 && d[3] == 'e' && d[8] == 't',
                SysError::EIO => d.len() == 9 && d[3] == ' ' && d[8] == 'r',
                SysError::ENXIO => d.len() == 25 && d[3] == 's' && d[8] == 'd',
                SysError::E2BIG => d.len() == 22 && d[3] == 'u' && d[8] == ' ',
                SysError::ENOEXEC => d.len() == 17 && d[3] == 'c' && d[8] == 'm',
                SysError::EBADF => d.len() == 15 && d[3] == ' ' && d[8] == ' ',
                SysError::ECHILD => d.len() == 18 && d[3] == 'c' && d[8] == ' ',
                SysError::EAGAIN => d.len() == 9 && d[3] == ' ' && d[8] == 'n',
                SysError::ENOMEM => d.len() == 13 && d[3] == ' ' && d[8] == 'e',
                SysError::EACCES => d.len() == 17 && d[3] == 'm' && d[8] == 'o',
                SysError::EFAULT => d.len() == 11 && d[3] == ' ' && d[8] == 'e',
                SysError::ENOTBLK => d.len() == 21 && d[3] == 'c' && d[8] == 'v',
                SysError::EBUSY => d.len() == 23 && d[3] == 'i' && d[8] == 'r',
                SysError::EEXIST => d.len() == 11 && d[3] == 'e' && d[8] == 's',
                SysError::EXDEV => d.len() == 17 && d[3] == 's' && d[8] == 'v',
                SysError::ENODEV => d.len() == 14 && d[3] == 's' && d[8] == 'd',
                SysError::ENOTDIR => d.len() == 15 && d[3] == ' ' && d[8] == 'r',
                SysError::EISDIR => d.len() == 14 && d[3] == 'a' && d[8] == 'e',
                SysError::EINVAL => d.len() == 16 && d[3] == 'a' && d[8] == 'a',
                SysError::ENFILE => d.len() == 19 && d[3] == 'e' && d[8] == 'l',
                SysError::EMFILE => d.len() == 19 && d[3] == ' ' && d[8] == ' ',
                SysError::ENOTTY => d.len() == 16 && d[3] == ' ' && d[8] == 'p',
                SysError::ETXTBSY => d.len() == 14 && d[3] == 't' && d[8] == 'e',
                SysError::EFBIG => d.len() == 14 && d[3] == 'e' && d[8] == ' ',
                SysError::ENOSPC => d.len() == 23 && d[3] == 's' && d[8] == ' ',
                SysError::ESPIPE => d.len() == 12 && d[3] == 'e' && d[8] == 's',
                SysError::EROFS => d.len() == 21 && d[3] == 'd' && d[8] == 'y',
                SysError::EMLINK => d.len() == 14 && d[3] == ' ' && d[8] == ' ',
                SysError::EPIPE => d.len() == 11 && d[3] == 'k' && d[8] == 'i',
                SysError::EDOM => d.len() == 35 && d[3] == 'h' && d[8] == 'u',
                SysError::ERANGE => d.len() == 29 && d[3] == 'h' && d[8] == 'u',
                SysError::EDEADLK => d.len() == 29 && d[3] == 'o' && d[8] == ' ',
                SysError::ENAMETOOLONG => d.len() == 18 && d[3] == 'e' && d[8] == 'e',
                SysError::ENOLCK => d.len() == 25 && d[3] == 'r' && d[8] == 'd',
                SysError::ENOSYS => d.len() == 24 && d[3] == 'c' && d[8] == ' ',
                SysError::ENOTEMPTY => d.len() == 19 && d[3] == 'e' && d[8] == 'y',
            }
        }),
{
    reveal_strlit("Unknown error");
    reveal_strlit("Operation not permitted");
    reveal_strlit("No such file or directory");
    reveal_strlit("No such process");
    reveal_strlit("Interrupted system call");
    reveal_strlit("I/O error");
    reveal_strlit("No such device or address");
    reveal_strlit("Argument list too long");
    reveal_strlit("Exec format error");
    reveal_strlit("Bad file number");
    reveal_strlit("No child processes");
    reveal_strlit("Try again");
    reveal_strlit("Out of memory");
    reveal_strlit("Permission denied");
    reveal_strlit("Bad address");
    reveal_strlit("Block device required");
    reveal_strlit("Device or resource busy");
    reveal_strlit("File exists");
    reveal_strlit("Cross-device link");
    reveal_strlit("No such device");
    reveal_strlit("Not a directory");
    reveal_strlit("Is a directory");
    reveal_strlit("Invalid argument");
    reveal_strlit("File table overflow");
    reveal_strlit("Too many open files");
    reveal_strlit("Not a typewriter");
    reveal_strlit("Text file busy");
    reveal_strlit("File too large");
    reveal_strlit("No space left on device");
    reveal_strlit("Illegal seek");
    reveal_strlit("Read-only file system");
    reveal_strlit("Too many links");
    reveal_strlit("Broken pipe");
    reveal_strlit("Math argument out of domain of func");
    reveal_strlit("Math result not representable");
    reveal_strlit("Resource deadlock would occur");
    reveal_strlit("File name too long");
    reveal_strlit("No record locks available");
    reveal_strlit("Function not implemented");
    reveal_strlit("Directory not empty");
}

/// No two kinds share a phrase: the phrase tells the kind.
pub proof fn lemma_description_injective(a: SysError, b: SysError)
    requires
        a.spec_description() == b.spec_description(),
    ensures
        a == b,
{
    lemma_description_marks(a);
    lemma_description_marks(b);
}

} // verus!
