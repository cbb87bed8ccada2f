//! The system calls of the Python interpreter, by their x86_64 numbers.

use vstd::prelude::*;

use crate::sandbox_seccomp::{SyscallTable, TableModel};

verus! {

// File IO.
pub const SYS_READ: i32 = 0;

pub const SYS_WRITE: i32 = 1;

pub const SYS_OPENAT: i32 = 257;

pub const SYS_CLOSE: i32 = 3;

pub const SYS_NEWFSTATAT: i32 = 262;

pub const SYS_IOCTL: i32 = 16;

pub const SYS_LSEEK: i32 = 8;

pub const SYS_GETDENTS64: i32 = 217;

pub const SYS_FSTAT: i32 = 5;

// Signal.
pub const SYS_RT_SIGRETURN: i32 = 15;

pub const SYS_RT_SIGACTION: i32 = 13;

pub const SYS_RT_SIGPROCMASK: i32 = 14;

pub const SYS_SIGALTSTACK: i32 = 131;

pub const SYS_TGKILL: i32 = 234;

// Thread.
pub const SYS_FUTEX: i32 = 202;

// Memory.
pub const SYS_MMAP: i32 = 9;

pub const SYS_BRK: i32 = 12;

pub const SYS_MPROTECT: i32 = 10;

pub const SYS_MUNMAP: i32 = 11;

pub const SYS_MREMAP: i32 = 25;

// User / Group.
pub const SYS_GETUID: i32 = 102;

// Process.
pub const SYS_GETPID: i32 = 39;

pub const SYS_GETPPID: i32 = 110;

pub const SYS_GETTID: i32 = 186;

pub const SYS_EXIT: i32 = 60;

pub const SYS_EXIT_GROUP: i32 = 231;

pub const SYS_SCHED_YIELD: i32 = 24;

pub const SYS_SET_ROBUST_LIST: i32 = 273;

pub const SYS_GET_ROBUST_LIST: i32 = 274;

pub const SYS_RSEQ: i32 = 334;

// Time.
pub const SYS_CLOCK_GETTIME: i32 = 228;

pub const SYS_GETTIMEOFDAY: i32 = 96;

pub const SYS_TIME: i32 = 201;

pub const SYS_NANOSLEEP: i32 = 35;

pub const SYS_CLOCK_NANOSLEEP: i32 = 230;

// Epoll / Event (I/O multiplexing).
pub const SYS_EPOLL_CREATE1: i32 = 291;

pub const SYS_EPOLL_CTL: i32 = 233;

pub const SYS_PSELECT6: i32 = 270;

// Randomness.
pub const SYS_GETRANDOM: i32 = 318;

pub const SYS_CLONE: i32 = 56;

pub const SYS_MKDIRAT: i32 = 258;

pub const SYS_MKDIR: i32 = 83;

pub const SYS_SOCKET: i32 = 41;

pub const SYS_CONNECT: i32 = 42;

pub const SYS_BIND: i32 = 49;

pub const SYS_LISTEN: i32 = 50;

pub const SYS_ACCEPT: i32 = 43;

pub const SYS_SENDTO: i32 = 44;

pub const SYS_RECVFROM: i32 = 45;

pub const SYS_GETSOCKNAME: i32 = 51;

pub const SYS_RECVMSG: i32 = 47;

pub const SYS_GETPEERNAME: i32 = 52;

pub const SYS_SETSOCKOPT: i32 = 54;

pub const SYS_PPOLL: i32 = 271;

pub const SYS_UNAME: i32 = 63;

pub const SYS_SENDMSG: i32 = 46;

pub const SYS_SENDMMSG: i32 = 307;

pub const SYS_GETSOCKOPT: i32 = 55;

pub const SYS_FCNTL: i32 = 72;

pub const SYS_FSTATFS: i32 = 138;

pub const SYS_POLL: i32 = 7;

pub const SYS_EPOLL_PWAIT: i32 = 281;

/// The system calls that the interpreter needs.
pub open spec fn allow_syscalls() -> Seq<i32> {
    seq![
        SYS_READ,
        SYS_WRITE,
        SYS_OPENAT,
        SYS_CLOSE,
        SYS_NEWFSTATAT,
        SYS_IOCTL,
        SYS_LSEEK,
        SYS_GETDENTS64,
        SYS_FSTAT,
        SYS_RT_SIGRETURN,
        SYS_RT_SIGACTION,
        SYS_RT_SIGPROCMASK,
        SYS_SIGALTSTACK,
        SYS_TGKILL,
        SYS_FUTEX,
        SYS_MMAP,
        SYS_BRK,
        SYS_MPROTECT,
        SYS_MUNMAP,
        SYS_MREMAP,
        SYS_GETUID,
        SYS_GETPID,
        SYS_GETPPID,
        SYS_GETTID,
        SYS_EXIT,
        SYS_EXIT_GROUP,
        SYS_SCHED_YIELD,
        SYS_SET_ROBUST_LIST,
        SYS_GET_ROBUST_LIST,
        SYS_RSEQ,
        SYS_CLOCK_GETTIME,
        SYS_GETTIMEOFDAY,
        SYS_TIME,
        SYS_NANOSLEEP,
        SYS_CLOCK_NANOSLEEP,
        SYS_EPOLL_CREATE1,
        SYS_EPOLL_CTL,
        SYS_PSELECT6,
        SYS_GETRANDOM,
    ]
}

/// The system calls that fail with an error instead of killing the interpreter.
pub open spec fn allow_error_syscalls() -> Seq<i32> {
    seq![
        SYS_CLONE,
        SYS_MKDIRAT,
        SYS_MKDIR,
    ]
}

/// The system calls that network access takes.
pub open spec fn allow_network_syscalls() -> Seq<i32> {
    seq![
        SYS_SOCKET,
        SYS_CONNECT,
        SYS_BIND,
        SYS_LISTEN,
        SYS_ACCEPT,
        SYS_SENDTO,
        SYS_RECVFROM,
        SYS_GETSOCKNAME,
        SYS_RECVMSG,
        SYS_GETPEERNAME,
        SYS_SETSOCKOPT,
        SYS_PPOLL,
        SYS_UNAME,
        SYS_SENDMSG,
        SYS_SENDMMSG,
        SYS_GETSOCKOPT,
        SYS_FCNTL,
        SYS_FSTATFS,
        SYS_POLL,
        SYS_EPOLL_PWAIT,
    ]
}

/// The tables of the Python interpreter.
pub open spec fn python_model() -> TableModel {
    TableModel {
        allowed: allow_syscalls(),
        failing: allow_error_syscalls(),
        network: allow_network_syscalls(),
    }
}

/// The tables of the Python interpreter.
pub fn python_table() -> (res: SyscallTable)
    ensures
        res@ == python_model(),
{
    let allowed: Vec<i32> = vec![
        SYS_READ,
        SYS_WRITE,
        SYS_OPENAT,
        SYS_CLOSE,
        SYS_NEWFSTATAT,
        SYS_IOCTL,
        SYS_LSEEK,
        SYS_GETDENTS64,
        SYS_FSTAT,
        SYS_RT_SIGRETURN,
        SYS_RT_SIGACTION,
        SYS_RT_SIGPROCMASK,
        SYS_SIGALTSTACK,
        SYS_TGKILL,
        SYS_FUTEX,
        SYS_MMAP,
        SYS_BRK,
        SYS_MPROTECT,
        SYS_MUNMAP,
        SYS_MREMAP,
        SYS_GETUID,
        SYS_GETPID,
        SYS_GETPPID,
        SYS_GETTID,
        SYS_EXIT,
        SYS_EXIT_GROUP,
        SYS_SCHED_YIELD,
        SYS_SET_ROBUST_LIST,
        SYS_GET_ROBUST_LIST,
        SYS_RSEQ,
        SYS_CLOCK_GETTIME,
        SYS_GETTIMEOFDAY,
        SYS_TIME,
        SYS_NANOSLEEP,
        SYS_CLOCK_NANOSLEEP,
        SYS_EPOLL_CREATE1,
        SYS_EPOLL_CTL,
        SYS_PSELECT6,
        SYS_GETRANDOM,
    ];
    let failing: Vec<i32> = vec![
        SYS_CLONE,
        SYS_MKDIRAT,
        SYS_MKDIR,
    ];
    let network: Vec<i32> = vec![
        SYS_SOCKET,
        SYS_CONNECT,
        SYS_BIND,
        SYS_LISTEN,
        SYS_ACCEPT,
        SYS_SENDTO,
        SYS_RECVFROM,
        SYS_GETSOCKNAME,
        SYS_RECVMSG,
        SYS_GETPEERNAME,
        SYS_SETSOCKOPT,
        SYS_PPOLL,
        SYS_UNAME,
        SYS_SENDMSG,
        SYS_SENDMMSG,
        SYS_GETSOCKOPT,
        SYS_FCNTL,
        SYS_FSTATFS,
        SYS_POLL,
        SYS_EPOLL_PWAIT,
    ];
    assert(allowed@ =~= allow_syscalls());
    assert(failing@ =~= allow_error_syscalls());
    assert(network@ =~= allow_network_syscalls());
    SyscallTable { allowed, failing, network }
}

} // verus!
