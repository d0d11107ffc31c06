//! The control core of a small process supervisor.
//!
//! A supervisor launches programs as child processes, captures what they
//! write to standard output and standard error, notices when they end, and
//! asks them to end when it is interrupted. This library holds the
//! supervisor's decisions and none of its system calls: it says which call
//! is to be made next, and what follows from the answer. A driver performs
//! each [`syscall::Syscall`] and hands the [`syscall::Reply`] back.
//!
//! An operation that needs the system takes `replies`, the answers received
//! so far, and returns either the next call or its result.
//!
//! - A launch ([`runtime::App::start`]) and the operations on pipes
//!   ([`pipe::Pipe`]) are functions of all their answers: given the first
//!   `n` answers they return the call whose answer is number `n`, and once
//!   the answers suffice, the result. The driver appends each answer and
//!   calls again.
//! - A poll ([`runtime::App::poll`]) works on a process that exists and
//!   hands output to the logger on the way, so it takes one answer at a
//!   time: the answer to the call that its last step asked for.
//!
//! What is proved of these operations stands in their contracts and in the
//! `law_` functions beside them.

pub mod logger;
pub mod parser;
pub mod pipe;
pub mod platform;
pub mod runtime;
pub mod signal;
pub mod status;
pub mod supervisor;
pub mod syscall;
pub mod text;
pub mod utils;
