//! The decisions of an asynchronous FUSE library, as functions on plain values.
//!
//! A FUSE filesystem is a process that answers the kernel. This crate holds what such a process
//! has to decide: who may use the filesystem ([`acl`]), where a request goes ([`dispatch`]), how a
//! session opens ([`handshake`]), runs ([`event_loop`], [`channel`]) and ends ([`session`],
//! [`unmount`]), what runs it ([`runtime`]), and what the kernel and the mount helpers are told
//! ([`mounting`], [`mount_options`], [`fusermount`]). It reads no descriptor and spawns no thread:
//! whoever does that performs the actions that these functions decide on, and reports what came of
//! them.

pub mod acl;
pub mod channel;
pub mod dispatch;
pub mod errno;
pub mod error;
pub mod event_loop;
pub mod fusermount;
pub mod handshake;
pub mod mount_options;
pub mod mounting;
pub mod open_flags;
pub mod operation;
pub mod platform;
pub mod runtime;
pub mod session;
pub mod text;
pub mod unmount;
