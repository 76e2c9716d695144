//! A typed buffer-queue engine for a streaming media device.
//!
//! The device exposes two independent queues of fixed-size buffer slots:
//! an OUTPUT queue (application to device) and a CAPTURE queue (device to
//! application). Each slot cycles between `Free`, `Queued` and `Dequeued`.
//! This crate verifies the slot lifecycle: slots are claimed only while
//! free, plane counts are validated before anything is handed to the
//! device, caller-owned memory handles are never lost on a failure path,
//! and an abandoned in-flight submission always returns its slot to the
//! free pool.
//!
//! The low-level device call layer (ioctl marshalling) is an external
//! collaborator: each fallible device call is performed outside this
//! library, and its outcome is handed to a verified transition function
//! which updates the registry accordingly.

pub mod device;
pub mod dqbuf;
pub mod memory;
pub mod qbuf;
pub mod queue;
pub mod registry;
