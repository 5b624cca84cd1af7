//! A bounded handoff channel: a FIFO queue connecting one or more producers
//! to a single consumer, with configurable buffering (unbounded, bounded, or
//! rendezvous), an explicit close-on-last-sender lifecycle, and a supervisor
//! that recovers a producer task's terminal result once the stream is
//! drained.
//!
//! The [`channel`] module holds the queue core as a verified state machine:
//! every operation is a non-blocking atomic step with an exact contract over
//! the queue's mathematical model. The [`session`] module builds the
//! cooperative rendezvous discipline on top of it — scripted producer tasks,
//! blocking receive, the drain-then-join protocol, and a detector for the
//! join-before-drain deadlock — and [`interleave`] extends it to two
//! producers sharing one channel. The [`channels`] module walks through the
//! producer/consumer demonstrations. A runtime that blocks real threads on a
//! full or empty queue can wrap the core's steps in a mutex and condition
//! variable; every decision it makes is one of the verified transitions.
//!
//! The remaining modules are small verified utilities that ride along:
//! validation, geometry, text, caching, statistics, routing, and state
//! machines over plain data.

pub mod blog;
pub mod boxes;
pub mod channel;
pub mod channels;
pub mod enums;
pub mod generics;
pub mod guess;
pub mod gui;
pub mod interleave;
pub mod largest;
pub mod next_id_1;
pub mod next_id_2;
pub mod options;
pub mod rectangle;
pub mod routes;
pub mod session;
pub mod stats;
pub mod summary;
pub mod text;
pub mod workout;
