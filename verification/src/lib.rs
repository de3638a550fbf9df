//! Shared ownership through two-word handles.
//!
//! A handle is a record of two address words, one for a control block and
//! one for the pointee, tagged at compile time with the pointee's type. The
//! control block counts the handles that share the pointee; the release of
//! the last one destroys the pointee. Because the record is the same two
//! words for every pointee type, it can cross a boundary behind which the
//! type is not known.
//!
//! * [`protocol`] states the reference-counting protocol: the state of an
//!   engine and what each of its four operations does to it.
//! * [`engine`] is an in-process engine, verified to follow the protocol.
//! * [`handle`] is the typed handle, [`handle::shared_ptr`], and its
//!   operations, each verified to drive the engine as the protocol says.
//! * [`laws`] proves what shared ownership promises, for every state the
//!   protocol can reach.
//!
//! The engine is passed to every operation explicitly, and taking it by
//! `&mut` is what serialises the changes to a count. Handles over an engine
//! in another process or language need foreign calls and are not part of
//! this library; nothing here proves that such an engine follows the
//! protocol.

pub mod engine;
pub mod handle;
pub mod laws;
pub mod protocol;
