//! A single-slot durable mailbox that carries one text payload across a
//! process restart.
//!
//! The store owns exactly one record file under the application's data
//! directory. `save` writes the payload there before it returns; `consume`
//! reads the record back once after the restart and deletes it. The
//! `mailbox` module models the slice of the filesystem the store owns and
//! gives both operations exact contracts; the `laws` module states and
//! proves the store's slot discipline.

pub mod laws;
pub mod mailbox;
