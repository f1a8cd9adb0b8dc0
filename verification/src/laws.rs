//! The slot discipline of the mailbox, stated once and proved.
//!
//! Each law speaks over the spec-level transitions of `mailbox` — the very
//! functions the executable operations' contracts are written with — so it
//! holds of every run in which the filesystem raises no fault.

use vstd::prelude::*;

use crate::mailbox::MailboxView;
use crate::mailbox::after_restart;
use crate::mailbox::consume_reading;
use crate::mailbox::consumed;
use crate::mailbox::saved;

verus! {

/// Round trip: a consume immediately after a flawless save of `p` reads
/// back exactly `p`, whatever the slot held before.
pub proof fn lemma_round_trip(m: MailboxView, p: Seq<char>)
    ensures
        consume_reading(saved(m, p)) == Some(p),
{
}

/// Single slot: after two saves in a row a consume reads only the second
/// payload; the first is overwritten, and one consume yields one record.
pub proof fn lemma_single_slot_overwrite(m: MailboxView, p1: Seq<char>, p2: Seq<char>)
    ensures
        consume_reading(saved(saved(m, p1), p2)) == Some(p2),
        p1 != p2 ==> consume_reading(saved(saved(m, p1), p2)) != Some(p1),
{
}

/// Consumption clears the slot: after a save and a flawless consume, a
/// second consume reads nothing.
pub proof fn lemma_consume_clears(m: MailboxView, p: Seq<char>)
    ensures
        consume_reading(consumed(saved(m, p))) is None,
{
}

/// Fresh environment: with no record on disk a consume reads nothing, and
/// the state is unchanged by it.
pub proof fn lemma_fresh_environment(m: MailboxView)
    requires
        m.slot is None,
    ensures
        consume_reading(m) is None,
        consumed(m) == m,
{
}

/// Directory auto-creation: a flawless save needs no pre-existing data
/// directory; it leaves the directory in place with the record inside it.
pub proof fn lemma_save_creates_directory(m: MailboxView, p: Seq<char>)
    ensures
        saved(m, p).dir_exists,
        saved(m, p).slot == Some(p),
        saved(m, p).wf(),
{
}

/// Durability ordering: the state a flawless save establishes is on stable
/// storage when the save returns, so an abrupt restart right after it loses
/// nothing, and a consume in the new process still reads `p`.
pub proof fn lemma_durable_across_restart(m: MailboxView, p: Seq<char>)
    ensures
        after_restart(saved(m, p)) == saved(m, p),
        consume_reading(after_restart(saved(m, p))) == Some(p),
{
}

} // verus!
