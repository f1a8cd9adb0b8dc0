//! The post-update mailbox: a single-slot durable store for one text
//! payload, kept in a fixed record file under the application's data
//! directory.
//!
//! The `Mailbox` type models the slice of the filesystem the store owns:
//! whether the data directory exists, and the contents of the record file.
//! The host process performs the actual filesystem steps and reports the
//! first fault they raised, if any, as a `SaveIo` or `ConsumeIo` value; the
//! verified transitions decide what each operation returns and what the
//! durable state is afterwards. Because the model holds durable state only
//! — the store keeps no volatile cache — whatever a transition establishes
//! survives a process restart.

use vstd::prelude::*;

verus! {

/// Ghost model of what the store owns on stable storage: whether the
/// application data directory exists, and the record file's contents
/// (`None` when the file is absent).
pub struct MailboxView {
    pub dir_exists: bool,
    pub slot: Option<Seq<char>>,
}

impl MailboxView {
    /// The record file lives inside the data directory, so it can only be
    /// present once the directory is.
    pub open spec fn wf(self) -> bool {
        self.slot is Some ==> self.dir_exists
    }
}

/// The state after a save of `p` on which no filesystem step failed: the
/// data directory exists and the record file holds exactly `p`, whatever
/// was there before.
pub open spec fn saved(m: MailboxView, p: Seq<char>) -> MailboxView {
    MailboxView { dir_exists: true, slot: Some(p) }
}

/// What a consume on which no filesystem step failed returns: the record
/// file's contents, or nothing when the file is absent.
pub open spec fn consume_reading(m: MailboxView) -> Option<Seq<char>> {
    m.slot
}

/// The state after a consume on which no filesystem step failed: the record
/// file is gone, the directory stays.
pub open spec fn consumed(m: MailboxView) -> MailboxView {
    MailboxView { dir_exists: m.dir_exists, slot: None }
}

/// The state a new process instance finds after an abrupt restart. The
/// mailbox lives on stable storage only and keeps no volatile cache, so a
/// restart loses nothing of it.
pub open spec fn after_restart(m: MailboxView) -> MailboxView {
    m
}

/// The record file's contents as the model sees them.
pub open spec fn contents_view(o: Option<String>) -> Option<Seq<char>> {
    match o {
        Some(s) => Some(s@),
        None => None,
    }
}

/// The error a save reports when no per-user data directory can be
/// resolved.
pub open spec fn no_data_dir_message() -> Seq<char> {
    "Cannot resolve app data directory"@
}

/// The first fault the filesystem raised during a save, if any. The steps
/// run in order — resolve the data directory, create missing directories,
/// write the record file — and stop at the first fault.
pub enum SaveIo {
    /// Every step succeeded.
    Flawless,
    /// No per-user data directory could be resolved; nothing was touched.
    NoDataDir,
    /// Creating the missing directories failed; the message names the
    /// cause. Nothing was touched.
    CreateDirFailed(String),
    /// Writing the record file failed; the message names the cause. The
    /// directories exist, the old record, if any, is untouched.
    WriteFailed(String),
}

/// The first fault the filesystem raised during a consume, if any. The
/// steps run in order — resolve the data directory, read the record file,
/// delete it — and stop at the first fault.
pub enum ConsumeIo {
    /// Every step succeeded.
    Flawless,
    /// No per-user data directory could be resolved; nothing was touched.
    NoDataDir,
    /// The record file could not be read; nothing was touched.
    ReadFailed,
    /// The record was read but the file could not be deleted, so it stays.
    DeleteFailed,
}

/// The single-slot mailbox. A value of this type stands for the durable
/// state the store owns; the host process keeps it in step with the real
/// filesystem by reporting each operation's faults.
pub struct Mailbox {
    dir_exists: bool,
    slot: Option<String>,
}

impl View for Mailbox {
    type V = MailboxView;

    closed spec fn view(&self) -> MailboxView {
        MailboxView { dir_exists: self.dir_exists, slot: contents_view(self.slot) }
    }
}

impl Mailbox {
    /// The slot of a fresh installation: no data directory yet, no record.
    pub fn new() -> (m: Mailbox)
        ensures
            m@ == (MailboxView { dir_exists: false, slot: None::<Seq<char>> }),
            m@.wf(),
    {
        Mailbox { dir_exists: false, slot: None }
    }

    /// Rebuild the slot from what a process finds on disk at startup:
    /// whether the data directory exists, and the record file's contents
    /// when it is present.
    pub fn from_disk(dir_exists: bool, file: Option<String>) -> (m: Mailbox)
        requires
            file is Some ==> dir_exists,
        ensures
            m@ == (MailboxView { dir_exists, slot: contents_view(file) }),
            m@.wf(),
    {
        Mailbox { dir_exists, slot: file }
    }

    /// Whether the data directory exists in the modelled state.
    pub fn dir_exists(&self) -> (b: bool)
        ensures
            b == self@.dir_exists,
    {
        self.dir_exists
    }

    /// The record file's contents, as a fresh process would read them.
    pub fn contents(&self) -> (r: Option<String>)
        ensures
            contents_view(r) == self@.slot,
    {
        match &self.slot {
            Some(s) => Some(s.clone()),
            None => None,
        }
    }

    /// Record `payload` in the slot, fully replacing any prior record.
    ///
    /// `io` is the first fault the filesystem raised while the host carried
    /// the steps out, if any. A save is strict: it succeeds exactly when no
    /// step failed, and every fault is reported to the caller. On success
    /// the payload is on stable storage before the call returns; on failure
    /// the old record, if any, is still in place.
    pub fn save(&mut self, payload: String, io: SaveIo) -> (r: Result<(), String>)
        ensures
            old(self)@.wf() ==> final(self)@.wf(),
            r is Ok <==> io is Flawless,
            io is Flawless ==> final(self)@ == saved(old(self)@, payload@),
            io is NoDataDir ==> final(self)@ == old(self)@
                && (r matches Err(e) && e@ == no_data_dir_message()),
            io matches SaveIo::CreateDirFailed(cause) ==> final(self)@ == old(self)@
                && (r matches Err(e) && e@ == cause@),
            io matches SaveIo::WriteFailed(cause) ==> final(self)@
                == (MailboxView { dir_exists: true, slot: old(self)@.slot })
                && (r matches Err(e) && e@ == cause@),
            r is Err ==> final(self)@.slot == old(self)@.slot,
    {
        match io {
            SaveIo::Flawless => {
                self.dir_exists = true;
                self.slot = Some(payload);
                Ok(())
            },
            SaveIo::NoDataDir => Err("Cannot resolve app data directory".to_owned()),
            SaveIo::CreateDirFailed(cause) => Err(cause),
            SaveIo::WriteFailed(cause) => {
                self.dir_exists = true;
                Err(cause)
            },
        }
    }

    /// Take the record out of the slot.
    ///
    /// `io` is the first fault the filesystem raised while the host carried
    /// the steps out, if any. A consume is lenient: a fault before the read
    /// degrades to "nothing pending" and changes nothing; a failed delete
    /// after a successful read still hands the record back and leaves the
    /// stale file for the next save to overwrite. A consume never invents a
    /// record: it returns a payload only if the slot held it.
    pub fn consume(&mut self, io: ConsumeIo) -> (r: Option<String>)
        ensures
            old(self)@.wf() ==> final(self)@.wf(),
            io is Flawless ==> contents_view(r) == consume_reading(old(self)@)
                && final(self)@ == consumed(old(self)@),
            io is NoDataDir ==> r is None && final(self)@ == old(self)@,
            io is ReadFailed ==> r is None && final(self)@ == old(self)@,
            io is DeleteFailed ==> contents_view(r) == old(self)@.slot
                && final(self)@ == old(self)@,
            r is Some ==> old(self)@.slot is Some,
    {
        match io {
            ConsumeIo::Flawless => self.slot.take(),
            ConsumeIo::NoDataDir => None,
            ConsumeIo::ReadFailed => None,
            ConsumeIo::DeleteFailed => match &self.slot {
                Some(s) => Some(s.clone()),
                None => None,
            },
        }
    }
}

} // verus!
