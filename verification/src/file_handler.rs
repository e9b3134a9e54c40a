//! The file side of the engine: the raw text, the watcher and the saver.

use crate::event::EventKind;
use crate::suppression::SuppressionFlags;
use vstd::prelude::*;

verus! {

/// The version after `version`: one more, wrapping at the end of the range.
pub open spec fn next_version(version: u64) -> u64 {
    if version == u64::MAX {
        0
    } else {
        (version + 1) as u64
    }
}

/// The version after `version`.
pub fn bump(version: u64) -> (next: u64)
    ensures
        next == next_version(version),
        next != version,
{
    if version == u64::MAX {
        0
    } else {
        version + 1
    }
}

/// What the watcher does about a notification.
#[derive(Debug, Clone, Copy, PartialEq, Eq, Structural)]
pub enum WatcherAction {
    /// Nothing: the event is no finished write, or the watcher is stopped.
    Ignore,
    /// Nothing more: the event was the shadow of the engine's own write, and
    /// the echoed-write signal is now clear.
    Suppressed,
    /// Read the file in full and hand the outcome to `file_read`.
    Read,
}

/// What the saver does about the raw text.
#[derive(Debug, Clone, Copy, PartialEq, Eq, Structural)]
pub enum SaverAction {
    /// Nothing: the saver has seen this text, or is stopped.
    Idle,
    /// Nothing: the text came from the file itself.
    Skipped,
    /// Write the current raw text to the file, replacing what it held.
    Write,
}

/// The file side as a mathematical value.
pub ghost struct FileSide {
    /// Where the file is.
    pub path: Seq<char>,
    /// The raw text: the most recently observed or intended content.
    pub text: Seq<char>,
    /// Counts the changes of the raw text.
    pub version: u64,
    /// The version that the saver has seen.
    pub saver_seen: u64,
    /// The suppression signals of this engine.
    pub flags: SuppressionFlags,
    /// Whether the watcher and the saver are stopped.
    pub stopped: bool,
}

impl FileSide {
    /// The file side at startup, seeded with the file's content.
    pub open spec fn start(path: Seq<char>, text: Seq<char>) -> FileSide {
        FileSide {
            path,
            text,
            version: 0,
            saver_seen: 0,
            flags: SuppressionFlags::clear(),
            stopped: false,
        }
    }

    /// The raw text replaced by `text` where it differs; a replacement counts
    /// as one change, the same text as none.
    pub open spec fn publish(self, text: Seq<char>) -> FileSide {
        if text == self.text {
            self
        } else {
            FileSide { text, version: next_version(self.version), ..self }
        }
    }

    /// What the watcher does about `event`.
    pub open spec fn watcher_action(self, event: EventKind) -> WatcherAction {
        if self.stopped || !event.content_finalized() {
            WatcherAction::Ignore
        } else if self.flags.echoed_write {
            WatcherAction::Suppressed
        } else {
            WatcherAction::Read
        }
    }

    /// The file side after the watcher has decided about `event`.
    pub open spec fn watch(self, event: EventKind) -> FileSide {
        if self.watcher_action(event) == WatcherAction::Suppressed {
            FileSide { flags: SuppressionFlags { echoed_write: false, ..self.flags }, ..self }
        } else {
            self
        }
    }

    /// The file side after the watcher's read: a failed read changes nothing.
    pub open spec fn read(self, contents: Option<Seq<char>>) -> FileSide {
        match contents {
            Some(text) => self.publish(text),
            None => self,
        }
    }

    /// Whether the raw text has changed since the saver last looked.
    pub open spec fn saver_pending(self) -> bool {
        !self.stopped && self.saver_seen != self.version
    }

    /// What the saver does now.
    pub open spec fn saver_action(self) -> SaverAction {
        if !self.saver_pending() {
            SaverAction::Idle
        } else if self.flags.originated_from_disk {
            SaverAction::Skipped
        } else {
            SaverAction::Write
        }
    }

    /// The file side after the saver's turn.
    pub open spec fn save(self) -> FileSide {
        match self.saver_action() {
            SaverAction::Idle => self,
            SaverAction::Skipped => FileSide {
                saver_seen: self.version,
                flags: SuppressionFlags { originated_from_disk: false, ..self.flags },
                ..self
            },
            SaverAction::Write => FileSide {
                saver_seen: self.version,
                flags: SuppressionFlags { echoed_write: true, ..self.flags },
                ..self
            },
        }
    }

    /// The originated-from-disk signal set.
    pub open spec fn arm_originated_from_disk(self) -> FileSide {
        FileSide { flags: SuppressionFlags { originated_from_disk: true, ..self.flags }, ..self }
    }

    /// The originated-from-disk signal cleared.
    pub open spec fn take_originated_from_disk(self) -> FileSide {
        FileSide { flags: SuppressionFlags { originated_from_disk: false, ..self.flags }, ..self }
    }

    /// The watcher and the saver stopped.
    pub open spec fn stop(self) -> FileSide {
        FileSide { stopped: true, ..self }
    }
}

/// The raw text of one file with its watcher and its saver. Reading and
/// writing the file is the caller's part: the methods decide, the caller acts.
pub struct FileHander {
    path: String,
    text: String,
    version: u64,
    saver_seen: u64,
    flags: SuppressionFlags,
    stopped: bool,
}

impl View for FileHander {
    type V = FileSide;

    closed spec fn view(&self) -> FileSide {
        FileSide {
            path: self.path@,
            text: self.text@,
            version: self.version,
            saver_seen: self.saver_seen,
            flags: self.flags,
            stopped: self.stopped,
        }
    }
}

impl FileHander {
    /// The file side for the file at `path`, which now holds `contents`.
    pub fn new(path: String, contents: String) -> (file: FileHander)
        ensures
            file@ == FileSide::start(path@, contents@),
    {
        FileHander {
            path,
            text: contents,
            version: 0,
            saver_seen: 0,
            flags: SuppressionFlags::new(),
            stopped: false,
        }
    }

    /// Where the file is.
    pub fn path(&self) -> (path: &str)
        ensures
            path@ == self@.path,
    {
        self.path.as_str()
    }

    /// The current raw text.
    pub fn text(&self) -> (text: &str)
        ensures
            text@ == self@.text,
    {
        self.text.as_str()
    }

    /// Counts the changes of the raw text.
    pub fn version(&self) -> (version: u64)
        ensures
            version == self@.version,
    {
        self.version
    }

    /// The suppression signals as they stand.
    pub fn flags(&self) -> (flags: SuppressionFlags)
        ensures
            flags == self@.flags,
    {
        self.flags
    }

    /// Whether the raw text has changed since the saver last looked.
    pub fn saver_pending(&self) -> (pending: bool)
        ensures
            pending == self@.saver_pending(),
    {
        !self.stopped && self.saver_seen != self.version
    }

    /// Makes `text` the raw text if it differs from the current one, and says
    /// whether it did. The same text again is no change.
    pub fn publish(&mut self, text: String) -> (modified: bool)
        ensures
            final(self)@ == old(self)@.publish(text@),
            modified == (text@ != old(self)@.text),
    {
        if text == self.text {
            false
        } else {
            self.text = text;
            self.version = bump(self.version);
            true
        }
    }

    /// The watcher's decision about a notification for the file. A finished
    /// write is ignored once if the echoed-write signal is set, which clears
    /// the signal; otherwise the file is to be read.
    pub fn file_watcher(&mut self, event: EventKind) -> (action: WatcherAction)
        ensures
            action == old(self)@.watcher_action(event),
            final(self)@ == old(self)@.watch(event),
    {
        if self.stopped || !event.is_content_finalized() {
            WatcherAction::Ignore
        } else if self.flags.take_echoed_write() {
            WatcherAction::Suppressed
        } else {
            WatcherAction::Read
        }
    }

    /// Takes the outcome of the read that `file_watcher` asked for: the
    /// content is published if it differs from the raw text; a failed read is
    /// dropped. Says whether the raw text changed.
    pub fn file_read<E>(&mut self, contents: Result<String, E>) -> (modified: bool)
        ensures
            final(self)@ == old(self)@.read(
                match contents {
                    Ok(text) => Some(text@),
                    Err(_) => None,
                },
            ),
            modified == (contents matches Ok(text) && text@ != old(self)@.text),
    {
        match contents {
            Ok(text) => self.publish(text),
            Err(_) => false,
        }
    }

    /// The saver's decision about the raw text. A text that the saver has
    /// seen needs nothing. A new one is skipped, once, if the
    /// originated-from-disk signal is set, which clears the signal; otherwise
    /// the echoed-write signal is set and the text is to be written.
    pub fn file_saver(&mut self) -> (action: SaverAction)
        ensures
            action == old(self)@.saver_action(),
            final(self)@ == old(self)@.save(),
    {
        if self.stopped || self.saver_seen == self.version {
            SaverAction::Idle
        } else {
            self.saver_seen = self.version;
            if self.flags.take_originated_from_disk() {
                SaverAction::Skipped
            } else {
                self.flags.arm_echoed_write();
                SaverAction::Write
            }
        }
    }

    /// Sets the originated-from-disk signal.
    pub fn arm_originated_from_disk(&mut self)
        ensures
            final(self)@ == old(self)@.arm_originated_from_disk(),
    {
        self.flags.arm_originated_from_disk();
    }

    /// Reads and clears the originated-from-disk signal.
    pub fn take_originated_from_disk(&mut self) -> (was_set: bool)
        ensures
            was_set == old(self)@.flags.originated_from_disk,
            final(self)@ == old(self)@.take_originated_from_disk(),
    {
        self.flags.take_originated_from_disk()
    }

    /// Halts the watcher and the saver: from now on they ignore every event
    /// and every change.
    pub fn stop(&mut self)
        ensures
            final(self)@ == old(self)@.stop(),
    {
        self.stopped = true;
    }
}

} // verus!
