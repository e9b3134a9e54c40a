//! The two one-shot signals by which each direction of flow skips its own echo.

use vstd::prelude::*;

verus! {

/// Two independent single-slot signals. Each says "ignore the next event on
/// this path"; neither counts: set twice before it is taken, a signal still
/// suppresses one event.
#[derive(Debug, Clone, Copy, PartialEq, Eq, Structural)]
pub struct SuppressionFlags {
    /// The saver is about to write, or has written, the file: the next
    /// write-close notification is the shadow of that write.
    pub echoed_write: bool,
    /// The latest change came from the file by way of the deserializer and
    /// needs no way back to it.
    pub originated_from_disk: bool,
}

impl SuppressionFlags {
    /// Both signals clear.
    pub open spec fn clear() -> SuppressionFlags {
        SuppressionFlags { echoed_write: false, originated_from_disk: false }
    }

    /// Both signals clear.
    pub fn new() -> (flags: SuppressionFlags)
        ensures
            flags == SuppressionFlags::clear(),
    {
        SuppressionFlags { echoed_write: false, originated_from_disk: false }
    }

    /// Announces a write of the file.
    pub fn arm_echoed_write(&mut self)
        ensures
            *final(self) == (SuppressionFlags { echoed_write: true, ..*old(self) }),
    {
        self.echoed_write = true;
    }

    /// Reads and clears the echoed-write signal in one step.
    pub fn take_echoed_write(&mut self) -> (was_set: bool)
        ensures
            was_set == old(self).echoed_write,
            *final(self) == (SuppressionFlags { echoed_write: false, ..*old(self) }),
    {
        let was_set = self.echoed_write;
        self.echoed_write = false;
        was_set
    }

    /// Announces a change that came from the file.
    pub fn arm_originated_from_disk(&mut self)
        ensures
            *final(self) == (SuppressionFlags { originated_from_disk: true, ..*old(self) }),
    {
        self.originated_from_disk = true;
    }

    /// Reads and clears the originated-from-disk signal in one step.
    pub fn take_originated_from_disk(&mut self) -> (was_set: bool)
        ensures
            was_set == old(self).originated_from_disk,
            *final(self) == (SuppressionFlags { originated_from_disk: false, ..*old(self) }),
    {
        let was_set = self.originated_from_disk;
        self.originated_from_disk = false;
        was_set
    }
}

} // verus!
