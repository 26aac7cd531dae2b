//! The window over one partition of a device.
//!
//! A window maps the relative positions `0..=len` of a partition onto the
//! absolute positions `start_pos..=end_pos` of the device, and keeps every
//! operation inside them. It does no I/O itself: for a read or a write it
//! says how many bytes the device may be asked for, for a seek where the
//! device is to be positioned, and the caller performs that on its device.

use vstd::prelude::*;

verus! {

/// Enumeration of possible methods to seek within a partition.
#[derive(Debug, Clone, Copy, PartialEq, Eq, Structural)]
pub enum SeekFrom {
    /// Sets the position to the provided number of bytes.
    Start(u64),
    /// Sets the position to the length of the partition plus the specified
    /// number of bytes.
    End(i64),
    /// Sets the position to the current position plus the specified number
    /// of bytes.
    Current(i64),
}

/// `value`, brought into `low..=high`.
pub open spec fn clamp(value: int, low: int, high: int) -> int {
    if value < low {
        low
    } else if value > high {
        high
    } else {
        value
    }
}

/// A window as mathematical values: the bounds of the partition on the
/// device, and the cursor relative to its start.
pub struct WindowView {
    /// The byte offset on the device at which the partition begins.
    pub start_pos: nat,
    /// The byte offset on the device just past the partition.
    pub end_pos: nat,
    /// The cursor, counted from the start of the partition.
    pub pos: nat,
}

impl WindowView {
    /// The bounds are in order and the cursor lies within them.
    pub open spec fn wf(self) -> bool {
        &&& self.start_pos <= self.end_pos
        &&& self.pos <= self.end_pos - self.start_pos
    }

    /// The length of the partition in bytes.
    pub open spec fn len(self) -> nat {
        (self.end_pos - self.start_pos) as nat
    }

    /// The number of bytes between the cursor and the end of the partition.
    pub open spec fn available(self) -> nat {
        (self.len() - self.pos) as nat
    }

    /// The position on the device that the cursor stands for.
    pub open spec fn device_pos(self) -> nat {
        self.start_pos + self.pos
    }

    /// The number of bytes that a transfer of `requested` bytes may move:
    /// all of them, or as many as are left before the end of the partition.
    pub open spec fn granted(self, requested: nat) -> nat {
        if requested < self.available() {
            requested
        } else {
            self.available()
        }
    }

    /// The same window with its cursor at `pos`.
    pub open spec fn at(self, pos: nat) -> WindowView {
        WindowView { pos, ..self }
    }

    /// The window after a transfer of `requested` bytes was asked for.
    pub open spec fn transfer(self, requested: nat) -> WindowView {
        self.at(self.pos + self.granted(requested))
    }

    /// The relative position that a seek leads to.
    pub open spec fn seek_target(self, from: SeekFrom) -> nat {
        match from {
            SeekFrom::Start(offset) => clamp(offset as int, 0, self.len() as int) as nat,
            SeekFrom::Current(offset) => clamp(self.pos + offset, 0, self.len() as int) as nat,
            SeekFrom::End(offset) => clamp(self.len() + offset, 0, self.len() as int) as nat,
        }
    }

    /// The window after a seek that its device accepted.
    pub open spec fn seek(self, from: SeekFrom) -> WindowView {
        self.at(self.seek_target(from))
    }
}

impl WindowView {
    /// Every seek leads to a position within the partition, its end
    /// included, whatever the origin and the offset.
    pub proof fn lemma_seek_within_bounds(self, from: SeekFrom)
        requires
            self.wf(),
        ensures
            0 <= self.seek_target(from) <= self.len(),
            self.seek(from).wf(),
            self.seek(from).start_pos == self.start_pos,
            self.seek(from).end_pos == self.end_pos,
            self.start_pos <= self.seek(from).device_pos() <= self.end_pos,
    {
    }

    /// A transfer with the cursor at the end of the partition moves no byte
    /// and leaves the window as it is.
    pub proof fn lemma_transfer_at_end(self, requested: nat)
        requires
            self.wf(),
            self.pos == self.len(),
        ensures
            self.granted(requested) == 0,
            self.transfer(requested) == self,
    {
    }

    /// A transfer of more bytes than are left moves exactly what is left and
    /// puts the cursor at the end of the partition.
    pub proof fn lemma_transfer_clamped(self, requested: nat)
        requires
            self.wf(),
            requested > self.available(),
        ensures
            self.granted(requested) == self.available(),
            self.granted(requested) == self.len() - self.pos,
            self.transfer(requested).pos == self.len(),
            self.transfer(requested).wf(),
    {
    }

    /// A transfer never leaves the partition: it covers device positions
    /// from the cursor's up to, at most, the partition's end.
    pub proof fn lemma_transfer_within_bounds(self, requested: nat)
        requires
            self.wf(),
        ensures
            self.granted(requested) <= requested,
            self.device_pos() + self.granted(requested) <= self.end_pos,
            self.transfer(requested).wf(),
            self.transfer(requested).device_pos() == self.device_pos() + self.granted(
                requested,
            ),
    {
    }

    /// After a write, a seek back to where it began restores the window: a
    /// read of the same size is then granted the same number of bytes at the
    /// same device position, so it covers the bytes that the write covered.
    /// What the read returns is then up to the device.
    pub proof fn lemma_seek_back_covers_same_range(self, requested: nat)
        requires
            self.wf(),
            self.pos <= u64::MAX,
        ensures
            self.transfer(requested).seek(SeekFrom::Start(self.pos as u64)) == self,
            self.pos == 0 ==> self.transfer(requested).seek(SeekFrom::Start(0)) == self,
    {
    }
}

/// Used to interface with partitions
#[derive(Debug)]
pub struct Partition {
    start_pos: u64,
    end_pos: u64,
    pos: u64,
}

impl View for Partition {
    type V = WindowView;

    closed spec fn view(&self) -> WindowView {
        WindowView {
            start_pos: self.start_pos as nat,
            end_pos: self.end_pos as nat,
            pos: self.pos as nat,
        }
    }
}

impl Partition {
    /// The bounds are in order and the cursor lies within them, at all times.
    #[verifier::type_invariant]
    spec fn inv(self) -> bool {
        &&& self.start_pos <= self.end_pos
        &&& self.pos <= self.end_pos - self.start_pos
    }

    /// Create a new partition given the start and end position
    ///
    /// The cursor is at the start of the partition: the device is to be
    /// positioned at `start_pos` before the window is used.
    pub fn new(start_pos: u64, end_pos: u64) -> (partition: Partition)
        requires
            start_pos <= end_pos,
        ensures
            partition@ == (WindowView {
                start_pos: start_pos as nat,
                end_pos: end_pos as nat,
                pos: 0,
            }),
            partition@.wf(),
    {
        Partition { start_pos, end_pos, pos: 0 }
    }

    /// Get the length of the partition in bytes
    pub fn len(&self) -> (len: u64)
        ensures
            self@.wf(),
            len == self@.len(),
    {
        proof {
            use_type_invariant(self);
        }
        self.end_pos - self.start_pos
    }

    /// The cursor, counted from the start of the partition.
    pub fn position(&self) -> (pos: u64)
        ensures
            self@.wf(),
            pos == self@.pos,
            pos <= self@.len(),
    {
        proof {
            use_type_invariant(self);
        }
        self.pos
    }

    /// The position on the device that the cursor stands for.
    pub fn device_position(&self) -> (pos: u64)
        ensures
            self@.wf(),
            pos == self@.device_pos(),
            self@.start_pos <= pos <= self@.end_pos,
    {
        proof {
            use_type_invariant(self);
        }
        self.start_pos + self.pos
    }

    /// The number of bytes between the cursor and the end of the partition.
    pub fn available(&self) -> (n: u64)
        ensures
            self@.wf(),
            n == self@.available(),
    {
        proof {
            use_type_invariant(self);
        }
        self.end_pos - self.start_pos - self.pos
    }

    /// Limits a transfer to what is left of the partition and moves the
    /// cursor past it.
    fn claim(&mut self, requested: usize) -> (granted: usize)
        ensures
            old(self)@.wf(),
            final(self)@.wf(),
            granted == old(self)@.granted(requested as nat),
            final(self)@ == old(self)@.transfer(requested as nat),
    {
        let available = self.available();
        let granted: usize = if (requested as u64) < available {
            requested
        } else {
            available as usize
        };
        self.pos = self.pos + granted as u64;
        granted
    }

    /// Prepares a read into a buffer of `requested` bytes: returns how many
    /// bytes the device is to be asked for, from where it stands, and moves
    /// the cursor past them.
    ///
    /// The read never crosses the end of the partition: at the end it is
    /// granted no byte, which is no error. The cursor moves by the number
    /// returned here, whatever the device then delivers.
    pub fn read(&mut self, requested: usize) -> (granted: usize)
        ensures
            old(self)@.wf(),
            final(self)@.wf(),
            granted == old(self)@.granted(requested as nat),
            final(self)@ == old(self)@.transfer(requested as nat),
            granted <= requested,
            old(self)@.device_pos() + granted <= old(self)@.end_pos,
            old(self)@.pos == old(self)@.len() ==> granted == 0 && final(self)@ == old(self)@,
            requested > old(self)@.len() - old(self)@.pos ==> granted == old(self)@.len() - old(
                self,
            )@.pos && final(self)@.pos == old(self)@.len(),
    {
        self.claim(requested)
    }

    /// Prepares a write of a buffer of `requested` bytes: returns how many
    /// of its leading bytes the device is to be handed, where it stands, and
    /// moves the cursor past them.
    ///
    /// The write never crosses the end of the partition: at the end it is
    /// granted no byte, which is no error. The cursor moves by the number
    /// returned here, whatever the device then accepts.
    pub fn write(&mut self, requested: usize) -> (granted: usize)
        ensures
            old(self)@.wf(),
            final(self)@.wf(),
            granted == old(self)@.granted(requested as nat),
            final(self)@ == old(self)@.transfer(requested as nat),
            granted <= requested,
            old(self)@.device_pos() + granted <= old(self)@.end_pos,
            old(self)@.pos == old(self)@.len() ==> granted == 0 && final(self)@ == old(self)@,
            requested > old(self)@.len() - old(self)@.pos ==> granted == old(self)@.len() - old(
                self,
            )@.pos && final(self)@.pos == old(self)@.len(),
    {
        self.claim(requested)
    }

    /// The relative position that a seek leads to: the position asked for,
    /// brought into the partition.
    pub fn seek_target(&self, from: SeekFrom) -> (target: u64)
        ensures
            self@.wf(),
            target == self@.seek_target(from),
            0 <= target <= self@.len(),
    {
        proof {
            use_type_invariant(self);
        }
        let len: i128 = (self.end_pos - self.start_pos) as i128;
        let wanted: i128 = match from {
            SeekFrom::Start(offset) => offset as i128,
            SeekFrom::Current(offset) => self.pos as i128 + offset as i128,
            SeekFrom::End(offset) => len + offset as i128,
        };
        if wanted < 0 {
            0
        } else if wanted > len {
            self.end_pos - self.start_pos
        } else {
            wanted as u64
        }
    }

    /// Prepares a seek: returns the position at which the device is to be
    /// placed. The cursor stays where it is until the device's answer is
    /// handed to [`Partition::seek`].
    pub fn seek_device_position(&self, from: SeekFrom) -> (pos: u64)
        ensures
            self@.wf(),
            pos == self@.start_pos + self@.seek_target(from),
            pos == self@.seek(from).device_pos(),
            self@.start_pos <= pos <= self@.end_pos,
    {
        proof {
            use_type_invariant(self);
        }
        self.start_pos + self.seek_target(from)
    }

    /// Completes a seek with the answer of the device to a seek to
    /// [`Partition::seek_device_position`].
    ///
    /// Where the device accepted, the cursor moves to the target and the
    /// new relative position is returned. Where it failed, its error is
    /// handed on and the cursor stays. Either way the cursor lies within
    /// the partition afterwards, and so does a position returned.
    pub fn seek<E>(&mut self, from: SeekFrom, outcome: Result<u64, E>) -> (r: Result<u64, E>)
        ensures
            old(self)@.wf(),
            final(self)@.wf(),
            0 <= final(self)@.pos <= final(self)@.len(),
            match outcome {
                Ok(_) => {
                    &&& r == Ok::<u64, E>(old(self)@.seek_target(from) as u64)
                    &&& final(self)@ == old(self)@.seek(from)
                },
                Err(e) => r == Err::<u64, E>(e) && final(self)@ == old(self)@,
            },
            r matches Ok(pos) ==> 0 <= pos <= old(self)@.len() && pos == final(self)@.pos,
    {
        proof {
            use_type_invariant(&*self);
        }
        match outcome {
            Ok(_) => {
                let target = self.seek_target(from);
                self.pos = target;
                Ok(target)
            },
            Err(e) => Err(e),
        }
    }
}

} // verus!
