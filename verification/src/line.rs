//! Reference model of pin-based interrupt sources and of a source group.
//!
//! These types are in-memory witnesses of the trait contracts: an
//! edge-style source that supports only `trigger`, a level-style line with
//! the masking capability, and a group that owns a collection of lines and
//! manages their life cycle. A hypervisor-backed implementation would keep
//! the same contracts and replace the counters with actual injections.

use vstd::prelude::*;

use crate::errors::Error;
use crate::group::InterruptSourceGroup;
use crate::interrupt::Interrupt;
use crate::interrupt::MaskableInterrupt;

verus! {

/// The largest number of lines one group of this model may hold, the bound
/// a typical multi-source mechanism (PCI message-signaled interrupts, for
/// instance) places on one device.
pub const MAX_LINES: usize = 32;

/// An edge-style interrupt source that supports nothing beyond `trigger`:
/// it cannot be masked, carries no configuration, and reports every
/// optional capability as absent through the default methods of
/// [`Interrupt`].
///
/// Delivery is modeled by a counter of occurrences; a trigger is rejected
/// with [`Error::InterruptNotTriggered`] only when that counter is
/// exhausted.
#[derive(Clone, Copy, Debug, PartialEq, Eq, Structural)]
pub struct EdgeInterrupt {
    /// Occurrences delivered to the guest so far.
    pub count: u64,
}

impl EdgeInterrupt {
    /// A fresh source with no delivery history.
    pub fn new() -> (r: EdgeInterrupt)
        ensures
            r.delivered() == 0 && !r.masked() && !r.pending(),
    {
        EdgeInterrupt { count: 0 }
    }
}

impl Interrupt for EdgeInterrupt {
    type NotifierType = usize;

    open spec fn delivered(&self) -> nat {
        self.count as nat
    }

    open spec fn masked(&self) -> bool {
        false
    }

    open spec fn pending(&self) -> bool {
        false
    }

    fn trigger(&mut self) -> (r: Result<(), Error>)
        ensures
            r is Ok <==> old(self).count < u64::MAX,
    {
        if self.count == u64::MAX {
            Err(Error::InterruptNotTriggered)
        } else {
            self.count = self.count + 1;
            Ok(())
        }
    }
}

/// A level-style interrupt line with the masking capability.
///
/// While the line is masked a trigger is not delivered but remembered: the
/// line becomes pending, and unmasking delivers the remembered occurrence.
/// At this layer multiple triggers arriving while masked coalesce into one
/// pending occurrence, delivered once on unmask.
#[derive(Clone, Copy, Debug, PartialEq, Eq, Structural)]
pub struct LineInterrupt {
    /// Occurrences delivered to the guest so far.
    pub count: u64,
    /// Whether delivery is currently suppressed.
    pub line_masked: bool,
    /// Whether an occurrence arrived while masked and awaits delivery.
    pub line_pending: bool,
}

impl LineInterrupt {
    /// A fresh, unmasked line with no delivery history.
    pub fn new() -> (r: LineInterrupt)
        ensures
            r.delivered() == 0 && !r.masked() && !r.pending(),
    {
        LineInterrupt { count: 0, line_masked: false, line_pending: false }
    }

    /// Deliver one occurrence, or remember it while the line is masked: the
    /// exact behaviour behind this model's [`Interrupt::trigger`]. The only
    /// rejection is an exhausted delivery counter on an unmasked line.
    pub fn signal(&mut self) -> (r: Result<(), Error>)
        ensures
            r is Ok <==> (old(self).line_masked || old(self).count < u64::MAX),
            r is Err ==> r == Err::<(), Error>(Error::InterruptNotTriggered)
                && *final(self) == *old(self),
            old(self).line_masked ==> (final(self).line_masked && final(self).line_pending
                && final(self).count == old(self).count),
            (!old(self).line_masked && old(self).count < u64::MAX) ==> (
                final(self).count == old(self).count + 1
                && final(self).line_masked == old(self).line_masked
                && final(self).line_pending == old(self).line_pending),
    {
        if self.line_masked {
            self.line_pending = true;
            Ok(())
        } else if self.count == u64::MAX {
            Err(Error::InterruptNotTriggered)
        } else {
            self.count = self.count + 1;
            Ok(())
        }
    }
}

impl Interrupt for LineInterrupt {
    type NotifierType = usize;

    open spec fn delivered(&self) -> nat {
        self.count as nat
    }

    open spec fn masked(&self) -> bool {
        self.line_masked
    }

    open spec fn pending(&self) -> bool {
        self.line_pending
    }

    fn trigger(&mut self) -> (r: Result<(), Error>)
        ensures
            r is Ok <==> (old(self).line_masked || old(self).count < u64::MAX),
    {
        self.signal()
    }
}

impl MaskableInterrupt for LineInterrupt {
    fn mask(&mut self) -> (r: Result<(), Error>)
        ensures
            r is Ok,
    {
        self.line_masked = true;
        Ok(())
    }

    fn unmask(&mut self) -> (r: Result<(), Error>)
        ensures
            r is Ok <==> !(old(self).line_pending && old(self).count == u64::MAX),
            (r is Ok && old(self).line_pending) ==> final(self).count == old(self).count + 1,
    {
        if self.line_pending {
            if self.count == u64::MAX {
                return Err(Error::InterruptNotChanged);
            }
            self.count = self.count + 1;
            self.line_pending = false;
        }
        self.line_masked = false;
        Ok(())
    }
}

/// A group of [`LineInterrupt`] sources managed together.
///
/// The group owns its lines and a single group-wide enabled flag; bulk
/// `enable`/`disable` flip that one flag, so every line changes delivery
/// eligibility in the same transition and no observer can see a mixed set.
/// Valid sizes are `1 ..= MAX_LINES`.
#[derive(Debug)]
pub struct LineGroup {
    /// The lines of the group, in index order.
    pub lines: Vec<LineInterrupt>,
    /// The group-wide enabled flag.
    pub active: bool,
}

impl LineGroup {
    /// A fresh, unallocated group.
    pub fn new() -> (r: LineGroup)
        ensures
            r.sources().len() == 0 && !r.enabled(),
    {
        LineGroup { lines: Vec::new(), active: false }
    }

    /// Whether delivery through the line at `i` is currently permitted.
    /// Every line of the group shares the group-wide flag, which is what
    /// makes bulk enable and disable atomic.
    pub open spec fn source_active(&self, i: int) -> bool {
        self.active
    }

    /// Trigger the line at `index` through the group.
    ///
    /// Delivery through the group is meaningful only while the group is
    /// enabled; a trigger on a disabled group or with an out-of-range index
    /// is rejected with [`Error::InterruptNotTriggered`]. Otherwise the
    /// line at `index` behaves exactly as [`Interrupt::trigger`] says —
    /// masked lines remember the occurrence — and no other line is
    /// disturbed.
    pub fn trigger_at(&mut self, index: usize) -> (r: Result<(), Error>)
        ensures
            final(self).active == old(self).active,
            final(self).lines@.len() == old(self).lines@.len(),
            r is Err ==> r == Err::<(), Error>(Error::InterruptNotTriggered)
                && *final(self) == *old(self),
            (!old(self).active || index >= old(self).lines@.len()) ==> r is Err,
            (old(self).active && index < old(self).lines@.len()
                && (old(self).lines@[index as int].masked()
                    || old(self).lines@[index as int].delivered() < u64::MAX)) ==> r is Ok,
            (old(self).active && index < old(self).lines@.len()) ==> {
                let pre = old(self).lines@[index as int];
                let post = final(self).lines@[index as int];
                &&& (forall|j: int| 0 <= j < old(self).lines@.len() && j != index as int
                    ==> final(self).lines@[j] == old(self).lines@[j])
                &&& (pre.masked() ==> r is Ok && post.masked() && post.pending()
                    && post.delivered() == pre.delivered())
                &&& ((r is Ok && !pre.masked()) ==> post.delivered() == pre.delivered() + 1
                    && post.masked() == pre.masked() && post.pending() == pre.pending())
            },
    {
        if !self.active || index >= self.lines.len() {
            return Err(Error::InterruptNotTriggered);
        }
        let mut line = self.lines[index];
        match line.signal() {
            Ok(()) => {
                self.lines[index] = line;
                Ok(())
            },
            Err(e) => Err(e),
        }
    }
}

impl InterruptSourceGroup for LineGroup {
    type InterruptType = LineInterrupt;

    open spec fn sources(&self) -> Seq<LineInterrupt> {
        self.lines@
    }

    open spec fn enabled(&self) -> bool {
        self.active
    }

    open spec fn size_valid(size: usize) -> bool {
        1 <= size <= MAX_LINES
    }

    fn is_empty(&self) -> (r: bool) {
        self.lines.len() == 0
    }

    fn len(&self) -> (r: usize) {
        self.lines.len()
    }

    fn enable(&mut self) -> (r: Result<(), Error>)
        ensures
            r is Ok <==> old(self).sources().len() > 0,
    {
        if self.lines.len() == 0 {
            return Err(Error::InterruptNotChanged);
        }
        self.active = true;
        Ok(())
    }

    fn disable(&mut self) -> (r: Result<(), Error>)
        ensures
            r is Ok <==> old(self).sources().len() > 0,
    {
        if self.lines.len() == 0 {
            return Err(Error::InterruptNotChanged);
        }
        self.active = false;
        Ok(())
    }

    fn get(&self, index: usize) -> (r: Option<&LineInterrupt>) {
        if index < self.lines.len() {
            Some(&self.lines[index])
        } else {
            None
        }
    }

    fn allocate_interrupts(&mut self, size: usize) -> (r: Result<(), Error>) {
        if size < 1 || size > MAX_LINES {
            return Err(Error::InvalidConfiguration);
        }
        let mut fresh: Vec<LineInterrupt> = Vec::new();
        let mut i: usize = 0;
        while i < size
            invariant
                i <= size,
                fresh@.len() == i,
                forall|j: int| 0 <= j < i ==> ((#[trigger] fresh@[j]).delivered() == 0
                    && !fresh@[j].masked() && !fresh@[j].pending()),
            decreases size - i,
        {
            fresh.push(LineInterrupt::new());
            i = i + 1;
        }
        self.lines = fresh;
        self.active = false;
        Ok(())
    }

    fn free_interrupts(&mut self) -> (r: Result<(), Error>) {
        self.lines = Vec::new();
        self.active = false;
        Ok(())
    }
}

/// Bulk control is atomic: any two lines of one group always agree on
/// whether delivery through them is permitted, so an observer probing the
/// lines one by one can never see a mixed enabled/disabled set.
pub proof fn lemma_bulk_control_is_uniform(g: &LineGroup, i: int, j: int)
    requires
        0 <= i < g.sources().len(),
        0 <= j < g.sources().len(),
    ensures
        g.source_active(i) == g.source_active(j),
{
}

} // verus!
