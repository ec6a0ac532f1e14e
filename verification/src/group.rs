//! Life-cycle management of a homogeneous collection of interrupt sources.

use vstd::prelude::*;

use crate::errors::Error;
use crate::interrupt::Interrupt;

verus! {

/// Trait to manage a group of interrupt sources for a device.
///
/// A device uses an `InterruptSourceGroup` to manage multiple interrupts of
/// the same type. The group lets the device request and release interrupts
/// and act on the whole collection at once — enable and disable are bulk
/// operations, because some mechanisms (message-signaled interrupts on PCI,
/// for instance) only expose a single group-wide control.
///
/// The ghost model of a group is the sequence of its sources, in index
/// order, together with one group-wide enabled flag. Membership indices are
/// exactly `0 .. len() - 1`, and the size changes only through
/// `allocate_interrupts` and `free_interrupts`, never incrementally. Because
/// the enabled state is a single group-wide observation, a transition
/// through `enable` or `disable` applies to every source simultaneously: no
/// observer can see a partially-enabled group.
///
/// The group's state machine: a group begins unallocated (`len() == 0`);
/// `allocate_interrupts` moves it to a populated, disabled state; `enable`
/// and `disable` toggle delivery without changing the size; and
/// `free_interrupts` returns it to unallocated from any populated state.
/// This contract fixes the policy for `allocate_interrupts` on an already
/// populated group: it is a re-size that replaces the sources, applied
/// uniformly by every implementation.
///
/// A group must remain usable after being handed from one execution context
/// to another — constructed on a setup path, driven from an I/O-handling
/// path — hence the `Send` bound.
pub trait InterruptSourceGroup: Send + Sized {
    /// Type of the interrupts contained in this group.
    type InterruptType: Interrupt;

    /// The sources currently owned by the group, in index order.
    spec fn sources(&self) -> Seq<Self::InterruptType>;

    /// Whether the group as a whole is enabled for delivery.
    spec fn enabled(&self) -> bool;

    /// Which sizes the underlying interrupt type accepts; the concrete
    /// bound is type-specific (a power of two for one mechanism, a small
    /// range for another) and documented by the implementing type.
    spec fn size_valid(size: usize) -> bool;

    /// Return whether the group manages no interrupts.
    fn is_empty(&self) -> (r: bool)
        ensures
            r == (self.sources().len() == 0),
    ;

    /// Get the number of interrupt sources managed by the group.
    fn len(&self) -> (r: usize)
        ensures
            r == self.sources().len(),
    ;

    /// Enable the interrupt sources in the group to generate interrupts,
    /// as one bulk, atomic transition: on success the whole group is
    /// enabled and no source's delivery state is disturbed; on failure,
    /// reported as [`Error::InterruptNotChanged`], nothing changed.
    fn enable(&mut self) -> (r: Result<(), Error>)
        ensures
            r is Ok ==> final(self).enabled() && final(self).sources() == old(self).sources(),
            r is Err ==> r == Err::<(), Error>(Error::InterruptNotChanged)
                && *final(self) == *old(self),
    ;

    /// Disable the interrupt sources in the group, as one bulk, atomic
    /// transition: on success the whole group is disabled and no source's
    /// delivery state is disturbed; on failure, reported as
    /// [`Error::InterruptNotChanged`], nothing changed.
    fn disable(&mut self) -> (r: Result<(), Error>)
        ensures
            r is Ok ==> !final(self).enabled() && final(self).sources() == old(self).sources(),
            r is Err ==> r == Err::<(), Error>(Error::InterruptNotChanged)
                && *final(self) == *old(self),
    ;

    /// Return a shared handle to the `index`-th interrupt in the group, or
    /// `None` exactly when the index is out of bounds.
    fn get(&self, index: usize) -> (r: Option<&Self::InterruptType>)
        ensures
            index < self.sources().len() ==> (r matches Some(s) && *s == self.sources()[index as int]),
            index >= self.sources().len() ==> r is None,
    ;

    /// Request `size` interrupt sources of the group's underlying type.
    ///
    /// Succeeds exactly when `size` is valid for that type, and then the
    /// group holds `size` fresh sources — nothing delivered, nothing
    /// masked, nothing pending — in the disabled state; on a group that was
    /// already populated this is a re-size that replaces the sources. An
    /// invalid size fails with [`Error::InvalidConfiguration`] and changes
    /// nothing, so a group that was empty stays empty.
    fn allocate_interrupts(&mut self, size: usize) -> (r: Result<(), Error>)
        ensures
            r is Ok <==> Self::size_valid(size),
            r is Ok ==> final(self).sources().len() == size && !final(self).enabled(),
            r is Ok ==> forall|i: int| 0 <= i < size ==> ((#[trigger] final(self).sources()[i]).delivered() == 0
                && !final(self).sources()[i].masked() && !final(self).sources()[i].pending()),
            r is Err ==> r == Err::<(), Error>(Error::InvalidConfiguration)
                && *final(self) == *old(self),
    ;

    /// Release all interrupts within this group: afterwards the group is
    /// empty and disabled, and previously issued handles no longer reach a
    /// member of the group.
    fn free_interrupts(&mut self) -> (r: Result<(), Error>)
        ensures
            r is Ok,
            final(self).sources().len() == 0,
            !final(self).enabled(),
    ;
}

} // verus!
