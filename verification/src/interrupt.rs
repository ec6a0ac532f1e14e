//! The per-source contract: base control/notify trait plus the
//! configuration and masking capability extensions.

use vstd::prelude::*;

use crate::errors::Error;

verus! {

/// Trait used by interrupt producers to signal interrupts.
///
/// An object with this trait is shared between the virtual machine monitor
/// and the device that uses the interrupt. It offers a control interface for
/// the interrupt and a channel through which notifications pass between the
/// monitor and the device. When an interrupt is triggered, a notification
/// mechanism known to the hypervisor signals the guest; `notifier` exposes a
/// handle to that mechanism so that an external component can inject the
/// interrupt directly, bypassing this abstraction (for example, a
/// passthrough component registering a fast delivery path).
///
/// This is a capability-probe design: only `trigger` is mandatory. Every
/// other method has a default body that reports the capability as absent
/// (`None`, or [`Error::OperationNotSupported`]), and callers discover what a
/// concrete type supports by calling the optional method and inspecting the
/// result, not from static type information alone.
///
/// The ghost model of a source is three observations: `delivered`, the
/// number of occurrences injected into the guest so far; `masked`, whether
/// delivery is currently suppressed; and `pending`, whether an occurrence
/// was remembered while masked and still awaits delivery. A type without the
/// masking capability is never masked and never pending, so for it `trigger`
/// either delivers exactly one occurrence or fails with
/// [`Error::InterruptNotTriggered`] and changes nothing.
pub trait Interrupt: Sized {
    /// The type of the underlying mechanism used for notifications by this
    /// interrupt, an opaque handle not interpreted at this layer.
    type NotifierType;

    /// How many interrupt occurrences this source has delivered to the
    /// guest so far.
    spec fn delivered(&self) -> nat;

    /// Whether delivery from this source is currently suppressed. A source
    /// without the masking capability is never masked.
    spec fn masked(&self) -> bool;

    /// Whether an occurrence arrived while the source was masked, was
    /// remembered, and still awaits delivery.
    spec fn pending(&self) -> bool;

    /// Inject an interrupt from this interrupt source into the guest.
    ///
    /// A rejected trigger fails with [`Error::InterruptNotTriggered`] and
    /// leaves the source unchanged. A trigger on a masked source must not be
    /// lost: it is accepted and remembered as pending instead of delivered.
    /// A trigger on an unmasked source delivers exactly one occurrence.
    fn trigger(&mut self) -> (r: Result<(), Error>)
        ensures
            r is Err ==> r == Err::<(), Error>(Error::InterruptNotTriggered) && *final(self) == *old(self),
            old(self).masked() ==> r is Ok,
            (r is Ok && old(self).masked()) ==> (final(self).masked() && final(self).pending()
                && final(self).delivered() == old(self).delivered()),
            (r is Ok && !old(self).masked()) ==> (final(self).delivered() == old(self).delivered() + 1
                && final(self).masked() == old(self).masked() && final(self).pending() == old(self).pending()),
    ;

    /// Returns an interrupt notifier from this interrupt, a handle that lets
    /// external components inject this interrupt into the guest through a
    /// different interface than `trigger`. `None` when no such fast path
    /// exists, which is the default.
    fn notifier(&self) -> (r: Option<Self::NotifierType>)
        default_ensures
            r is None,
    {
        None
    }

    /// Called back when the guest processor acknowledges the interrupt.
    /// A failed acknowledgement applies nothing. By default the capability
    /// is absent.
    fn acknowledge(&mut self) -> (r: Result<(), Error>)
        ensures
            r is Err ==> *final(self) == *old(self),
        default_ensures
            r == Err::<(), Error>(Error::OperationNotSupported),
    {
        Err(Error::OperationNotSupported)
    }

    /// Returns an end-of-interrupt notifier from this interrupt, a handle on
    /// which external components observe guest acknowledgements, used for
    /// example to resample a level-triggered line. `None` when no such
    /// handle exists, which is the default.
    fn ack_notifier(&self) -> (r: Option<Self::NotifierType>)
        default_ensures
            r is None,
    {
        None
    }

    /// Enable generation of interrupts from this interrupt source. A failed
    /// transition applies nothing: it reports the capability as absent, or
    /// [`Error::InterruptNotChanged`], and leaves the source unchanged.
    /// Many interrupt types support only group-level control, so by default
    /// the capability is absent.
    fn enable(&mut self) -> (r: Result<(), Error>)
        ensures
            r is Err ==> ((r == Err::<(), Error>(Error::OperationNotSupported)
                || r == Err::<(), Error>(Error::InterruptNotChanged))
                && *final(self) == *old(self)),
            r is Ok ==> (final(self).delivered() == old(self).delivered()
                && final(self).masked() == old(self).masked()
                && final(self).pending() == old(self).pending()),
        default_ensures
            r == Err::<(), Error>(Error::OperationNotSupported),
    {
        Err(Error::OperationNotSupported)
    }

    /// Disable generation of interrupts from this interrupt source. A
    /// failed transition applies nothing: it reports the capability as
    /// absent, or [`Error::InterruptNotChanged`], and leaves the source
    /// unchanged. Many interrupt types support only group-level control, so
    /// by default the capability is absent.
    fn disable(&mut self) -> (r: Result<(), Error>)
        ensures
            r is Err ==> ((r == Err::<(), Error>(Error::OperationNotSupported)
                || r == Err::<(), Error>(Error::InterruptNotChanged))
                && *final(self) == *old(self)),
            r is Ok ==> (final(self).delivered() == old(self).delivered()
                && final(self).masked() == old(self).masked()
                && final(self).pending() == old(self).pending()),
        default_ensures
            r == Err::<(), Error>(Error::OperationNotSupported),
    {
        Err(Error::OperationNotSupported)
    }
}

/// Trait for interrupts that let users configure interrupt parameters, for
/// example the vector, target address and data payload of a
/// message-signaled source.
///
/// A type implements this trait only if it truly supports the capability;
/// validity of a configuration is type-specific and captured by
/// `cfg_valid`.
pub trait ConfigurableInterrupt: Interrupt {
    /// Type describing the configuration spec of the interrupt.
    type Cfg;

    /// The configuration currently in effect.
    spec fn config(&self) -> Self::Cfg;

    /// Which configurations this interrupt type accepts.
    spec fn cfg_valid(cfg: Self::Cfg) -> bool;

    /// Update the configuration of the interrupt, atomically: on success the
    /// given configuration is in effect and delivery state is untouched; on
    /// failure, which happens exactly on invalid configurations and reports
    /// [`Error::InvalidConfiguration`], the source is exactly as it was
    /// before the call — no partially-applied state is observable.
    fn update(&mut self, config: &Self::Cfg) -> (r: Result<(), Error>)
        ensures
            r is Ok <==> Self::cfg_valid(*config),
            r is Ok ==> (final(self).config() == *config
                && final(self).delivered() == old(self).delivered()
                && final(self).masked() == old(self).masked()
                && final(self).pending() == old(self).pending()),
            r is Err ==> r == Err::<(), Error>(Error::InvalidConfiguration) && *final(self) == *old(self),
    ;

    /// Returns the configuration currently in effect, which reflects the
    /// most recent successful `update`.
    fn get_config(&self) -> (r: Result<Self::Cfg, Error>)
        ensures
            r matches Ok(c) && c == self.config(),
    ;
}

/// Trait for interrupts that can be masked and unmasked.
///
/// Masking suppresses delivery without losing occurrences: a trigger that
/// arrives while the source is masked is remembered as pending, and at
/// least one delivery happens once the source is unmasked. This
/// pending-delivery contract models real level-triggered interrupt
/// controllers.
pub trait MaskableInterrupt: Interrupt {
    /// Mask the interrupt. Triggers arriving while masked are remembered
    /// but not delivered. On failure, reported as
    /// [`Error::InterruptNotChanged`], the source is unchanged.
    fn mask(&mut self) -> (r: Result<(), Error>)
        ensures
            r is Ok ==> (final(self).masked()
                && final(self).pending() == old(self).pending()
                && final(self).delivered() == old(self).delivered()),
            r is Err ==> r == Err::<(), Error>(Error::InterruptNotChanged) && *final(self) == *old(self),
    ;

    /// Unmask the interrupt, delivering it if it was pending: on success the
    /// source is no longer masked, nothing is left pending, and an
    /// occurrence remembered while masked has been delivered. On failure,
    /// reported as [`Error::InterruptNotChanged`], the source is unchanged.
    fn unmask(&mut self) -> (r: Result<(), Error>)
        ensures
            r is Ok ==> !final(self).masked() && !final(self).pending(),
            (r is Ok && old(self).pending()) ==> final(self).delivered() > old(self).delivered(),
            (r is Ok && !old(self).pending()) ==> final(self).delivered() == old(self).delivered(),
            r is Err ==> r == Err::<(), Error>(Error::InterruptNotChanged) && *final(self) == *old(self),
    ;
}

} // verus!
