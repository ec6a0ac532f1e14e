//! Laws that relate several operations of the trait contracts, proved once
//! for every implementation from the contracts alone.

use vstd::prelude::*;

use crate::errors::Error;
use crate::interrupt::ConfigurableInterrupt;
use crate::interrupt::Interrupt;
use crate::interrupt::MaskableInterrupt;
use crate::line::EdgeInterrupt;

verus! {

/// Pending-delivery law, for any type with the masking capability: `mask`,
/// then `trigger`, then `unmask` ends with the occurrence delivered — the
/// trigger that arrived during the masked interval is never lost. When the
/// sequence completes, at least one more occurrence has been delivered and
/// the source is left unmasked with nothing pending, which is what a plain
/// unmasked `trigger` (exactly one more delivery, by the contract of
/// [`Interrupt::trigger`]) also guarantees.
///
/// A trigger on a masked source cannot fail, so the sequence reports an
/// error only when `mask` or `unmask` itself could not be applied, and the
/// error is theirs. Even then the occurrence is not lost: either nothing
/// happened at all, or the source is still masked with the occurrence
/// remembered as pending.
pub fn mask_trigger_unmask_delivers<T: MaskableInterrupt>(intr: &mut T) -> (r: Result<(), Error>)
    ensures
        r is Ok ==> final(intr).delivered() >= old(intr).delivered() + 1
            && !final(intr).masked() && !final(intr).pending(),
        r is Err ==> r == Err::<(), Error>(Error::InterruptNotChanged),
        r is Err ==> (*final(intr) == *old(intr)
            || (final(intr).masked() && final(intr).pending()
                && final(intr).delivered() == old(intr).delivered())),
{
    match intr.mask() {
        Ok(()) => {},
        Err(e) => {
            return Err(e);
        },
    }
    match intr.trigger() {
        Ok(()) => {},
        Err(e) => {
            return Err(e);
        },
    }
    intr.unmask()
}

/// Configuration round-trip law, for any type with the configuration
/// capability: after `update(cfg)` with a valid `cfg`, `get_config` returns
/// exactly `cfg`; with an invalid `cfg` the sequence reports
/// [`Error::InvalidConfiguration`] and the configuration read afterwards is
/// the one from before the failed call — no partial mutation is
/// observable.
pub fn update_then_get_config<T: ConfigurableInterrupt>(intr: &mut T, cfg: &T::Cfg) -> (r: Result<
    T::Cfg,
    Error,
>)
    ensures
        T::cfg_valid(*cfg) ==> (r matches Ok(c) && c == *cfg),
        !T::cfg_valid(*cfg) ==> r == Err::<T::Cfg, Error>(Error::InvalidConfiguration)
            && final(intr).config() == old(intr).config(),
{
    match intr.update(cfg) {
        Ok(()) => {},
        Err(e) => {
            return Err(e);
        },
    }
    intr.get_config()
}

/// Capability-defaults law: a minimal implementation of the base
/// [`Interrupt`] contract that overrides nothing beyond `trigger` — the
/// model [`EdgeInterrupt`] is such a type — answers every capability probe
/// with "absent": `acknowledge`, `enable` and `disable` report
/// [`Error::OperationNotSupported`], `notifier` and `ack_notifier` return
/// `None`, and the source itself is untouched.
pub fn probe_minimal_capabilities(intr: &mut EdgeInterrupt) -> (r: (
    Option<usize>,
    Option<usize>,
    Result<(), Error>,
    Result<(), Error>,
    Result<(), Error>,
))
    ensures
        r.0 is None,
        r.1 is None,
        r.2 == Err::<(), Error>(Error::OperationNotSupported),
        r.3 == Err::<(), Error>(Error::OperationNotSupported),
        r.4 == Err::<(), Error>(Error::OperationNotSupported),
        *final(intr) == *old(intr),
{
    let n = intr.notifier();
    let an = intr.ack_notifier();
    let ack = intr.acknowledge();
    let en = intr.enable();
    let dis = intr.disable();
    (n, an, ack, en, dis)
}

} // verus!
