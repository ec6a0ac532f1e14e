//! Reference model of a message-signaled interrupt source with the
//! configuration capability.

use vstd::prelude::*;

use crate::errors::Error;
use crate::interrupt::ConfigurableInterrupt;
use crate::interrupt::Interrupt;

verus! {

/// Snapshot of a message-signaled source's tunable parameters: the target
/// address the in-band message is written to, and the data payload it
/// carries.
#[derive(Clone, Copy, Debug, PartialEq, Eq, Structural)]
pub struct MsiConfig {
    /// Target address of the interrupt message.
    pub address: u64,
    /// Data payload of the interrupt message.
    pub data: u32,
}

impl MsiConfig {
    /// Whether this configuration is acceptable: the message must have
    /// somewhere to go, so a zero target address is invalid.
    pub open spec fn valid(self) -> bool {
        self.address != 0
    }
}

/// A message-signaled interrupt source carrying an updatable
/// configuration.
///
/// Delivery is modeled by a counter of occurrences, as for the other
/// model sources; the configuration is replaced atomically by `update` and
/// read back by `get_config`.
#[derive(Clone, Copy, Debug, PartialEq, Eq, Structural)]
pub struct MsiInterrupt {
    /// Occurrences delivered to the guest so far.
    pub count: u64,
    /// The configuration currently in effect.
    pub cfg: MsiConfig,
}

impl MsiInterrupt {
    /// A fresh source with no delivery history, initially configured with
    /// `cfg`.
    pub fn new(cfg: MsiConfig) -> (r: MsiInterrupt)
        ensures
            r.delivered() == 0 && !r.masked() && !r.pending(),
            r.config() == cfg,
    {
        MsiInterrupt { count: 0, cfg }
    }
}

impl Interrupt for MsiInterrupt {
    type NotifierType = usize;

    open spec fn delivered(&self) -> nat {
        self.count as nat
    }

    open spec fn masked(&self) -> bool {
        false
    }

    open spec fn pending(&self) -> bool {
        false
    }

    fn trigger(&mut self) -> (r: Result<(), Error>)
        ensures
            r is Ok <==> old(self).count < u64::MAX,
    {
        if self.count == u64::MAX {
            Err(Error::InterruptNotTriggered)
        } else {
            self.count = self.count + 1;
            Ok(())
        }
    }
}

impl ConfigurableInterrupt for MsiInterrupt {
    type Cfg = MsiConfig;

    open spec fn config(&self) -> MsiConfig {
        self.cfg
    }

    open spec fn cfg_valid(cfg: MsiConfig) -> bool {
        cfg.valid()
    }

    fn update(&mut self, config: &MsiConfig) -> (r: Result<(), Error>) {
        if config.address == 0 {
            Err(Error::InvalidConfiguration)
        } else {
            self.cfg = *config;
            Ok(())
        }
    }

    fn get_config(&self) -> (r: Result<MsiConfig, Error>) {
        Ok(self.cfg)
    }
}

} // verus!
