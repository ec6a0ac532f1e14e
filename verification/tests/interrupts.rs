use vm_interrupt::line::{EdgeInterrupt, LineGroup, LineInterrupt, MAX_LINES};
use vm_interrupt::msi::{MsiConfig, MsiInterrupt};
use vm_interrupt::ConfigurableInterrupt;
use vm_interrupt::Error;
use vm_interrupt::Interrupt;
use vm_interrupt::InterruptSourceGroup;
use vm_interrupt::MaskableInterrupt;

#[test]
fn error_messages() {
    assert_eq!(
        Error::OperationNotSupported.message(),
        "Interrupt error: operation not supported"
    );
    assert_eq!(
        Error::InvalidConfiguration.message(),
        "Interrupt error: invalid configuration"
    );
    assert_eq!(
        Error::InterruptNotChanged.message(),
        "Interrupt error: the interrupt state could not be changed"
    );
    assert_eq!(
        Error::InterruptNotTriggered.message(),
        "Interrupt error: the interrupt could not be triggered"
    );
}

#[test]
fn allocate_sets_len_and_free_clears_it() {
    let mut g = LineGroup::new();
    assert!(g.is_empty());
    assert_eq!(g.len(), 0);
    assert!(g.allocate_interrupts(4).is_ok());
    assert_eq!(g.len(), 4);
    assert!(!g.is_empty());
    assert!(g.free_interrupts().is_ok());
    assert_eq!(g.len(), 0);
    assert!(g.is_empty());
}

#[test]
fn allocate_is_a_resize_on_a_populated_group() {
    let mut g = LineGroup::new();
    assert!(g.allocate_interrupts(2).is_ok());
    assert!(g.allocate_interrupts(5).is_ok());
    assert_eq!(g.len(), 5);
    for i in 0..5 {
        let line = g.get(i).unwrap();
        assert_eq!(line.count, 0);
        assert!(!line.line_masked);
        assert!(!line.line_pending);
    }
}

#[test]
fn get_is_some_exactly_within_bounds() {
    let mut g = LineGroup::new();
    assert!(g.allocate_interrupts(3).is_ok());
    for i in 0..3 {
        assert!(g.get(i).is_some());
    }
    assert!(g.get(3).is_none());
    assert!(g.get(usize::MAX).is_none());
}

#[test]
fn mask_trigger_unmask_delivers_once() {
    let mut line = LineInterrupt::new();
    assert!(line.mask().is_ok());
    assert!(line.trigger().is_ok());
    assert_eq!(line.count, 0);
    assert!(line.line_pending);
    assert!(line.unmask().is_ok());
    assert_eq!(line.count, 1);
    assert!(!line.line_pending);
    assert!(!line.line_masked);

    // The same occurrence count as one plain unmasked trigger.
    let mut plain = LineInterrupt::new();
    assert!(plain.trigger().is_ok());
    assert_eq!(plain.count, line.count);
}

#[test]
fn triggers_while_masked_coalesce() {
    let mut line = LineInterrupt::new();
    assert!(line.mask().is_ok());
    assert!(line.trigger().is_ok());
    assert!(line.trigger().is_ok());
    assert!(line.trigger().is_ok());
    assert!(line.unmask().is_ok());
    assert_eq!(line.count, 1);
}

#[test]
fn unmask_without_pending_delivers_nothing() {
    let mut line = LineInterrupt::new();
    assert!(line.mask().is_ok());
    assert!(line.unmask().is_ok());
    assert_eq!(line.count, 0);
}

#[test]
fn pending_delivery_law_runs_on_a_line() {
    let mut line = LineInterrupt::new();
    assert!(vm_interrupt::laws::mask_trigger_unmask_delivers(&mut line).is_ok());
    assert_eq!(line.count, 1);
}

#[test]
fn config_roundtrip_on_valid_update() {
    let mut msi = MsiInterrupt::new(MsiConfig { address: 0xfee0_0000, data: 1 });
    let cfg = MsiConfig { address: 0xfee0_1000, data: 42 };
    assert!(msi.update(&cfg).is_ok());
    assert_eq!(msi.get_config().unwrap(), cfg);
}

#[test]
fn invalid_update_changes_nothing() {
    let before = MsiConfig { address: 0xfee0_0000, data: 1 };
    let mut msi = MsiInterrupt::new(before);
    let bad = MsiConfig { address: 0, data: 7 };
    assert_eq!(msi.update(&bad), Err(Error::InvalidConfiguration));
    assert_eq!(msi.get_config().unwrap(), before);
}

#[test]
fn config_roundtrip_law_runs_on_an_msi() {
    let mut msi = MsiInterrupt::new(MsiConfig { address: 0xfee0_0000, data: 1 });
    let cfg = MsiConfig { address: 0xfee0_2000, data: 9 };
    assert_eq!(vm_interrupt::laws::update_then_get_config(&mut msi, &cfg), Ok(cfg));
    let bad = MsiConfig { address: 0, data: 0 };
    assert_eq!(
        vm_interrupt::laws::update_then_get_config(&mut msi, &bad),
        Err(Error::InvalidConfiguration)
    );
    assert_eq!(msi.get_config().unwrap(), cfg);
}

#[test]
fn minimal_implementation_reports_capabilities_absent() {
    let mut edge = EdgeInterrupt::new();
    assert!(edge.notifier().is_none());
    assert!(edge.ack_notifier().is_none());
    assert_eq!(edge.acknowledge(), Err(Error::OperationNotSupported));
    assert_eq!(edge.enable(), Err(Error::OperationNotSupported));
    assert_eq!(edge.disable(), Err(Error::OperationNotSupported));
    assert_eq!(edge.count, 0);
    assert!(edge.trigger().is_ok());
    assert_eq!(edge.count, 1);
}

#[test]
fn capability_probe_law_runs_on_an_edge() {
    let mut edge = EdgeInterrupt::new();
    let (n, an, ack, en, dis) = vm_interrupt::laws::probe_minimal_capabilities(&mut edge);
    assert!(n.is_none());
    assert!(an.is_none());
    assert_eq!(ack, Err(Error::OperationNotSupported));
    assert_eq!(en, Err(Error::OperationNotSupported));
    assert_eq!(dis, Err(Error::OperationNotSupported));
}

#[test]
fn bulk_enable_applies_to_every_source_at_once() {
    let mut g = LineGroup::new();
    assert!(g.allocate_interrupts(4).is_ok());
    // Disabled: no index delivers.
    for i in 0..4 {
        assert_eq!(g.trigger_at(i), Err(Error::InterruptNotTriggered));
    }
    assert!(g.enable().is_ok());
    // Enabled: every index delivers.
    for i in 0..4 {
        assert!(g.trigger_at(i).is_ok());
        assert_eq!(g.get(i).unwrap().count, 1);
    }
    assert!(g.disable().is_ok());
    for i in 0..4 {
        assert_eq!(g.trigger_at(i), Err(Error::InterruptNotTriggered));
        assert_eq!(g.get(i).unwrap().count, 1);
    }
}

#[test]
fn invalid_sizes_are_rejected_and_leave_the_group_empty() {
    let mut g = LineGroup::new();
    assert_eq!(g.allocate_interrupts(0), Err(Error::InvalidConfiguration));
    assert_eq!(g.len(), 0);
    assert_eq!(
        g.allocate_interrupts(MAX_LINES + 1),
        Err(Error::InvalidConfiguration)
    );
    assert_eq!(g.len(), 0);
    assert!(g.allocate_interrupts(MAX_LINES).is_ok());
    assert_eq!(g.len(), MAX_LINES);
}

#[test]
fn single_line_life_cycle() {
    let mut g = LineGroup::new();
    assert!(g.allocate_interrupts(1).is_ok());
    assert!(g.enable().is_ok());
    assert!(g.trigger_at(0).is_ok());
    assert!(g.disable().is_ok());
    assert!(g.free_interrupts().is_ok());
    assert_eq!(g.len(), 0);
    assert!(g.get(0).is_none());
}

#[test]
fn enable_and_disable_need_a_populated_group() {
    let mut g = LineGroup::new();
    assert_eq!(g.enable(), Err(Error::InterruptNotChanged));
    assert_eq!(g.disable(), Err(Error::InterruptNotChanged));
}

#[test]
fn trigger_out_of_range_is_rejected() {
    let mut g = LineGroup::new();
    assert!(g.allocate_interrupts(2).is_ok());
    assert!(g.enable().is_ok());
    assert_eq!(g.trigger_at(2), Err(Error::InterruptNotTriggered));
}

#[test]
fn exhausted_counter_rejects_the_trigger() {
    let mut line = LineInterrupt {
        count: u64::MAX,
        line_masked: false,
        line_pending: false,
    };
    assert_eq!(line.trigger(), Err(Error::InterruptNotTriggered));
    assert_eq!(line.count, u64::MAX);
}

#[test]
fn exhausted_counter_blocks_pending_delivery_on_unmask() {
    let mut line = LineInterrupt {
        count: u64::MAX,
        line_masked: true,
        line_pending: true,
    };
    assert_eq!(line.unmask(), Err(Error::InterruptNotChanged));
    // Unchanged: still masked, still pending.
    assert!(line.line_masked);
    assert!(line.line_pending);
}

#[test]
fn line_and_msi_keep_the_default_notifiers() {
    let line = LineInterrupt::new();
    assert!(line.notifier().is_none());
    assert!(line.ack_notifier().is_none());
    let msi = MsiInterrupt::new(MsiConfig { address: 0xfee0_0000, data: 0 });
    assert!(msi.notifier().is_none());
    assert!(msi.ack_notifier().is_none());
}
