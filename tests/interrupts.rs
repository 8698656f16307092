use rpi_kernel::bcm_ic::{
    InterruptController, IRQNumber as BcmIRQNumber, PendingIRQs, PeripheralIC, PeripheralIRQ,
    RORegisters, WORegisters,
};
use rpi_kernel::exception::{
    CpuIrqState, IRQContext, IRQDescriptor, IRQManager, IRQNumber, ERR_ALREADY_REGISTERED,
};
use rpi_kernel::gicc::{GICCRegisters, GICC};
use rpi_kernel::gicd::{shared_enable_reg_index, BankedRegisters, SharedRegisters, GICD};
use rpi_kernel::gicv2::GICv2;
use rpi_kernel::state::StateManager;

fn masked_cpu() -> CpuIrqState {
    CpuIrqState::new(0x3C0)
}

fn descriptor(name: &'static str, handler: usize) -> IRQDescriptor {
    IRQDescriptor { name, handler }
}

fn gic(iar: u32) -> GICv2 {
    let shared = SharedRegisters {
        ctlr: 0,
        typer: 0b0_0011,
        isenabler: vec![0; 31],
        itargetsr: vec![0; 248],
    };
    let banked = BankedRegisters { isenabler: 0, itargetsr: vec![0x0000_0002, 0, 0, 0, 0, 0, 0, 0] };
    let gicc = GICC::new(GICCRegisters { ctlr: 0, pmr: 0, iar, eoir: 0 });
    GICv2::new(GICD::new(shared, banked), gicc)
}

#[test]
fn pending_iterator_yields_set_bits_in_order() {
    let mut p = PendingIRQs::new(0b1010);
    assert_eq!(p.next(), Some(1));
    assert_eq!(p.next(), Some(3));
    assert_eq!(p.next(), None);
    assert_eq!(p.next(), None);
}

#[test]
fn pending_iterator_highest_bit() {
    let mut p = PendingIRQs::new(1u64 << 63);
    assert_eq!(p.next(), Some(63));
    assert_eq!(p.next(), None);
}

#[test]
fn pending_iterator_empty() {
    let mut p = PendingIRQs::new(0);
    assert_eq!(p.next(), None);
}

#[test]
fn shared_enable_index_arithmetic() {
    assert_eq!(shared_enable_reg_index(32), 0);
    assert_eq!(shared_enable_reg_index(63), 0);
    assert_eq!(shared_enable_reg_index(64), 1);
    assert_eq!(shared_enable_reg_index(300), 8);
}

#[test]
fn gic_register_twice_keeps_first() {
    let mut g = gic(0);
    let state = StateManager::new();
    let cpu = masked_cpu();
    let irq = IRQNumber::<300>::new(33);
    assert_eq!(g.register_handler(&state, &cpu, irq, descriptor("first", 1)), Ok(()));
    assert_eq!(g.register_handler(&state, &cpu, irq, descriptor("second", 2)), Err(ERR_ALREADY_REGISTERED));
    assert_eq!(g.print_handler(), vec![(33usize, "first")]);
}

#[test]
fn gic_enable_private_and_shared() {
    let mut g = gic(0);
    let mut cpu = masked_cpu();
    g.enable(&mut cpu, IRQNumber::<300>::new(5));
    assert_eq!(g.gicd().banked_registers().isenabler, 1 << 5);
    g.enable(&mut cpu, IRQNumber::<300>::new(63));
    g.enable(&mut cpu, IRQNumber::<300>::new(64));
    let mut d = GICD::new(
        SharedRegisters { ctlr: 0, typer: 3, isenabler: vec![0; 31], itargetsr: vec![0; 248] },
        BankedRegisters { isenabler: 0, itargetsr: vec![0; 8] },
    );
    d.enable(&mut cpu, IRQNumber::<300>::new(63));
    d.enable(&mut cpu, IRQNumber::<300>::new(64));
    d.enable(&mut cpu, IRQNumber::<300>::new(32));
    assert_eq!(d.shared_isenabler(&mut cpu, 0), 0x8000_0001);
    assert_eq!(d.shared_isenabler(&mut cpu, 1), 1);
    assert_eq!(cpu.daif(), 0x3C0);
}

#[test]
fn gic_dispatch_and_complete() {
    let mut g = gic(40);
    let state = StateManager::new();
    let cpu = masked_cpu();
    g.register_handler(&state, &cpu, IRQNumber::<300>::new(40), descriptor("timer", 7)).unwrap();
    let ic = IRQContext::new();
    let handlers = g.handle_pending_irqs(&ic);
    assert_eq!(handlers.len(), 1);
    assert_eq!(handlers[0].handler, 7);
    assert_eq!(g.gicc_registers().eoir, 40);
}

#[test]
fn gic_spurious_interrupt_is_ignored() {
    let mut g = gic(1023);
    let ic = IRQContext::new();
    assert!(g.handle_pending_irqs(&ic).is_empty());
    assert_eq!(g.gicc_registers().eoir, 0);
}

#[test]
fn gic_boot_core_init_routes_to_self() {
    let mut g = gic(0);
    let state = StateManager::new();
    let mut cpu = masked_cpu();
    assert_eq!(g.init(0, &state, &mut cpu), Ok(()));
    let regs = g.gicc_registers();
    assert_eq!(regs.pmr, 255);
    assert_eq!(regs.ctlr, 1);
    let mut d = GICD::new(
        SharedRegisters { ctlr: 0, typer: 3, isenabler: vec![0; 31], itargetsr: vec![0; 248] },
        BankedRegisters { isenabler: 0, itargetsr: vec![0x0101_0102, 0, 0, 0, 0, 0, 0, 0] },
    );
    d.boot_core_init(&state, &mut cpu);
    // typer 3: 128 IRQs, so 24 shared target registers.
    assert_eq!(d.shared_itargetsr(&mut cpu, 0), 0x0202_0202);
    assert_eq!(d.shared_itargetsr(&mut cpu, 23), 0x0202_0202);
    assert_eq!(d.shared_itargetsr(&mut cpu, 24), 0);
    assert_eq!(d.shared_ctlr(&mut cpu), 1);
}

fn bcm(low: u32, high: u32) -> PeripheralIC {
    PeripheralIC::new(
        WORegisters { enable_1: 0, enable_2: 0 },
        RORegisters { pending_1: low, pending_2: high },
    )
}

#[test]
fn bcm_register_twice_keeps_first() {
    let mut ic = InterruptController::new(bcm(0, 0));
    let state = StateManager::new();
    let cpu = masked_cpu();
    let irq = BcmIRQNumber::Peripheral(PeripheralIRQ::new(57));
    assert_eq!(ic.register_handler(&state, &cpu, irq, descriptor("uart", 3)), Ok(()));
    assert_eq!(ic.register_handler(&state, &cpu, irq, descriptor("other", 4)), Err(ERR_ALREADY_REGISTERED));
    assert_eq!(ic.print_handler(), vec![(57usize, "uart")]);
}

#[test]
fn bcm_dispatch_in_ascending_order() {
    let mut p = bcm(0b1010, 1);
    let state = StateManager::new();
    let cpu = masked_cpu();
    p.register_handler(&state, &cpu, PeripheralIRQ::new(1), descriptor("one", 1)).unwrap();
    p.register_handler(&state, &cpu, PeripheralIRQ::new(3), descriptor("three", 3)).unwrap();
    p.register_handler(&state, &cpu, PeripheralIRQ::new(32), descriptor("high", 32)).unwrap();
    let ic = IRQContext::new();
    let order: Vec<usize> = p.handle_pending_irqs(&ic).iter().map(|d| d.handler).collect();
    assert_eq!(order, vec![1, 3, 32]);
}

#[test]
fn bcm_enable_writes_single_bit() {
    let mut p = bcm(0, 0);
    let mut cpu = masked_cpu();
    p.enable(&mut cpu, PeripheralIRQ::new(3));
    p.enable(&mut cpu, PeripheralIRQ::new(57));
    let wo = p.wo_registers(&mut cpu);
    assert_eq!(wo.enable_1, 1 << 3);
    assert_eq!(wo.enable_2, 1 << 25);
}

#[test]
fn gic_pending_number_ignores_cpu_id_bits() {
    let mut g = gic(0x1C28);
    let state = StateManager::new();
    let cpu = masked_cpu();
    g.register_handler(&state, &cpu, IRQNumber::<300>::new(40), descriptor("timer", 7)).unwrap();
    let ic = IRQContext::new();
    let handlers = g.handle_pending_irqs(&ic);
    assert_eq!(handlers.len(), 1);
    assert_eq!(g.gicc_registers().eoir, 40);
    assert_eq!(g.registered(40).map(|d| d.handler), Some(7));
    assert!(g.registered(41).is_none());
    assert!(g.registered(5000).is_none());
}

#[test]
fn gic_implemented_lines_come_from_type_register() {
    let state = StateManager::new();
    let mut cpu = masked_cpu();
    let mut d = GICD::new(
        SharedRegisters { ctlr: 0, typer: 0xFFFF_FC01, isenabler: vec![0; 31], itargetsr: vec![7; 248] },
        BankedRegisters { isenabler: 0, itargetsr: vec![0xAAAA_AA01, 0, 0, 0, 0, 0, 0, 0] },
    );
    assert_eq!(d.local_gic_target_mask(), 1);
    d.boot_core_init(&state, &mut cpu);
    // lines field 1: 64 IRQs, so 8 shared target registers.
    assert_eq!(d.shared_itargetsr(&mut cpu, 7), 0x0101_0101);
    assert_eq!(d.shared_itargetsr(&mut cpu, 8), 7);
}
