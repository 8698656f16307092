use rpi_kernel::bsp::Board;
use rpi_kernel::exception::{
    exec_with_irq_masked, is_local_irq_masked, local_irq_mask, local_irq_mask_save, local_irq_restore,
    local_irq_unmask, CpuIrqState, IRQNumber,
};
use rpi_kernel::gpio::{GPIORegisters, GpioStep, GPIOInner, GPIO};
use rpi_kernel::state::{KernelPhase, StateManager};
use rpi_kernel::synchronization::{IRQSafeNullLock, InitStateLock, Mutex, ReadWriteEx};
use rpi_kernel::uart::{BlockingMode, PL011Registers, PL011Uart, PL011UartInner};

fn uart_regs(fr: u32, dr: u32) -> PL011Registers {
    PL011Registers { dr, fr, ibrd: 0, fbrd: 0, lcr_h: 0, cr: 0, icr: 0 }
}

#[test]
fn phase_moves_forward() {
    let mut s = StateManager::new();
    assert!(s.is_init());
    s.transition_to_single_core_main();
    assert_eq!(s.phase(), KernelPhase::SingleCoreMain);
    assert!(!s.is_init());
    s.transition_to_multi_core_main();
    assert_eq!(s.phase(), KernelPhase::MultiCoreMain);
}

#[test]
fn irq_mask_save_and_restore() {
    let mut cpu = CpuIrqState::new(0x300);
    assert!(!is_local_irq_masked(&cpu));
    let saved = local_irq_mask_save(&mut cpu);
    assert_eq!(saved, 0x300);
    assert!(is_local_irq_masked(&cpu));
    local_irq_restore(&mut cpu, saved);
    assert_eq!(cpu.daif(), 0x300);
    local_irq_mask(&mut cpu);
    assert_eq!(cpu.daif(), 0x380);
    local_irq_unmask(&mut cpu);
    assert_eq!(cpu.daif(), 0x300);
    let r = exec_with_irq_masked(&mut cpu, || 41 + 1);
    assert_eq!(r, 42);
    assert_eq!(cpu.daif(), 0x300);
}

#[test]
fn init_state_lock_write_then_read() {
    let state = StateManager::new();
    let cpu = CpuIrqState::new(0x80);
    let mut cell = InitStateLock::new(5u32);
    *cell.write(&state, &cpu) += 2;
    assert_eq!(*cell.read(), 7);
    let mut later = StateManager::new();
    later.transition_to_single_core_main();
    assert_eq!(*cell.read(), 7);
}

#[test]
fn irq_safe_lock_restores_mask() {
    let mut cpu = CpuIrqState::new(0);
    let mut cell = IRQSafeNullLock::new(vec![1u8, 2]);
    let len = cell.lock(&mut cpu, |v: &mut Vec<u8>| {
        v.push(3);
        v.len()
    });
    assert_eq!(len, 3);
    assert_eq!(cpu.daif(), 0);
}

#[test]
fn irq_number_bounds() {
    assert_eq!(IRQNumber::<11>::new(11).get(), 11);
    assert_eq!(IRQNumber::<300>::new(0).get(), 0);
}

#[test]
fn gpio_routes_uart_pins_rpi3() {
    let mut g = GPIOInner::new(GPIORegisters { gpfsel1: 0xFFFF_FFFF, gppud: 2, gppudclk0: 5, gpio_pup_pdn_cntrl_reg0: 0 });
    let steps = g.map_pl011_uart(Board::RaspberryPi3);
    let fsel = 0xFFFF_FFFFu32 & !(0o77 << 12) | (0o44 << 12);
    assert_eq!(
        steps,
        vec![
            GpioStep::WriteGpfsel1(fsel),
            GpioStep::WriteGppud(0),
            GpioStep::Delay1us,
            GpioStep::WriteGppudclk0((1 << 14) | (1 << 15)),
            GpioStep::Delay1us,
            GpioStep::WriteGppud(0),
            GpioStep::WriteGppudclk0(0),
        ]
    );
    let regs = g.registers();
    assert_eq!((regs.gpfsel1, regs.gppud, regs.gppudclk0), (fsel, 0, 0));
}

#[test]
fn gpio_routes_uart_pins_rpi4() {
    let mut g = GPIO::new(GPIORegisters { gpfsel1: 0, gppud: 0, gppudclk0: 0, gpio_pup_pdn_cntrl_reg0: 0 });
    let mut cpu = CpuIrqState::new(0);
    let steps = g.map_pl011_uart(&mut cpu, Board::RaspberryPi4);
    assert_eq!(
        steps,
        vec![GpioStep::WriteGpfsel1(0o44 << 12), GpioStep::WritePupPdnCntrl0((1 << 30) | (1 << 28))]
    );
    assert_eq!(g.compatible(), "BCM GPIO");
}

#[test]
fn uart_init_programs_line() {
    let mut u = PL011UartInner::new(uart_regs(0, 0));
    u.init();
    let r = u.registers();
    assert_eq!((r.icr, r.ibrd, r.fbrd, r.lcr_h, r.cr), (0x7FF, 3, 16, 0x70, 0x301));
    let mut wrapped = PL011Uart::new(uart_regs(0, 0));
    let mut cpu = CpuIrqState::new(0);
    assert_eq!(wrapped.init(&mut cpu), Ok(()));
    assert!(wrapped.write_char(&mut cpu, 'x'));
}

#[test]
fn uart_write_waits_for_fifo() {
    let mut u = PL011UartInner::new(uart_regs(0x20, 0));
    assert!(!u.write_char('a'));
    assert_eq!(u.chars_written(), 0);
    u.set_flags(0);
    assert!(u.write_char('a'));
    assert_eq!(u.registers().dr, 'a' as u32);
    assert_eq!(u.chars_written(), 1);
    assert!(!u.flush() || u.registers().fr & 0x08 == 0);
    u.set_flags(0x08);
    assert!(!u.flush());
}

#[test]
fn uart_read_converts_carriage_return() {
    let mut u = PL011UartInner::new(uart_regs(0x10, 13));
    assert_eq!(u.read_char_converting(BlockingMode::NonBlocking), None);
    u.set_flags(0);
    assert_eq!(u.read_char_converting(BlockingMode::Blocking), Some('\n'));
    u.set_data(0x141);
    assert_eq!(u.read_char_converting(BlockingMode::NonBlocking), Some('A'));
    assert_eq!(u.chars_read(), 2);
}

use rpi_kernel::time::{GenericTimer, SpinDecision};

#[test]
fn timer_resolution_and_uptime() {
    let t = GenericTimer::new(62_500_000, 125_000_000);
    assert_eq!(t.resolution(), 16);
    assert_eq!(t.uptime(), 2_000_000_000);
    let mut late = GenericTimer::new(1, u64::MAX);
    assert_eq!(late.uptime(), (u64::MAX as u128) * 1_000_000_000);
    late.read_cntpct(3);
    assert_eq!(late.uptime(), 3_000_000_000);
}

#[test]
fn timer_spin_decisions() {
    let t = GenericTimer::new(62_500_000, 0);
    assert_eq!(t.spin_for(0), SpinDecision::Done);
    assert_eq!(t.spin_for(1), SpinDecision::Smaller);
    assert_eq!(t.spin_for(1_000), SpinDecision::Wait(62));
    assert_eq!(t.spin_for(1_000_000_000), SpinDecision::Wait(62_500_000));
    assert_eq!(t.spin_for(100 * 1_000_000_000), SpinDecision::Bigger);
    assert_eq!(t.spin_for(u64::MAX as u128), SpinDecision::TooLong);
    assert_eq!(t.spin_for(u128::MAX), SpinDecision::TooLong);
}

use rpi_kernel::boot::{prepare_el2_to_el1_transiton, El2Write};
use rpi_kernel::console::{QEMUOutput, QEMUOutputInner};

#[test]
fn el2_to_el1_register_values() {
    let w = prepare_el2_to_el1_transiton(0x8_1000, 0x8_0000);
    assert_eq!(
        w,
        vec![
            El2Write::Cnthctl(0b11),
            El2Write::Cntvoff(0),
            El2Write::Hcr(1 << 31),
            El2Write::Spsr(0x3C5),
            El2Write::Elr(0x8_1000),
            El2Write::SpEl1(0x8_0000),
        ]
    );
}

#[test]
fn console_inserts_carriage_returns() {
    let mut c = QEMUOutputInner::new();
    assert_eq!(c.write_str("ab\nc"), vec![b'a', b'b', 13, 10, b'c']);
    assert_eq!(c.chars_written(), 5);
    assert_eq!(c.write_char('z'), b'z');
    assert_eq!(c.chars_written(), 6);
    let mut q = QEMUOutput::new();
    let mut cpu = CpuIrqState::new(0x80);
    assert_eq!(q.write_str(&mut cpu, "\n"), vec![13, 10]);
    assert_eq!(q.chars_written(&mut cpu), 2);
    assert_eq!(cpu.daif(), 0x80);
}
