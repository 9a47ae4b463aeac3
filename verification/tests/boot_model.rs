use bootstrap::entry::{start, step, Action, BootPhase, BusOp, DeviceScript, Event};
use bootstrap::mem::{copy_region, words_for_bytes, zero_region, WORD_BYTES};
use bootstrap::registers::{RegisterFile, CLEARED_REG_COUNT};
use bootstrap::sequencer::{reset_sequence, MemoryLayout};
use bootstrap::step::Step;

fn garbage_registers() -> RegisterFile {
    let gprs: Vec<u32> = (0..CLEARED_REG_COUNT as u32).map(|i| 0xDEAD_0000 | i).collect();
    RegisterFile::at_reset(0x1111_1111, 0x2222_2222, 0x3333_3333, gprs)
}

#[test]
fn word_size_conversion() {
    assert_eq!(WORD_BYTES, 4);
    assert_eq!(words_for_bytes(0), 0);
    assert_eq!(words_for_bytes(16), 4);
}

#[test]
fn zero_fill_clears_exactly_the_region() {
    let mut mem: Vec<u32> = vec![7, 7, 7, 7, 7, 7];
    let mut trace: Vec<Step> = Vec::new();
    zero_region(&mut mem, 1, 4, &mut trace);
    assert_eq!(mem, vec![7, 0, 0, 0, 7, 7]);
    assert_eq!(
        trace,
        vec![
            Step::ZeroWord { dst: 1 },
            Step::ZeroWord { dst: 2 },
            Step::ZeroWord { dst: 3 },
        ]
    );
}

#[test]
fn zero_fill_empty_region_is_a_no_op() {
    let mut mem: Vec<u32> = vec![9, 9, 9];
    let mut trace: Vec<Step> = Vec::new();
    zero_region(&mut mem, 2, 2, &mut trace);
    assert_eq!(mem, vec![9, 9, 9]);
    assert!(trace.is_empty());
}

#[test]
fn zero_fill_twice_equals_once() {
    let mut once: Vec<u32> = vec![5, 5, 5, 5];
    let mut twice = once.clone();
    let mut trace: Vec<Step> = Vec::new();
    zero_region(&mut once, 0, 3, &mut trace);
    zero_region(&mut twice, 0, 3, &mut trace);
    zero_region(&mut twice, 0, 3, &mut trace);
    assert_eq!(once, twice);
}

#[test]
fn copy_relocates_every_word() {
    // Load region at words 0..3, run region at words 3..6.
    let mut mem: Vec<u32> = vec![10, 20, 30, 0, 0, 0];
    let mut trace: Vec<Step> = Vec::new();
    copy_region(&mut mem, 0, 3, 6, &mut trace);
    assert_eq!(mem, vec![10, 20, 30, 10, 20, 30]);
    assert_eq!(
        trace,
        vec![
            Step::CopyWord { src: 0, dst: 3 },
            Step::CopyWord { src: 1, dst: 4 },
            Step::CopyWord { src: 2, dst: 5 },
        ]
    );
}

#[test]
fn copy_empty_region_copies_nothing() {
    let mut mem: Vec<u32> = vec![1, 2, 3];
    let mut trace: Vec<Step> = Vec::new();
    copy_region(&mut mem, 0, 2, 2, &mut trace);
    assert_eq!(mem, vec![1, 2, 3]);
    assert!(trace.is_empty());
}

#[test]
fn reset_sequence_orders_its_stages() {
    let mut mem: Vec<u32> = vec![10, 20, 0xAA, 0xBB, 0xCC, 0xDD];
    let mut regs = garbage_registers();
    let layout = MemoryLayout {
        data_load: 0,
        data_run: 2,
        data_end: 4,
        bss_begin: 4,
        bss_end: 6,
        stack_top: 0x8000_0000,
        global_anchor: 0x1800,
    };
    let trace = reset_sequence(&mut mem, &mut regs, &layout);

    assert_eq!(trace[0], Step::SetGlobalPointer);
    assert_eq!(trace[1], Step::SetStackPointer);
    assert_eq!(trace[2], Step::MirrorFramePointer);
    assert_eq!(trace[3], Step::CopyWord { src: 0, dst: 2 });
    assert_eq!(trace[4], Step::CopyWord { src: 1, dst: 3 });
    assert_eq!(trace[5], Step::ZeroWord { dst: 4 });
    assert_eq!(trace[6], Step::ZeroWord { dst: 5 });
    for (i, step) in trace[7..7 + CLEARED_REG_COUNT].iter().enumerate() {
        assert_eq!(*step, Step::ClearRegister { index: i });
    }
    assert_eq!(*trace.last().unwrap(), Step::TransferControl);
    assert_eq!(trace.len(), 3 + 2 + 2 + CLEARED_REG_COUNT + 1);

    // The stack pointer is assigned before the control transfer, and no step
    // in between touches it.
    let sp_at = trace.iter().position(|s| *s == Step::SetStackPointer).unwrap();
    let jump_at = trace.iter().position(|s| *s == Step::TransferControl).unwrap();
    assert!(sp_at < jump_at);

    // Run region now mirrors the load region; the rest of the image is as the
    // stages leave it.
    assert_eq!(mem, vec![10, 20, 10, 20, 0, 0]);
}

#[test]
fn reset_sequence_clears_registers_and_sets_pointers() {
    let mut mem: Vec<u32> = vec![0; 4];
    let mut regs = garbage_registers();
    let layout = MemoryLayout {
        data_load: 0,
        data_run: 0,
        data_end: 0,
        bss_begin: 0,
        bss_end: 0,
        stack_top: 0x4000,
        global_anchor: 0x900,
    };
    reset_sequence(&mut mem, &mut regs, &layout);
    assert_eq!(regs.gp, 0x900);
    assert_eq!(regs.sp, 0x4000);
    assert_eq!(regs.fp, 0x4000);
    assert_eq!(regs.gprs.len(), CLEARED_REG_COUNT);
    assert!(regs.gprs.iter().all(|r| *r == 0));
}

#[test]
fn empty_data_and_sixteen_byte_bss() {
    // Region sizes data = 0, bss = 16 bytes: the copy stage performs zero
    // iterations, the zero-fill performs four word stores, and every other
    // stage is unaffected.
    let bss_words = words_for_bytes(16);
    let mut mem: Vec<u32> = vec![0xFFFF_FFFF; 8];
    let mut regs = garbage_registers();
    let layout = MemoryLayout {
        data_load: 0,
        data_run: 4,
        data_end: 4,
        bss_begin: 0,
        bss_end: bss_words,
        stack_top: 0x8000,
        global_anchor: 0x100,
    };
    let trace = reset_sequence(&mut mem, &mut regs, &layout);

    let copies = trace.iter().filter(|s| matches!(s, Step::CopyWord { .. })).count();
    let zero_stores = trace.iter().filter(|s| matches!(s, Step::ZeroWord { .. })).count();
    let clears = trace.iter().filter(|s| matches!(s, Step::ClearRegister { .. })).count();
    assert_eq!(copies, 0);
    assert_eq!(zero_stores, 4);
    assert_eq!(clears, CLEARED_REG_COUNT);
    assert_eq!(trace[0], Step::SetGlobalPointer);
    assert_eq!(trace[1], Step::SetStackPointer);
    assert_eq!(trace[2], Step::MirrorFramePointer);
    assert_eq!(*trace.last().unwrap(), Step::TransferControl);

    assert_eq!(&mem[0..4], &[0, 0, 0, 0]);
    assert_eq!(&mem[4..8], &[0xFFFF_FFFF; 4]);
}

#[test]
fn step_polls_until_nonzero_status() {
    assert_eq!(
        step(BootPhase::Polling, Event::Status { value: 0 }),
        (BootPhase::Polling, Action::ReadStatus)
    );
    assert_eq!(
        step(BootPhase::Polling, Event::Status { value: 3 }),
        (BootPhase::Fetching, Action::ReadStatus)
    );
    assert_eq!(
        step(BootPhase::Fetching, Event::Status { value: 0x1234 }),
        (
            BootPhase::Writing { byte: 0x34 },
            Action::WriteData { byte: 0x34 }
        )
    );
    assert_eq!(
        step(BootPhase::Writing { byte: 0x34 }, Event::Done),
        (BootPhase::Halted, Action::Idle)
    );
}

#[test]
fn step_never_leaves_the_halt() {
    assert_eq!(
        step(BootPhase::Halted, Event::Status { value: 0xFFFF }),
        (BootPhase::Halted, Action::Idle)
    );
    assert_eq!(
        step(BootPhase::Halted, Event::Done),
        (BootPhase::Halted, Action::Idle)
    );
}

#[test]
fn unexpected_event_halts() {
    assert_eq!(
        step(BootPhase::Polling, Event::Done),
        (BootPhase::Halted, Action::Idle)
    );
    assert_eq!(
        step(BootPhase::Fetching, Event::Done),
        (BootPhase::Halted, Action::Idle)
    );
}

#[test]
fn panic_reaches_the_halt_from_any_phase() {
    assert_eq!(bootstrap::entry::panic(BootPhase::Polling), BootPhase::Halted);
    assert_eq!(
        bootstrap::entry::panic(BootPhase::Writing { byte: 1 }),
        BootPhase::Halted
    );
    assert_eq!(bootstrap::entry::panic(BootPhase::Halted), BootPhase::Halted);
}

#[test]
fn write_follows_fourth_poll() {
    // Status sequence 0, 0, 0, 1: exactly one write, after the fourth poll.
    let dev = DeviceScript::new(vec![0, 0, 0, 1], 9);
    let (trace, phase) = start(&dev);
    assert_eq!(phase, BootPhase::Halted);
    let polls: Vec<u16> = trace
        .iter()
        .filter_map(|op| match op {
            BusOp::StatusRead { value } => Some(*value),
            BusOp::DataWrite { .. } => None,
        })
        .collect();
    assert_eq!(polls[0..4], [0, 0, 0, 1]);
    let writes: Vec<usize> = trace
        .iter()
        .enumerate()
        .filter(|(_, op)| matches!(op, BusOp::DataWrite { .. }))
        .map(|(i, _)| i)
        .collect();
    assert_eq!(writes.len(), 1);
    assert!(writes[0] > 3);
}

#[test]
fn zero_status_never_triggers_a_write() {
    let dev = DeviceScript::new(vec![0, 0], 1);
    let (trace, _) = start(&dev);
    for (i, op) in trace.iter().enumerate() {
        if matches!(op, BusOp::DataWrite { .. }) {
            assert!(trace[..i]
                .iter()
                .any(|p| matches!(p, BusOp::StatusRead { value } if *value != 0)));
        }
    }
}

#[test]
fn three_zero_polls_then_fixed_byte() {
    // Status reads 0, 0, 1 and a fixed 0x5A thereafter: three polls, the
    // fetch read, one write of byte 0x5A, then the halt, forever.
    let dev = DeviceScript::new(vec![0, 0, 1], 0x5A);
    let (trace, phase) = start(&dev);
    assert_eq!(
        trace,
        vec![
            BusOp::StatusRead { value: 0 },
            BusOp::StatusRead { value: 0 },
            BusOp::StatusRead { value: 1 },
            BusOp::StatusRead { value: 0x5A },
            BusOp::DataWrite { byte: 0x5A },
        ]
    );
    assert_eq!(phase, BootPhase::Halted);
    // Once halted, further events change nothing and ask for no access.
    assert_eq!(
        step(phase, Event::Status { value: 7 }),
        (BootPhase::Halted, Action::Idle)
    );
}

#[test]
fn immediate_ready_status() {
    let dev = DeviceScript::new(vec![], 0x00FF);
    let (trace, phase) = start(&dev);
    assert_eq!(
        trace,
        vec![
            BusOp::StatusRead { value: 0x00FF },
            BusOp::StatusRead { value: 0x00FF },
            BusOp::DataWrite { byte: 0xFF },
        ]
    );
    assert_eq!(phase, BootPhase::Halted);
}

#[test]
fn boot_runs_reset_then_entry_then_halts() {
    let mut mem: Vec<u32> = vec![0xAB, 0, 0, 0];
    let mut regs = garbage_registers();
    let layout = MemoryLayout {
        data_load: 0,
        data_run: 1,
        data_end: 2,
        bss_begin: 2,
        bss_end: 4,
        stack_top: 0x1000,
        global_anchor: 0x200,
    };
    let dev = DeviceScript::new(vec![0, 2], 0x41);
    let (steps, bus, phase) = bootstrap::boot::boot(&mut mem, &mut regs, &layout, &dev);
    assert_eq!(mem, vec![0xAB, 0xAB, 0, 0]);
    assert!(regs.gprs.iter().all(|r| *r == 0));
    assert_eq!(*steps.last().unwrap(), Step::TransferControl);
    assert_eq!(
        bus,
        vec![
            BusOp::StatusRead { value: 0 },
            BusOp::StatusRead { value: 2 },
            BusOp::StatusRead { value: 0x41 },
            BusOp::DataWrite { byte: 0x41 },
        ]
    );
    assert_eq!(phase, BootPhase::Halted);
}
