use clock_tree::bus::{Bus, Op};
use clock_tree::nvm::{
    range_overlap, Bank, Command, Error, EraseGranularity, IntFlag, Nvm, NvmOp, PeripheralError,
    PhysicalBank, Status, BANKSIZE, BLOCKSIZE, FLASHSIZE, PAGESIZE, PRM_A,
};
use clock_tree::pac::NVMCTRL;

fn nvm() -> Nvm {
    Nvm::new(NVMCTRL::take())
}

fn unprotected() -> Status {
    Status::new(true, true, true, 15)
}

fn sync(command: Command) -> Vec<Op> {
    vec![Op::Nvm(NvmOp::Command(command)), Op::Nvm(NvmOp::WaitDone), Op::Nvm(NvmOp::ClearDone)]
}

const FLAGS_CLEAR: IntFlag = IntFlag { done: true, proge: false, locke: false };

#[test]
fn sizes() {
    assert_eq!(PAGESIZE, 512);
    assert_eq!(FLASHSIZE, 1_048_576);
    assert_eq!(BANKSIZE, 524_288);
    assert_eq!(BLOCKSIZE, 8_192);
    assert_eq!(Bank::Active.address(), 0);
    assert_eq!(Bank::Inactive.address(), 0x8_0000);
    assert_eq!(EraseGranularity::Block.size(), 8_192);
    assert_eq!(EraseGranularity::Page.size(), 512);
    assert_eq!(EraseGranularity::Block.command(), Command::EB);
    assert_eq!(EraseGranularity::Page.command(), Command::EP);
}

#[test]
fn status_is_read_as_given() {
    let nvm = nvm();
    let status = Status::new(false, false, false, 0);
    assert!(nvm.is_boot_protected(&status));
    assert!(!nvm.is_ready(&status));
    assert_eq!(nvm.first_bank(&status), PhysicalBank::B);
    let status = Status::new(true, true, true, 15);
    assert!(!nvm.is_boot_protected(&status));
    assert!(nvm.is_ready(&status));
    assert_eq!(nvm.first_bank(&status), PhysicalBank::A);
}

#[test]
fn ranges_overlap() {
    assert!(range_overlap(&(0..10), &(5..15)));
    assert!(range_overlap(&(5..15), &(0..10)));
    assert!(range_overlap(&(0..10), &(10..20)));
    assert!(!range_overlap(&(0..10), &(11..20)));
    assert!(!range_overlap(&(0..0), &(0..20)));
    assert!(!range_overlap(&(0..20), &(7..7)));
    assert!(range_overlap(&(3..4), &(0..100)));
}

#[test]
fn boot_protection_covers_the_start_of_the_flash() {
    let nvm = nvm();
    let two_blocks = Status::new(true, false, true, 13);
    assert!(nvm.contains_bootprotected(&(0..4), &two_blocks));
    assert!(nvm.contains_bootprotected(&(16_380..16_384), &two_blocks));
    assert!(nvm.contains_bootprotected(&(16_384..16_388), &two_blocks));
    assert!(!nvm.contains_bootprotected(&(16_385..16_389), &two_blocks));
    let none = Status::new(true, false, true, 15);
    assert!(!nvm.contains_bootprotected(&(0..4), &none));
    let all = Status::new(true, false, true, 0);
    assert!(nvm.contains_bootprotected(&(122_880..122_884), &all));
    assert!(!nvm.contains_bootprotected(&(122_881..122_885), &all));
    let switched_off = Status::new(true, true, true, 0);
    assert!(!nvm.contains_bootprotected(&(0..4), &switched_off));
}

#[test]
fn write_lays_out_every_word() {
    let mut nvm = nvm();
    let mut bus = Bus::new();
    let r = nvm.write(0x2_0000, &[7, 8, 9], &unprotected(), &mut bus);
    assert_eq!(r, Ok(()));
    let mut expected = vec![Op::Nvm(NvmOp::WaitReady)];
    expected.extend(sync(Command::PBC));
    expected.push(Op::Nvm(NvmOp::WriteWord { addr: 0x2_0000, value: 7 }));
    expected.push(Op::Nvm(NvmOp::WriteWord { addr: 0x2_0004, value: 8 }));
    expected.push(Op::Nvm(NvmOp::WriteWord { addr: 0x2_0008, value: 9 }));
    expected.push(Op::Nvm(NvmOp::WaitReady));
    expected.extend(sync(Command::WP));
    assert_eq!(bus.ops(), &expected);
}

#[test]
fn write_flushes_at_the_end_of_a_page() {
    let mut nvm = nvm();
    let mut bus = Bus::new();
    let r = nvm.write(0x2_01F8, &[1, 2, 3], &unprotected(), &mut bus);
    assert_eq!(r, Ok(()));
    let mut expected = vec![Op::Nvm(NvmOp::WaitReady)];
    expected.extend(sync(Command::PBC));
    expected.push(Op::Nvm(NvmOp::WriteWord { addr: 0x2_01F8, value: 1 }));
    expected.push(Op::Nvm(NvmOp::WriteWord { addr: 0x2_01FC, value: 2 }));
    expected.push(Op::Nvm(NvmOp::WaitReady));
    expected.extend(sync(Command::WP));
    expected.push(Op::Nvm(NvmOp::WriteWord { addr: 0x2_0200, value: 3 }));
    expected.push(Op::Nvm(NvmOp::WaitReady));
    expected.extend(sync(Command::WP));
    assert_eq!(bus.ops(), &expected);
}

#[test]
fn write_that_ends_with_its_page_is_not_flushed_twice() {
    let mut nvm = nvm();
    let mut bus = Bus::new();
    let r = nvm.write(0x2_01FC, &[5], &unprotected(), &mut bus);
    assert_eq!(r, Ok(()));
    let mut expected = vec![Op::Nvm(NvmOp::WaitReady)];
    expected.extend(sync(Command::PBC));
    expected.push(Op::Nvm(NvmOp::WriteWord { addr: 0x2_01FC, value: 5 }));
    expected.push(Op::Nvm(NvmOp::WaitReady));
    expected.extend(sync(Command::WP));
    expected.push(Op::Nvm(NvmOp::WaitReady));
    assert_eq!(bus.ops(), &expected);
}

#[test]
fn write_of_nothing() {
    let mut nvm = nvm();
    let mut bus = Bus::new();
    assert_eq!(nvm.write(0x100, &[], &unprotected(), &mut bus), Ok(()));
    let mut expected = vec![Op::Nvm(NvmOp::WaitReady)];
    expected.extend(sync(Command::PBC));
    expected.push(Op::Nvm(NvmOp::WaitReady));
    assert_eq!(bus.ops(), &expected);
}

#[test]
fn write_errors() {
    let mut nvm = nvm();
    let mut bus = Bus::new();
    assert_eq!(nvm.write(0x2_0002, &[1], &unprotected(), &mut bus), Err(Error::Alignment));
    let protected = Status::new(true, false, true, 14);
    assert_eq!(nvm.write(0x1000, &[1], &protected, &mut bus), Err(Error::Protected));
    assert_eq!(
        nvm.flash_write(&Bank::Active, 0x2000, &[1], &protected, &mut bus),
        Err(Error::Protected)
    );
    assert_eq!(bus.len(), 0);
    assert_eq!(nvm.flash_write(&Bank::Inactive, 0x2000, &[1], &protected, &mut bus), Ok(()));
    assert_eq!(bus.ops()[4], Op::Nvm(NvmOp::WriteWord { addr: 0x8_2000, value: 1 }));
}

#[test]
fn faults_after_a_command() {
    let nvm = nvm();
    let mut bus = Bus::new();
    assert_eq!(nvm.check_faults(&FLAGS_CLEAR, &mut bus), Ok(()));
    assert_eq!(nvm.programming_error(&FLAGS_CLEAR, &mut bus), Ok(()));
    assert_eq!(nvm.lock_error(&FLAGS_CLEAR), Ok(()));
    assert_eq!(bus.len(), 0);
    let programming = IntFlag { done: true, proge: true, locke: false };
    assert_eq!(
        nvm.check_faults(&programming, &mut bus),
        Err(Error::Peripheral(PeripheralError::ProgrammingError))
    );
    assert_eq!(
        bus.take(),
        vec![
            Op::Nvm(NvmOp::ClearProgrammingError),
            Op::Nvm(NvmOp::ClearProgrammingError),
            Op::Nvm(NvmOp::ClearLockError),
        ]
    );
    let both = IntFlag { done: true, proge: true, locke: true };
    assert_eq!(
        nvm.check_faults(&both, &mut bus),
        Err(Error::Peripheral(PeripheralError::LockError))
    );
    assert_eq!(bus.take(), vec![Op::Nvm(NvmOp::ClearProgrammingError)]);
    let lock_only = IntFlag { done: true, proge: false, locke: true };
    assert_eq!(nvm.check_faults(&lock_only, &mut bus), Ok(()));
    assert_eq!(
        nvm.lock_error(&lock_only),
        Err(Error::Peripheral(PeripheralError::LockError))
    );
}

#[test]
fn erase_goes_block_by_block() {
    let mut nvm = nvm();
    let mut bus = Bus::new();
    let mut erase =
        nvm.erase_block(&Bank::Inactive, 0x2100, 2, &unprotected()).expect("not protected");
    assert!(!erase.is_done());
    assert!(erase.step(&mut bus));
    let mut expected =
        vec![Op::Nvm(NvmOp::Address(0x8_2000)), Op::Nvm(NvmOp::WaitReady)];
    expected.extend(sync(Command::EB));
    assert_eq!(bus.take(), expected);
    assert!(erase.step(&mut bus));
    assert_eq!(bus.ops()[0], Op::Nvm(NvmOp::Address(0x8_4000)));
    assert!(erase.is_done());
    bus.take();
    assert!(!erase.step(&mut bus));
    assert_eq!(bus.len(), 0);
}

#[test]
fn erase_of_pages() {
    let mut nvm = nvm();
    let mut bus = Bus::new();
    let mut erase = nvm.erase_aux_page(0x80_4010, 1, &unprotected()).expect("not protected");
    assert!(erase.step(&mut bus));
    let mut expected =
        vec![Op::Nvm(NvmOp::Address(0x80_4000)), Op::Nvm(NvmOp::WaitReady)];
    expected.extend(sync(Command::EP));
    assert_eq!(bus.ops(), &expected);
    assert!(erase.is_done());
    let nothing = nvm.erase(0x1000, 0, EraseGranularity::Page, &unprotected()).expect("empty");
    assert!(nothing.is_done());
}

#[test]
fn erase_of_protected_blocks_is_refused() {
    let mut nvm = nvm();
    let protected = Status::new(true, false, true, 14);
    assert!(matches!(
        nvm.erase_block(&Bank::Active, 0, 1, &protected),
        Err(Error::Protected)
    ));
    assert!(matches!(
        nvm.erase(0x2000, 1, EraseGranularity::Block, &protected),
        Err(Error::Protected)
    ));
    assert!(nvm.erase(0x4000, 1, EraseGranularity::Block, &protected).is_ok());
}

#[test]
fn boot_protection_switch() {
    let mut nvm = nvm();
    let mut bus = Bus::new();
    let protected = Status::new(true, false, true, 14);
    assert_eq!(
        nvm.boot_protection(true, &protected, &mut bus),
        Err(Error::AlreadyBootProtected)
    );
    assert_eq!(bus.len(), 0);
    assert_eq!(nvm.boot_protection(false, &protected, &mut bus), Ok(()));
    let mut expected = vec![Op::Nvm(NvmOp::WaitReady)];
    expected.extend(sync(Command::SBPDIS));
    assert_eq!(bus.take(), expected);
    assert_eq!(nvm.boot_protection(true, &unprotected(), &mut bus), Ok(()));
    assert_eq!(bus.ops()[1], Op::Nvm(NvmOp::Command(Command::CBPDIS)));
}

#[test]
fn controller_settings() {
    let mut nvm = nvm();
    let mut bus = Bus::new();
    nvm.wait_state(5, &mut bus);
    nvm.power_reduction_mode(PRM_A::MANUAL, &mut bus);
    nvm.bank_swap(&mut bus);
    let mut expected =
        vec![Op::Nvm(NvmOp::WaitStates(5)), Op::Nvm(NvmOp::PowerReduction(PRM_A::MANUAL))];
    expected.extend(sync(Command::BKSWRST));
    assert_eq!(bus.ops(), &expected);
}
