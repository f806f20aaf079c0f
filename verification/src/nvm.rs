//! The non-volatile memory controller.
//!
//! The controller programs and erases the flash. What it reports, the
//! caller reads from the device and hands in as [`Status`] and [`IntFlag`];
//! what is to be done, the operations append to the [`Bus`]. A write is laid
//! out in one go. An erase goes block by block, because the faults of each
//! block are looked at before the next one is touched.
use core::ops::Range;
use vstd::prelude::*;
use crate::bus::{Bus, Op};
use crate::pac::NVMCTRL;

verus! {

/// Size of a page in bytes.
pub const PAGESIZE: u32 = 512;

/// Size of the internal flash memory.
pub const FLASHSIZE: u32 = 1024 * 1024;

/// Size of one bank, which is also the offset of the second bank from the
/// start of the memory.
pub const BANKSIZE: u32 = FLASHSIZE / 2;

/// Size of one block.
pub const BLOCKSIZE: u32 = 512 * 16;

/// The size of one word, the unit in which the flash is written.
pub const WORDSIZE: u32 = 4;

/// How the controller saves power.
#[derive(Clone, Copy, Debug, PartialEq, Eq)]
pub enum PRM_A {
    /// The flash sleeps when the device does and wakes at the first access.
    SEMIAUTO,
    /// The flash sleeps when the device does and wakes with it.
    FULLAUTO,
    /// The flash sleeps and wakes on command.
    MANUAL,
}

/// A command of the controller.
#[derive(Clone, Copy, Debug, PartialEq, Eq)]
pub enum Command {
    /// Erase page.
    EP,
    /// Erase block.
    EB,
    /// Write page.
    WP,
    /// Page buffer clear.
    PBC,
    /// Bank swap and system reset.
    BKSWRST,
    /// Set the boot protection disable bit.
    SBPDIS,
    /// Clear the boot protection disable bit.
    CBPDIS,
}

/// One transaction with the memory controller.
#[derive(Clone, Copy, Debug, PartialEq, Eq)]
pub enum NvmOp {
    /// Have the controller choose its wait states by itself.
    AutoWaitStates,
    /// Write the number of wait states.
    WaitStates(u8),
    /// Write the power reduction mode.
    PowerReduction(PRM_A),
    /// Write the address register.
    Address(u32),
    /// Write the command register: the command, with the key that lets it
    /// run.
    Command(Command),
    /// Wait until the controller is ready.
    WaitReady,
    /// Wait until the done flag is set.
    WaitDone,
    /// Clear the done flag.
    ClearDone,
    /// Clear the programming error flag.
    ClearProgrammingError,
    /// Clear the lock error flag.
    ClearLockError,
    /// Store one word into the page buffer, through the flash's own
    /// address.
    WriteWord { addr: u32, value: u32 },
}

/// What the status register holds.
pub struct Status {
    ready: bool,
    bpdis: bool,
    afirst: bool,
    bootprot: u8,
}

impl Status {
    #[verifier::type_invariant]
    spec fn inv(self) -> bool {
        self.bootprot <= 15
    }

    /// Whether the controller is ready for a command.
    pub closed spec fn ready(self) -> bool {
        self.ready
    }

    /// Whether the boot protection is switched off.
    pub closed spec fn bpdis(self) -> bool {
        self.bpdis
    }

    /// Whether bank A is mapped first.
    pub closed spec fn afirst(self) -> bool {
        self.afirst
    }

    /// The boot protection field: fifteen less the number of protected
    /// blocks.
    pub closed spec fn bootprot(self) -> u8 {
        self.bootprot
    }

    /// The status with the given fields. The boot protection field has four
    /// bits.
    pub fn new(ready: bool, bpdis: bool, afirst: bool, bootprot: u8) -> (r: Self)
        requires
            bootprot <= 15,
        ensures
            r.ready() == ready,
            r.bpdis() == bpdis,
            r.afirst() == afirst,
            r.bootprot() == bootprot,
    {
        Status { ready, bpdis, afirst, bootprot }
    }
}

/// What the interrupt flag register holds.
#[derive(Clone, Copy, Debug, PartialEq, Eq)]
pub struct IntFlag {
    /// The last command is done.
    pub done: bool,
    /// A programming error has happened.
    pub proge: bool,
    /// A locked region was written to.
    pub locke: bool,
}

/// Errors generated by the NVM peripheral.
#[derive(Debug, PartialEq, Eq)]
pub enum PeripheralError {
    /// NVM error.
    NvmError,
    /// Single ECC error.
    EccSingleError,
    /// Dual ECC error.
    EccDualError,
    /// Locked error.
    LockError,
    /// Programming error.
    ProgrammingError,
    /// Address error.
    AddressError,
}

/// Driver errors.
#[derive(Debug, PartialEq, Eq)]
pub enum Error {
    /// Target sector is protected.
    Protected,
    /// The boot protection is already in the state asked for.
    AlreadyBootProtected,
    /// Errors generated by hardware.
    Peripheral(PeripheralError),
    /// An alignment requirement was not fulfilled.
    Alignment,
}

/// Physical flash banks.
#[derive(PartialEq, Debug)]
pub enum PhysicalBank {
    /// Flash bank A.
    A,
    /// Flash bank B.
    B,
}

/// Flash banks identified by which one we boot from.
#[derive(PartialEq, Debug)]
pub enum Bank {
    /// Bank that is mapped to 0x0000_0000.
    Active,
    /// Bank that is not mapped to 0x0000_0000.
    Inactive,
}

impl Bank {
    /// The address of the bank.
    pub open spec fn address_spec(&self) -> u32 {
        match self {
            Bank::Active => 0,
            Bank::Inactive => BANKSIZE,
        }
    }

    /// Provides the address of the bank.
    pub fn address(&self) -> (r: u32)
        ensures
            r == self.address_spec(),
    {
        match self {
            Bank::Active => 0,
            Bank::Inactive => BANKSIZE,
        }
    }
}

/// NVM result type.
pub type Result<T> = core::result::Result<T, Error>;

/// Data erased per command.
#[derive(Copy, Clone, Debug)]
pub enum EraseGranularity {
    /// One block. This erase type is supported by main memory.
    Block,
    /// One page. This erase type is supported for the AUX memory.
    Page,
}

impl EraseGranularity {
    /// The command that erases one unit.
    pub open spec fn command_spec(&self) -> Command {
        match self {
            EraseGranularity::Block => Command::EB,
            EraseGranularity::Page => Command::EP,
        }
    }

    /// The size of one unit in bytes.
    pub open spec fn size_spec(&self) -> u32 {
        match self {
            EraseGranularity::Block => BLOCKSIZE,
            EraseGranularity::Page => PAGESIZE,
        }
    }

    /// The command that erases one unit.
    pub fn command(&self) -> (r: Command)
        ensures
            r == self.command_spec(),
    {
        match self {
            EraseGranularity::Block => Command::EB,
            EraseGranularity::Page => Command::EP,
        }
    }

    /// The size of one unit in bytes.
    pub fn size(&self) -> (r: u32)
        ensures
            r == self.size_spec(),
            r == 512 || r == 8192,
    {
        match self {
            EraseGranularity::Block => BLOCKSIZE,
            EraseGranularity::Page => PAGESIZE,
        }
    }
}

//==============================================================================
// Ranges
//==============================================================================
/// Whether the ranges `a` and `b` are taken to overlap: neither is empty,
/// and neither starts after the other's end.
pub open spec fn overlaps(a: Range<u32>, b: Range<u32>) -> bool {
    a.start != a.end && b.start != b.end && a.start <= b.end && b.start <= a.end
}

/// Whether the ranges `a` and `b` are taken to overlap. Ranges that only
/// touch count as overlapping.
pub fn range_overlap(a: &Range<u32>, b: &Range<u32>) -> (r: bool)
    ensures
        r == overlaps(*a, *b),
{
    a.start != a.end && b.start != b.end && a.start <= b.end && b.start <= a.end
}

/// Two ranges that share an address are taken to overlap.
pub proof fn lemma_shared_address_overlaps(a: Range<u32>, b: Range<u32>, p: u32)
    requires
        a.start <= p < a.end,
        b.start <= p < b.end,
    ensures
        overlaps(a, b),
{
}

/// The number of bytes at the start of the active bank that the boot
/// protection field `bootprot` protects: 8 KiB for each step below fifteen.
pub open spec fn protected_size(bootprot: u8) -> nat {
    (BLOCKSIZE * (15 - bootprot)) as nat
}

/// Whether the range `inp` touches what the boot protection covers.
pub open spec fn protected(inp: Range<u32>, status: Status) -> bool {
    !status.bpdis() && overlaps(
        inp,
        Range { start: 0u32, end: protected_size(status.bootprot()) as u32 },
    )
}

//==============================================================================
// Transactions of a write and of an erase
//==============================================================================
/// The transactions that run a command and wait for it.
pub open spec fn command_sync_ops(command: Command) -> Seq<Op> {
    seq![
        Op::Nvm(NvmOp::Command(command)),
        Op::Nvm(NvmOp::WaitDone),
        Op::Nvm(NvmOp::ClearDone),
    ]
}

/// Whether the word at `addr` is the last of its page.
pub open spec fn ends_page(addr: nat) -> bool {
    addr % (PAGESIZE as nat) >= (PAGESIZE - WORDSIZE) as nat
}

/// The transactions that write one word: the word goes into the page
/// buffer, and the buffer goes to the flash where the word is the last of
/// its page.
pub open spec fn word_ops(addr: nat, value: u32) -> Seq<Op> {
    seq![Op::Nvm(NvmOp::WriteWord { addr: addr as u32, value })] + (if ends_page(addr) {
        seq![Op::Nvm(NvmOp::WaitReady)] + command_sync_ops(Command::WP)
    } else {
        Seq::<Op>::empty()
    })
}

/// The transactions that write the words `data` from `address` on.
pub open spec fn words_ops(address: nat, data: Seq<u32>) -> Seq<Op>
    decreases data.len(),
{
    if data.len() == 0 {
        Seq::<Op>::empty()
    } else {
        words_ops(address, data.drop_last()) + word_ops(
            address + WORDSIZE as nat * (data.len() - 1) as nat,
            data.last(),
        )
    }
}

/// Whether, after the words `data` from `address` on, the page buffer holds
/// words that have not gone to the flash.
pub open spec fn dirty_after(address: nat, data: Seq<u32>) -> bool {
    data.len() > 0 && !ends_page(address + WORDSIZE as nat * (data.len() - 1) as nat)
}

/// The transactions of a whole write.
pub open spec fn write_ops(address: nat, data: Seq<u32>) -> Seq<Op> {
    seq![Op::Nvm(NvmOp::WaitReady)] + command_sync_ops(Command::PBC) + words_ops(address, data)
        + seq![Op::Nvm(NvmOp::WaitReady)] + (if dirty_after(address, data) {
        command_sync_ops(Command::WP)
    } else {
        Seq::<Op>::empty()
    })
}

/// The transactions that erase the unit at `address`.
pub open spec fn erase_unit_ops(address: u32, granularity: EraseGranularity) -> Seq<Op> {
    seq![Op::Nvm(NvmOp::Address(address & 0x00ff_ffff)), Op::Nvm(NvmOp::WaitReady)]
        + command_sync_ops(granularity.command_spec())
}

/// The transactions that clear the fault flags.
pub open spec fn clear_fault_ops() -> Seq<Op> {
    seq![
        Op::Nvm(NvmOp::ClearProgrammingError),
        Op::Nvm(NvmOp::ClearProgrammingError),
        Op::Nvm(NvmOp::ClearLockError),
    ]
}

/// An erase that is under way: the units from `next` up to `end` are still
/// to be erased.
pub struct Erase {
    next: u32,
    end: u32,
    granularity: EraseGranularity,
}

impl Erase {
    #[verifier::type_invariant]
    spec fn inv(self) -> bool {
        &&& self.next <= self.end
        &&& (self.end - self.next) % (self.granularity.size_spec() as int) == 0
    }

    /// The address of the next unit.
    pub closed spec fn next(self) -> u32 {
        self.next
    }

    /// The address behind the last unit.
    pub closed spec fn end(self) -> u32 {
        self.end
    }

    /// The unit of the erase.
    pub closed spec fn granularity(self) -> EraseGranularity {
        self.granularity
    }

    /// Whether every unit has been erased.
    pub fn is_done(&self) -> (r: bool)
        ensures
            r == (self.next() == self.end()),
    {
        self.next == self.end
    }

    /// Erases the next unit, if one is left, and says whether one was. The
    /// faults of the unit are then to be looked at with
    /// [`Nvm::check_faults`] before the erase goes on.
    pub fn step(&mut self, bus: &mut Bus) -> (r: bool)
        ensures
            r == (old(self).next() != old(self).end()),
            final(self).end() == old(self).end(),
            final(self).granularity() == old(self).granularity(),
            r ==> final(self).next() == old(self).next() + old(self).granularity().size_spec(),
            r ==> final(bus)@ == old(bus)@ + erase_unit_ops(
                old(self).next(),
                old(self).granularity(),
            ),
            !r ==> final(self).next() == old(self).next() && final(bus)@ == old(bus)@,
    {
        proof {
            use_type_invariant(&*self);
        }
        if self.next == self.end {
            return false;
        }
        let address = self.next;
        let size = self.granularity.size();
        set_address(address, bus);
        bus.push(Op::Nvm(NvmOp::WaitReady));
        command_sync(self.granularity.command(), bus);
        assert(bus@ =~= old(bus)@ + erase_unit_ops(address, self.granularity));
        assert(self.end - address >= size) by {
            let d = (self.end - address) as int;
            let s = size as int;
            assert(d > 0 && d % s == 0 ==> d >= s) by (nonlinear_arith)
                requires
                    s > 0,
            ;
        }
        assert((self.end - (address + size)) % (size as int) == 0) by {
            let d = (self.end - address) as int;
            let s = size as int;
            assert(d % s == 0 && d >= s ==> (d - s) % s == 0) by (nonlinear_arith)
                requires
                    s > 0,
            ;
        }
        self.next = address + size;
        true
    }
}

/// Sets the address that the next command works on. The register holds
/// twenty-four bits.
fn set_address(address: u32, bus: &mut Bus)
    ensures
        final(bus)@ == old(bus)@.push(Op::Nvm(NvmOp::Address(address & 0x00ff_ffff))),
{
    bus.push(Op::Nvm(NvmOp::Address(address & 0x00ff_ffff)));
}

/// Runs a command.
fn command(command: Command, bus: &mut Bus)
    ensures
        final(bus)@ == old(bus)@.push(Op::Nvm(NvmOp::Command(command))),
{
    bus.push(Op::Nvm(NvmOp::Command(command)));
}

/// Runs a command and waits for it.
fn command_sync(command: Command, bus: &mut Bus)
    ensures
        final(bus)@ == old(bus)@ + command_sync_ops(command),
{
    self::command(command, bus);
    bus.push(Op::Nvm(NvmOp::WaitDone));
    bus.push(Op::Nvm(NvmOp::ClearDone));
    assert(bus@ =~= old(bus)@ + command_sync_ops(command));
}

//==============================================================================
// Nvm
//==============================================================================
/// Non-volatile memory controller.
pub struct Nvm {
    nvm: NVMCTRL,
}

impl Nvm {
    /// Create a new NVM controller.
    pub fn new(nvm: NVMCTRL) -> Self {
        Self { nvm }
    }

    /// Swaps the flash banks. The device resets with the command, and the
    /// inactive bank becomes the active one.
    pub fn bank_swap(&mut self, bus: &mut Bus)
        ensures
            final(bus)@ == old(bus)@ + command_sync_ops(Command::BKSWRST),
    {
        command_sync(Command::BKSWRST, bus);
    }

    /// Configures the number of wait states.
    pub fn wait_state(&mut self, ws: u8, bus: &mut Bus)
        requires
            ws < 16,
        ensures
            final(bus)@ == old(bus)@.push(Op::Nvm(NvmOp::WaitStates(ws))),
    {
        bus.push(Op::Nvm(NvmOp::WaitStates(ws)));
    }

    /// Set the power reduction mode.
    pub fn power_reduction_mode(&mut self, prm: PRM_A, bus: &mut Bus)
        ensures
            final(bus)@ == old(bus)@.push(Op::Nvm(NvmOp::PowerReduction(prm))),
    {
        bus.push(Op::Nvm(NvmOp::PowerReduction(prm)));
    }

    /// Check if the flash is boot protected.
    pub fn is_boot_protected(&self, status: &Status) -> (r: bool)
        ensures
            r == !status.bpdis(),
    {
        !status.bpdis
    }

    /// Get first bank.
    pub fn first_bank(&self, status: &Status) -> (r: PhysicalBank)
        ensures
            r == (if status.afirst() {
                PhysicalBank::A
            } else {
                PhysicalBank::B
            }),
    {
        if status.afirst {
            PhysicalBank::A
        } else {
            PhysicalBank::B
        }
    }

    /// Determine if the controller is busy writing or erasing.
    pub fn is_ready(&self, status: &Status) -> (r: bool)
        ensures
            r == status.ready(),
    {
        status.ready
    }

    /// Check if flash command done.
    pub fn command_done(&self, intflag: &IntFlag) -> (r: bool)
        ensures
            r == intflag.done,
    {
        intflag.done
    }

    /// Check if there was a programming fault; if there was, clear its
    /// flag.
    pub fn programming_error(&self, intflag: &IntFlag, bus: &mut Bus) -> (r: Result<()>)
        ensures
            intflag.proge ==> r == Err::<(), Error>(
                Error::Peripheral(PeripheralError::ProgrammingError),
            ) && final(bus)@ == old(bus)@.push(Op::Nvm(NvmOp::ClearProgrammingError)),
            !intflag.proge ==> r == Ok::<(), Error>(()) && final(bus)@ == old(bus)@,
    {
        if intflag.proge {
            bus.push(Op::Nvm(NvmOp::ClearProgrammingError));
            Err(Error::Peripheral(PeripheralError::ProgrammingError))
        } else {
            Ok(())
        }
    }

    /// Clear the programming error flag.
    fn programming_error_clear(&self, bus: &mut Bus) -> (r: Result<()>)
        ensures
            r == Ok::<(), Error>(()),
            final(bus)@ == old(bus)@.push(Op::Nvm(NvmOp::ClearProgrammingError)),
    {
        bus.push(Op::Nvm(NvmOp::ClearProgrammingError));
        Ok(())
    }

    /// Check if there was a section lock fault.
    pub fn lock_error(&self, intflag: &IntFlag) -> (r: Result<()>)
        ensures
            r == (if intflag.locke {
                Err::<(), Error>(Error::Peripheral(PeripheralError::LockError))
            } else {
                Ok::<(), Error>(())
            }),
    {
        if intflag.locke {
            Err(Error::Peripheral(PeripheralError::LockError))
        } else {
            Ok(())
        }
    }

    /// Clear the lock error flag.
    fn lock_error_clear(&self, bus: &mut Bus) -> (r: Result<()>)
        ensures
            r == Ok::<(), Error>(()),
            final(bus)@ == old(bus)@.push(Op::Nvm(NvmOp::ClearLockError)),
    {
        bus.push(Op::Nvm(NvmOp::ClearLockError));
        Ok(())
    }

    /// Looks at the faults of what was just written or erased. Without a
    /// programming error all is well. With one, its flag is cleared; then a
    /// lock error is reported as such, and otherwise both flags are cleared
    /// and the programming error is reported.
    pub fn check_faults(&self, intflag: &IntFlag, bus: &mut Bus) -> (r: Result<()>)
        ensures
            !intflag.proge ==> r == Ok::<(), Error>(()) && final(bus)@ == old(bus)@,
            intflag.proge && intflag.locke ==> r == Err::<(), Error>(
                Error::Peripheral(PeripheralError::LockError),
            ) && final(bus)@ == old(bus)@.push(Op::Nvm(NvmOp::ClearProgrammingError)),
            intflag.proge && !intflag.locke ==> r == Err::<(), Error>(
                Error::Peripheral(PeripheralError::ProgrammingError),
            ) && final(bus)@ == old(bus)@ + clear_fault_ops(),
    {
        match self.programming_error(intflag, bus) {
            Err(e) => {
                match self.lock_error(intflag) {
                    Err(lock) => {
                        return Err(lock);
                    },
                    Ok(()) => {},
                }
                let _ = self.programming_error_clear(bus);
                let _ = self.lock_error_clear(bus);
                assert(bus@ =~= old(bus)@ + clear_fault_ops());
                Err(e)
            },
            Ok(()) => Ok(()),
        }
    }

    /// Turn boot protection on/off. Where the protection is already as
    /// asked for, that is an error. Otherwise the command is laid out, and
    /// its faults are then to be looked at with
    /// [`programming_error`](Nvm::programming_error).
    pub fn boot_protection(&mut self, protect: bool, status: &Status, bus: &mut Bus) -> (r: Result<
        (),
    >)
        ensures
            status.bpdis() != protect ==> r == Err::<(), Error>(Error::AlreadyBootProtected)
                && final(bus)@ == old(bus)@,
            status.bpdis() == protect ==> r == Ok::<(), Error>(()) && final(bus)@ == old(bus)@
                + seq![Op::Nvm(NvmOp::WaitReady)] + command_sync_ops(
                if protect {
                    Command::CBPDIS
                } else {
                    Command::SBPDIS
                },
            ),
    {
        if self.is_boot_protected(status) != protect {
            bus.push(Op::Nvm(NvmOp::WaitReady));
            if !protect {
                command_sync(Command::SBPDIS, bus);
            } else {
                command_sync(Command::CBPDIS, bus);
            }
            Ok(())
        } else {
            Err(Error::AlreadyBootProtected)
        }
    }

    /// Writes `data` to the bank, from the word-aligned offset `offset` (in
    /// bytes) on.
    pub fn flash_write(
        &mut self,
        bank: &Bank,
        offset: u32,
        data: &[u32],
        status: &Status,
        bus: &mut Bus,
    ) -> (r: Result<()>)
        requires
            bank.address_spec() + offset + WORDSIZE * data@.len() <= u32::MAX,
        ensures
            write_result(
                (bank.address_spec() + offset) as u32,
                data@,
                *status,
                r,
                old(bus)@,
                final(bus)@,
            ),
    {
        let address = bank.address() + offset;
        self.write(address, data, status, bus)
    }

    /// Write to flash memory. If `address` is not word-aligned, an error is
    /// returned; so it is if the words touch what the boot protection
    /// covers. Otherwise the whole write is laid out, and its faults are
    /// then to be looked at with [`check_faults`](Nvm::check_faults).
    pub fn write(&mut self, address: u32, data: &[u32], status: &Status, bus: &mut Bus) -> (r:
        Result<()>)
        requires
            address + WORDSIZE * data@.len() <= u32::MAX,
        ensures
            write_result(address, data@, *status, r, old(bus)@, final(bus)@),
    {
        let step_size: u32 = WORDSIZE;
        let length: u32 = data.len() as u32 * step_size;
        let write_addrs = address..(address + length);
        if address % step_size != 0 {
            return Err(Error::Alignment);
        }
        if self.contains_bootprotected(&write_addrs, status) {
            Err(Error::Protected)
        } else {
            bus.push(Op::Nvm(NvmOp::WaitReady));
            command_sync(Command::PBC, bus);
            let ghost head = bus@;
            assert(head =~= old(bus)@ + seq![Op::Nvm(NvmOp::WaitReady)] + command_sync_ops(
                Command::PBC,
            ));
            let mut dirty = false;
            let mut counter: usize = 0;
            while counter < data.len()
                invariant
                    counter <= data@.len(),
                    step_size == WORDSIZE,
                    address + WORDSIZE * data@.len() <= u32::MAX,
                    bus@ == head + words_ops(address as nat, data@.take(counter as int)),
                    dirty == dirty_after(address as nat, data@.take(counter as int)),
                decreases data@.len() - counter,
            {
                let addr: u32 = address + (counter as u32) * step_size;
                let ghost before = bus@;
                bus.push(Op::Nvm(NvmOp::WriteWord { addr, value: data[counter] }));
                dirty = true;
                if addr % PAGESIZE >= PAGESIZE - step_size {
                    bus.push(Op::Nvm(NvmOp::WaitReady));
                    dirty = false;
                    command_sync(Command::WP, bus);
                }
                proof {
                    let taken = data@.take(counter + 1);
                    assert(taken.drop_last() =~= data@.take(counter as int));
                    assert(taken.last() == data@[counter as int]);
                    assert(bus@ =~= before + word_ops(addr as nat, data@[counter as int]));
                    assert(bus@ =~= head + words_ops(address as nat, taken));
                }
                counter += 1;
            }
            assert(data@.take(counter as int) =~= data@);
            bus.push(Op::Nvm(NvmOp::WaitReady));
            if dirty {
                command_sync(Command::WP, bus);
            }
            assert(bus@ =~= old(bus)@ + write_ops(address as nat, data@));
            Ok(())
        }
    }

    /// Erase pages in the auxiliary space (user page, calibration page,
    /// factory and signature page). Page erase is not supported for main
    /// memory.
    pub fn erase_aux_page(&mut self, address: u32, num_pages: u32, status: &Status) -> (r: Result<
        Erase,
    >)
        requires
            address + num_pages * PAGESIZE <= u32::MAX,
        ensures
            erase_result(address, num_pages, EraseGranularity::Page, *status, r),
    {
        self.erase(address, num_pages, EraseGranularity::Page, status)
    }

    /// Erase blocks of main memory. `address` is the address *within* the
    /// bank.
    pub fn erase_block(&mut self, bank: &Bank, address: u32, num_blocks: u32, status: &Status) -> (r:
        Result<Erase>)
        requires
            bank.address_spec() + address + num_blocks * BLOCKSIZE <= u32::MAX,
        ensures
            erase_result(
                (bank.address_spec() + address) as u32,
                num_blocks,
                EraseGranularity::Block,
                *status,
                r,
            ),
    {
        let address = bank.address() + address;
        self.erase(address, num_blocks, EraseGranularity::Block, status)
    }

    /// Starts an erase of `length` units from the unit that holds
    /// `address`. If the units touch what the boot protection covers, that
    /// is an error. Otherwise the erase is ready to go, unit by unit.
    pub fn erase(
        &mut self,
        address: u32,
        length: u32,
        granularity: EraseGranularity,
        status: &Status,
    ) -> (r: Result<Erase>)
        requires
            address + length * granularity.size_spec() <= u32::MAX,
        ensures
            erase_result(address, length, granularity, *status, r),
    {
        let size = granularity.size();
        assert(address % size <= address) by (nonlinear_arith)
            requires
                size > 0,
        ;
        let flash_address = address - address % size;
        assert(length * size <= u32::MAX - address) by (nonlinear_arith)
            requires
                address + length * size <= u32::MAX,
        ;
        let bytes = length * size;
        let range_to_erase = flash_address..(flash_address + bytes);
        if self.contains_bootprotected(&range_to_erase, status) {
            Err(Error::Protected)
        } else {
            assert((length * size) % (size as int) == 0) by (nonlinear_arith)
                requires
                    size > 0,
            ;
            Ok(Erase { next: flash_address, end: flash_address + bytes, granularity })
        }
    }

    /// Whether the range `inp` touches what the boot protection covers.
    pub fn contains_bootprotected(&self, inp: &Range<u32>, status: &Status) -> (r: bool)
        ensures
            r == protected(*inp, *status),
    {
        proof {
            use_type_invariant(status);
        }
        let bootprot = status.bootprot;
        let bp_space: u32 = 8 * 1024 * (15 - bootprot) as u32;
        let boot = (Bank::Active.address())..(Bank::Active.address() + bp_space);
        self.is_boot_protected(status) && range_overlap(inp, &boot)
    }
}

/// What a write answers and lays out.
pub open spec fn write_result(
    address: u32,
    data: Seq<u32>,
    status: Status,
    r: Result<()>,
    before: Seq<Op>,
    after: Seq<Op>,
) -> bool {
    if address % WORDSIZE != 0 {
        r == Err::<(), Error>(Error::Alignment) && after == before
    } else if protected(
        Range { start: address, end: (address + WORDSIZE * data.len()) as u32 },
        status,
    ) {
        r == Err::<(), Error>(Error::Protected) && after == before
    } else {
        r == Ok::<(), Error>(()) && after == before + write_ops(address as nat, data)
    }
}

/// The first address of the unit that holds `address`.
pub open spec fn unit_start(address: u32, granularity: EraseGranularity) -> u32 {
    (address - address % granularity.size_spec()) as u32
}

/// What the start of an erase answers.
pub open spec fn erase_result(
    address: u32,
    length: u32,
    granularity: EraseGranularity,
    status: Status,
    r: Result<Erase>,
) -> bool {
    let start = unit_start(address, granularity);
    let end = (start + length * granularity.size_spec()) as u32;
    if protected(Range { start, end }, status) {
        r == Err::<Erase, Error>(Error::Protected)
    } else {
        &&& r is Ok
        &&& r->Ok_0.next() == start
        &&& r->Ok_0.end() == end
        &&& r->Ok_0.granularity() == granularity
    }
}

} // verus!
