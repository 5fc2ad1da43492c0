//! The simulated backup-domain hardware block and the two peripherals that can
//! unlock it: the clock-control unit and the real-time clock.

use vstd::prelude::*;

verus! {

/// Mathematical model of the backup domain's hardware state: whether access to
/// the domain is ungated, and the contents of the five backup registers.
#[verifier::ext_equal]
pub struct DomainState {
    pub unlocked: bool,
    pub regs: Seq<u32>,
}

impl DomainState {
    /// The domain always holds exactly five backup registers.
    pub open spec fn wf(self) -> bool {
        self.regs.len() == 5
    }
}

/// The domain's state right after power-on: locked, every register zero.
pub open spec fn power_on_state() -> DomainState {
    DomainState { unlocked: false, regs: seq![0u32, 0u32, 0u32, 0u32, 0u32] }
}

/// The unlock primitive as a state transformer: it ungates access to the
/// domain and leaves every register's content untouched.
pub open spec fn spec_unlock(s: DomainState) -> DomainState {
    DomainState { unlocked: true, regs: s.regs }
}

/// The domain reset performed by real-time-clock initialization: the domain
/// comes out unlocked, but every register is cleared back to zero.
pub open spec fn spec_reset(s: DomainState) -> DomainState {
    DomainState { unlocked: true, regs: seq![0u32, 0u32, 0u32, 0u32, 0u32] }
}

/// The simulated backup-domain hardware block.
///
/// A value of this type stands for exclusive access to the whole peripheral
/// block: the take-once acquisition that produces it is enforced by an
/// external peripheral-ownership mechanism and is not modeled here. The five
/// register cells mirror the five physical backup registers.
pub struct BackupDomain {
    unlocked: bool,
    bkp0r: u32,
    bkp1r: u32,
    bkp2r: u32,
    bkp3r: u32,
    bkp4r: u32,
}

impl View for BackupDomain {
    type V = DomainState;

    closed spec fn view(&self) -> DomainState {
        DomainState {
            unlocked: self.unlocked,
            regs: seq![self.bkp0r, self.bkp1r, self.bkp2r, self.bkp3r, self.bkp4r],
        }
    }
}

/// Every value of the simulated block holds exactly five registers.
pub proof fn lemma_backup_domain_wf(d: &BackupDomain)
    ensures
        d@.wf(),
{
}

impl BackupDomain {
    /// The hardware block as it comes out of power-on: domain locked, all five
    /// backup registers reading zero.
    pub fn power_on() -> (d: BackupDomain)
        ensures
            d@ == power_on_state(),
    {
        BackupDomain { unlocked: false, bkp0r: 0, bkp1r: 0, bkp2r: 0, bkp3r: 0, bkp4r: 0 }
    }

    /// Content of register `i`, read straight out of the simulated cells.
    pub(crate) fn reg(&self, i: u8) -> (v: u32)
        requires
            i < 5,
        ensures
            v == self@.regs[i as int],
    {
        match i {
            0 => self.bkp0r,
            1 => self.bkp1r,
            2 => self.bkp2r,
            3 => self.bkp3r,
            _ => self.bkp4r,
        }
    }

    /// Reassemble an unlocked block from five register words.
    pub(crate) fn restore(w0: u32, w1: u32, w2: u32, w3: u32, w4: u32) -> (d: BackupDomain)
        ensures
            d@ == (DomainState { unlocked: true, regs: seq![w0, w1, w2, w3, w4] }),
    {
        BackupDomain { unlocked: true, bkp0r: w0, bkp1r: w1, bkp2r: w2, bkp3r: w3, bkp4r: w4 }
    }

    /// Ungate access to the domain, leaving register contents alone.
    pub(crate) fn unlock(&mut self)
        ensures
            final(self)@ == spec_unlock(old(self)@),
    {
        self.unlocked = true;
    }

    /// Reset the whole domain to its power-on contents, leaving it unlocked.
    pub(crate) fn reset(&mut self)
        ensures
            final(self)@ == spec_reset(old(self)@),
    {
        self.unlocked = true;
        self.bkp0r = 0;
        self.bkp1r = 0;
        self.bkp2r = 0;
        self.bkp3r = 0;
        self.bkp4r = 0;
    }
}

/// Handle on the clock-control unit, the domain-unlock provider.
///
/// Only the single operation the backup domain needs is exposed; the rest of
/// the clock-control peripheral is an external collaborator.
pub struct Rcc {}

impl Rcc {
    /// Unlock the backup domain: idempotent, and never changes what the
    /// backup registers hold.
    pub fn unlock_backup_domain(&mut self, domain: &mut BackupDomain)
        ensures
            final(domain)@ == spec_unlock(old(domain)@),
    {
        domain.unlock();
    }
}

/// Unlocking is idempotent: a second unlock leaves the domain exactly where
/// the first left it, and neither touches register contents.
pub proof fn lemma_unlock_idempotent(s: DomainState)
    ensures
        spec_unlock(spec_unlock(s)) == spec_unlock(s),
        spec_unlock(s).regs == s.regs,
{
}

/// Handle on an initialized real-time clock.
///
/// Holding a value of this type is evidence that RTC initialization has run,
/// and with it the domain unlock — and the domain reset that comes with it.
/// The rest of the RTC peripheral is an external collaborator.
pub struct Rtc {
    _initialized: (),
}

impl Rtc {
    /// Initialize the real-time clock.
    ///
    /// As a documented hardware side effect this unlocks the backup domain
    /// and resets it whole: every backup register is cleared to zero. A
    /// caller who needs both the RTC and backup-register persistence must
    /// initialize the RTC before writing the registers.
    pub fn new(domain: &mut BackupDomain) -> (rtc: Rtc)
        ensures
            final(domain)@ == spec_reset(old(domain)@),
    {
        domain.reset();
        Rtc { _initialized: () }
    }
}

} // verus!
