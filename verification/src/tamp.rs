//! The backup-register facade: five ownership-partitioned register handles,
//! handed out only once the backup domain has been unlocked.

use crate::domain::{lemma_backup_domain_wf, BackupDomain, Rcc, Rtc};
use vstd::prelude::*;

verus! {

/// Mathematical model of one backup-register handle: the logical slot it was
/// bound to at construction, and the 32-bit word its register holds.
#[verifier::ext_equal]
pub struct RegisterState {
    pub index: int,
    pub value: u32,
}

/// What a write leaves behind: the same slot, now holding the written word.
pub open spec fn spec_write(r: RegisterState, value: u32) -> RegisterState {
    RegisterState { index: r.index, value }
}

/// What a read returns: the word the slot holds.
pub open spec fn spec_read(r: RegisterState) -> u32 {
    r.value
}

/// One backup register: a single 32-bit battery-backed storage slot.
///
/// Each handle exclusively owns its slot — the facade constructor binds the
/// five handles to the five registers with no overlap — so in this model the
/// handle owns the register's word outright, and no other handle can alias it.
pub struct BackupRegister {
    i: u8,
    word: u32,
}

impl View for BackupRegister {
    type V = RegisterState;

    closed spec fn view(&self) -> RegisterState {
        RegisterState { index: self.i as int, value: self.word }
    }
}

impl BackupRegister {
    /// Store `value` verbatim in this handle's register. Every 32-bit pattern
    /// is valid; nothing outside this handle's slot changes.
    pub fn write(&mut self, value: u32)
        ensures
            final(self)@ == spec_write(old(self)@, value),
    {
        self.word = value;
    }

    /// The current content of this handle's register, verbatim.
    pub fn read(&self) -> (value: u32)
        ensures
            value == spec_read(self@),
    {
        self.word
    }

    /// The logical slot this handle was bound to at construction.
    pub fn index(&self) -> (i: u8)
        ensures
            i as int == self@.index,
    {
        self.i
    }
}

/// The backup-domain facade: proof, at the type level, that the domain has
/// been unlocked before any backup register is handed out.
///
/// Both constructors consume the peripheral block and produce the fixed array
/// of five handles, bound to slots 0 through 4 in that order.
pub struct Tamp {
    pub backup: [BackupRegister; 5],
}

impl Tamp {
    /// The five handles are bound to slots 0 through 4 in fixed order.
    pub open spec fn wf(self) -> bool {
        forall|k: int| 0 <= k < 5 ==> (#[trigger] self.backup@[k])@.index == k
    }

    /// The bank as the handles hold it: word `k` is what the handle in
    /// position `k` would read.
    pub open spec fn bank(self) -> Seq<u32> {
        Seq::new(5, |k: int| self.backup@[k]@.value)
    }

    /// Constrain the backup-domain peripheral.
    ///
    /// Unlocks the backup domain through the clock-control handle, then binds
    /// the five register handles. The registers keep whatever they held. Use
    /// this path when the real-time clock is not used, or is initialized
    /// afterward — but note that initializing the RTC later resets the whole
    /// backup domain, these registers included.
    pub fn new(tamp: BackupDomain, rcc: &mut Rcc) -> (t: Tamp)
        ensures
            t.wf(),
            t.bank() == tamp@.regs,
    {
        proof {
            lemma_backup_domain_wf(&tamp);
        }
        let mut block = tamp;
        rcc.unlock_backup_domain(&mut block);
        let t = Tamp {
            backup: [
                BackupRegister { i: 0, word: block.reg(0) },
                BackupRegister { i: 1, word: block.reg(1) },
                BackupRegister { i: 2, word: block.reg(2) },
                BackupRegister { i: 3, word: block.reg(3) },
                BackupRegister { i: 4, word: block.reg(4) },
            ],
        };
        proof {
            assert(t.bank() =~= tamp@.regs);
        }
        t
    }

    /// Constrain the backup-domain peripheral after RTC initialization.
    ///
    /// The initialized real-time-clock handle is the evidence that the domain
    /// is already unlocked (the RTC's initialization also reset it, clearing
    /// every backup register), so no second unlock is issued. The caller is
    /// responsible for sequencing RTC initialization before this call, so
    /// that register contents written afterward are not clobbered.
    pub fn new_with_rtc(tamp: BackupDomain, rtc: &mut Rtc) -> (t: Tamp)
        requires
            tamp@.unlocked,
        ensures
            t.wf(),
            t.bank() == tamp@.regs,
    {
        let _ = rtc;
        proof {
            lemma_backup_domain_wf(&tamp);
        }
        let t = Tamp {
            backup: [
                BackupRegister { i: 0, word: tamp.reg(0) },
                BackupRegister { i: 1, word: tamp.reg(1) },
                BackupRegister { i: 2, word: tamp.reg(2) },
                BackupRegister { i: 3, word: tamp.reg(3) },
                BackupRegister { i: 4, word: tamp.reg(4) },
            ],
        };
        proof {
            assert(t.bank() =~= tamp@.regs);
        }
        t
    }

    /// Release the peripheral block: the facade and its handles dissolve back
    /// into the hardware block, register `k` holding the word of the handle
    /// in position `k`. The domain stays unlocked.
    pub fn release(self) -> (d: BackupDomain)
        ensures
            d@.unlocked,
            d@.regs == self.bank(),
    {
        let d = BackupDomain::restore(
            self.backup[0].read(),
            self.backup[1].read(),
            self.backup[2].read(),
            self.backup[3].read(),
            self.backup[4].read(),
        );
        proof {
            assert(d@.regs =~= self.bank());
        }
        d
    }
}

/// A write to a handle followed by a read of the same handle returns exactly
/// the written word, for every 32-bit value.
pub proof fn lemma_write_then_read(r: RegisterState, value: u32)
    ensures
        spec_read(spec_write(r, value)) == value,
{
}

/// Register independence: updating one slot of the bank never changes any
/// other slot, and lands the written word in its own slot.
///
/// At run time each handle owns its slot's word outright — a `write` borrows
/// only the one handle, so no other handle's state is even reachable. This
/// lemma states the same fact over the bank model the facade's contracts use.
pub proof fn lemma_register_independence(bank: Seq<u32>, i: int, j: int, value: u32)
    requires
        0 <= i < bank.len(),
        0 <= j < bank.len(),
        i != j,
    ensures
        bank.update(i, value)[j] == bank[j],
        bank.update(i, value)[i] == value,
{
}

} // verus!
