use backup_domain::{BackupDomain, Rcc, Rtc, Tamp};

#[test]
fn both_construction_paths_yield_five_handles_in_fixed_order() {
    let d = BackupDomain::power_on();
    let mut rcc = Rcc {};
    let t = Tamp::new(d, &mut rcc);
    assert_eq!(t.backup.len(), 5);
    for i in 0..5 {
        assert_eq!(t.backup[i].index(), i as u8);
    }

    let mut d2 = BackupDomain::power_on();
    let mut rtc = Rtc::new(&mut d2);
    let t2 = Tamp::new_with_rtc(d2, &mut rtc);
    assert_eq!(t2.backup.len(), 5);
    for i in 0..5 {
        assert_eq!(t2.backup[i].index(), i as u8);
    }
}

#[test]
fn rtc_initialization_clears_a_previously_written_register() {
    let d = BackupDomain::power_on();
    let mut rcc = Rcc {};
    let mut t = Tamp::new(d, &mut rcc);
    t.backup[4].write(0xCAFEBABE);
    assert_eq!(t.backup[4].read(), 0xCAFEBABE);

    let mut block = t.release();
    let mut rtc = Rtc::new(&mut block);
    let t2 = Tamp::new_with_rtc(block, &mut rtc);
    assert_eq!(t2.backup[4].read(), 0);
}

#[test]
fn unlocking_twice_leaves_register_contents_alone() {
    let d = BackupDomain::power_on();
    let mut rcc = Rcc {};
    let mut t = Tamp::new(d, &mut rcc);
    t.backup[0].write(7);
    t.backup[3].write(0xFFFFFFFF);

    let mut block = t.release();
    rcc.unlock_backup_domain(&mut block);
    rcc.unlock_backup_domain(&mut block);

    let t2 = Tamp::new(block, &mut rcc);
    assert_eq!(t2.backup[0].read(), 7);
    assert_eq!(t2.backup[3].read(), 0xFFFFFFFF);
    assert_eq!(t2.backup[1].read(), 0);
}

#[test]
fn contents_survive_release_and_non_rtc_reconstruction() {
    let d = BackupDomain::power_on();
    let mut rcc = Rcc {};
    let mut t = Tamp::new(d, &mut rcc);
    for i in 0..5 {
        t.backup[i].write(0xB000_0000 + i as u32);
    }
    let block = t.release();
    let t2 = Tamp::new(block, &mut rcc);
    for i in 0..5 {
        assert_eq!(t2.backup[i].read(), 0xB000_0000 + i as u32);
    }
}
