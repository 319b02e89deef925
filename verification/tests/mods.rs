use peace_performance::Mods;

#[test]
fn mods_nomod_sets_nothing() {
    let m: u32 = 0;
    assert!(!m.nf());
    assert!(!m.ez());
    assert!(!m.td());
    assert!(!m.hd());
    assert!(!m.hr());
    assert!(!m.dt());
    assert!(!m.rx());
    assert!(!m.ht());
    assert!(!m.fl());
    assert!(!m.so());
    assert!(!m.ap());
    assert!(!m.v2());
    assert!(!m.change_speed());
    assert!(!m.change_map());
}

#[test]
fn mods_combined_flags() {
    let m: u32 = 8 + 64 + 128;
    assert!(m.hd());
    assert!(m.dt());
    assert!(m.rx());
    assert!(!m.hr());
    assert!(!m.nf());
    assert!(m.change_speed());
    assert!(m.change_map());
}

#[test]
fn mods_each_flag_has_its_own_bit() {
    assert!(1u32.nf());
    assert!(2u32.ez());
    assert!(4u32.td());
    assert!(8u32.hd());
    assert!(16u32.hr());
    assert!(64u32.dt());
    assert!(128u32.rx());
    assert!(256u32.ht());
    assert!(1024u32.fl());
    assert!(4096u32.so());
    assert!(8192u32.ap());
    assert!((1u32 << 29).v2());
}

#[test]
fn mods_speed_and_map_changes() {
    assert!(256u32.change_speed());
    assert!(64u32.change_speed());
    assert!(!16u32.change_speed());

    assert!(16u32.change_map());
    assert!(2u32.change_map());
    assert!(!8u32.change_map());
}
