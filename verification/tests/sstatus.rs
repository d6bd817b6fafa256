use os::{Spp, Sstatus};

#[test]
fn no_bit_set() {
    let status = Sstatus(0);
    assert!(!status.is_interrupt_enabled());
    assert!(!status.is_interrupt_enabled_before_exception());
    assert!(!status.is_user_big_endian());
    assert_eq!(status.mode_before_exception(), Spp::User);
}

#[test]
fn every_bit_set() {
    let status = Sstatus(usize::MAX);
    assert!(status.is_interrupt_enabled());
    assert!(status.is_interrupt_enabled_before_exception());
    assert!(status.is_user_big_endian());
    assert_eq!(status.mode_before_exception(), Spp::Supervisor);
}

#[test]
fn each_bit_alone() {
    assert!(Sstatus(1 << 1).is_interrupt_enabled());
    assert!(!Sstatus(!(1 << 1)).is_interrupt_enabled());
    assert!(Sstatus(1 << 5).is_interrupt_enabled_before_exception());
    assert!(!Sstatus(!(1 << 5)).is_interrupt_enabled_before_exception());
    assert!(Sstatus(1 << 6).is_user_big_endian());
    assert!(!Sstatus(!(1 << 6)).is_user_big_endian());
    assert_eq!(Sstatus(1 << 8).mode_before_exception(), Spp::Supervisor);
    assert_eq!(Sstatus(!(1 << 8)).mode_before_exception(), Spp::User);
}

#[test]
fn neighbours_do_not_count() {
    let status = Sstatus(1 | 1 << 2 | 1 << 4 | 1 << 7 | 1 << 9);
    assert!(!status.is_interrupt_enabled());
    assert!(!status.is_interrupt_enabled_before_exception());
    assert!(!status.is_user_big_endian());
    assert_eq!(status.mode_before_exception(), Spp::User);
}

#[test]
fn mode_of_the_bit() {
    assert_eq!(Spp::from(0), Spp::User);
    assert_eq!(Spp::from(1), Spp::Supervisor);
}
