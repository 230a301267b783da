use qemu_exit::x86::{Outcome, X86};

/// The transform the device applies to a written value.
fn fold(code: u32) -> u32 {
    (code << 1) | 1
}

#[test]
fn odd_sentinels_accepted() {
    assert!(X86::try_new(0xF4, 0x21).is_some());
    assert!(X86::try_new(0xF4, 1).is_some());
    assert!(X86::try_new(0xF4, 0xFFFF_FFFF).is_some());
    assert!(X86::try_new(0, 3).is_some());
}

#[test]
fn even_sentinels_rejected() {
    assert!(X86::try_new(0xF4, 0x20).is_none());
    assert!(X86::try_new(0xF4, 0).is_none());
    assert!(X86::try_new(0xF4, 0xFFFF_FFFE).is_none());
}

#[test]
fn success_encodes_to_shifted_sentinel() {
    let h = X86::new(0xF4, 0x21);
    assert_eq!(h.encode(Outcome::Success), 0x10);
}

#[test]
fn success_round_trips_through_fold() {
    for s in [1u32, 0x21, 0x7FFF_FFFF, 0xFFFF_FFFF] {
        let h = X86::new(0xF4, s);
        let written = h.encode(Outcome::Success);
        assert_eq!(written, s >> 1);
        assert_eq!(fold(written), s);
    }
}

#[test]
fn failure_encodes_to_zero() {
    let h = X86::new(0xF4, 0x21);
    assert_eq!(h.encode(Outcome::Failure), 0x0);
    assert_eq!(fold(h.encode(Outcome::Failure)), 1);
}

#[test]
fn explicit_code_unchanged() {
    let h = X86::new(0xF4, 0x21);
    assert_eq!(h.encode(Outcome::Explicit(7)), 0x7);
    assert_eq!(h.encode(Outcome::Explicit(0)), 0);
    assert_eq!(h.encode(Outcome::Explicit(0xFFFF_FFFF)), 0xFFFF_FFFF);
}

#[test]
fn handle_reports_its_configuration() {
    let h = X86::new(0xF4, 0x21);
    assert_eq!(h.io_base(), 0xF4);
    assert_eq!(h.custom_exit_success(), 0x21);

    let h = X86::try_new(0x501, 33).unwrap();
    assert_eq!(h.io_base(), 0x501);
    assert_eq!(h.custom_exit_success(), 33);
}
