use arm64_inst::arm64::{Arm64Error, Arm64ShiftedImm};

#[test]
fn legal_shifts_are_accepted() {
    let low = Arm64ShiftedImm::new(0x123, 0).unwrap();
    assert_eq!(low.bits(), 0x123);
    assert_eq!(low.shift(), 0);
    let high = Arm64ShiftedImm::new(0x123, 12).unwrap();
    assert_eq!(high.bits(), 0x123);
    assert_eq!(high.shift(), 12);
}

#[test]
fn other_shifts_are_rejected() {
    for shift in [1usize, 2, 6, 11, 13, 16, 24, 48, usize::MAX] {
        for bits in [0usize, 1, 0xFFF, usize::MAX] {
            assert_eq!(
                Arm64ShiftedImm::new(bits, shift),
                Err(Arm64Error::InvalidImmediateEncoding),
                "bits {:#x}, shift {}",
                bits,
                shift
            );
        }
    }
}

#[test]
fn acceptance_depends_on_the_shift_alone() {
    for bits in [0usize, 1, 0xFFF, 0x1000, usize::MAX] {
        assert!(Arm64ShiftedImm::new(bits, 0).is_ok());
        assert!(Arm64ShiftedImm::new(bits, 12).is_ok());
        assert!(Arm64ShiftedImm::new(bits, 6).is_err());
    }
}

#[test]
fn full_twelve_bits_shifted_by_twelve() {
    let imm = Arm64ShiftedImm::new(0xFFF, 12);
    assert!(imm.is_ok());
    let imm = imm.unwrap();
    assert_eq!(imm.bits(), 0xFFF);
    assert_eq!(imm.shift(), 12);
}

#[test]
fn full_twelve_bits_shifted_by_six_is_an_error() {
    assert_eq!(Arm64ShiftedImm::new(0xFFF, 6), Err(Arm64Error::InvalidImmediateEncoding));
}

#[test]
fn shift_is_never_clamped() {
    assert!(Arm64ShiftedImm::new(1, 13).is_err());
    assert!(Arm64ShiftedImm::new(1, 11).is_err());
    assert!(Arm64ShiftedImm::new(1, 24).is_err());
}

#[test]
fn immediates_compare_by_their_parts() {
    let a = Arm64ShiftedImm::new(5, 12).unwrap();
    let b = Arm64ShiftedImm::new(5, 12).unwrap();
    let c = Arm64ShiftedImm::new(5, 0).unwrap();
    let d = Arm64ShiftedImm::new(6, 12).unwrap();
    assert_eq!(a, b);
    assert_ne!(a, c);
    assert_ne!(a, d);
    let copy = a;
    assert_eq!(copy.bits(), 5);
    assert_eq!(copy.shift(), 12);
}
