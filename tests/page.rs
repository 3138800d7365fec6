use sgx_types::page::{Class, DecodeError, Flags, SecInfo, FLAGS_MASK, SECINFO_SIZE};

fn rw() -> Flags {
    Flags::r().union(Flags::w())
}

#[test]
fn wire_form_is_64_bytes() {
    assert_eq!(SECINFO_SIZE, 64);
    assert_eq!(SecInfo::reg(rw()).to_bytes().len(), 64);
    assert_eq!(SecInfo::tcs().to_bytes().len(), 64);
}

#[test]
fn wire_offsets_of_regular_page() {
    let b = SecInfo::reg(rw()).to_bytes();
    assert_eq!(b[0], 0b011);
    assert_eq!(b[1], 2);
    assert!(b[2..].iter().all(|&x| x == 0));
    assert_eq!(b[2..].len(), 62);
}

#[test]
fn regular_page_keeps_flags() {
    let f = Flags::r().union(Flags::x());
    let s = SecInfo::reg(f);
    assert_eq!(s.flags(), f);
    assert_eq!(s.class(), Class::Reg);
    assert_eq!(s.flags().bits(), 0b101);
}

#[test]
fn regular_page_keeps_state_bits() {
    let f = Flags::r().union(Flags::pending());
    let s = SecInfo::reg(f);
    assert_eq!(s.flags().bits(), 0b1001);
    assert_eq!(s.to_bytes()[0], 0b1001);
}

#[test]
fn regular_page_with_no_flags() {
    let b = SecInfo::reg(Flags::empty()).to_bytes();
    let mut want = [0u8; 64];
    want[1] = 2;
    assert_eq!(b, want);
}

#[test]
fn thread_control_page() {
    let s = SecInfo::tcs();
    assert!(s.flags().is_empty());
    assert_eq!(s.flags(), Flags::empty());
    assert_eq!(s.class(), Class::Tcs);
    let mut want = [0u8; 64];
    want[1] = 1;
    assert_eq!(s.to_bytes(), want);
}

#[test]
fn flag_bit_values() {
    assert_eq!(Flags::r().bits(), 1);
    assert_eq!(Flags::w().bits(), 2);
    assert_eq!(Flags::x().bits(), 4);
    assert_eq!(Flags::pending().bits(), 8);
    assert_eq!(Flags::modified().bits(), 16);
    assert_eq!(Flags::pr().bits(), 32);
    assert_eq!(Flags::empty().bits(), 0);
    assert_eq!(Flags::all().bits(), FLAGS_MASK);
    assert_eq!(FLAGS_MASK, 0x3f);
}

#[test]
fn permissions_set_bits_zero_to_two() {
    let rwx = Flags::r().union(Flags::w()).union(Flags::x());
    assert_eq!(rwx.bits(), 0b111);
    for i in 3..8 {
        assert_eq!(rwx.bits() >> i & 1, 0);
    }
}

#[test]
fn union_is_commutative_and_idempotent() {
    let a = Flags::r().union(Flags::modified());
    let b = Flags::w().union(Flags::r());
    assert_eq!(a.union(b), b.union(a));
    assert_eq!(a.union(b).bits(), 0b10011);
    assert_eq!(a.union(a), a);
    assert_eq!(Flags::all().union(Flags::all()), Flags::all());
}

#[test]
fn intersection_with_empty_is_empty() {
    assert!(Flags::all().intersection(Flags::empty()).is_empty());
    assert!(rw().intersection(Flags::empty()).is_empty());
    assert_eq!(rw().intersection(Flags::w().union(Flags::x())), Flags::w());
}

#[test]
fn contains_and_is_empty() {
    let f = rw();
    assert!(f.contains(Flags::r()));
    assert!(f.contains(Flags::w()));
    assert!(f.contains(rw()));
    assert!(f.contains(Flags::empty()));
    assert!(!f.contains(Flags::x()));
    assert!(!f.contains(Flags::r().union(Flags::x())));
    assert!(!f.is_empty());
    assert!(Flags::empty().is_empty());
}

#[test]
fn from_bits_checks_the_mask() {
    assert_eq!(Flags::from_bits(0), Some(Flags::empty()));
    assert_eq!(Flags::from_bits(0x3f), Some(Flags::all()));
    assert_eq!(Flags::from_bits(5), Some(Flags::r().union(Flags::x())));
    assert_eq!(Flags::from_bits(0x40), None);
    assert_eq!(Flags::from_bits(0x80), None);
    assert_eq!(Flags::from_bits(0xff), None);
}

#[test]
fn class_tags_are_fixed() {
    assert_eq!(Class::Secs.tag(), 0);
    assert_eq!(Class::Tcs.tag(), 1);
    assert_eq!(Class::Reg.tag(), 2);
    assert_eq!(Class::Va.tag(), 3);
    assert_eq!(Class::Trim.tag(), 4);
    assert_eq!(Class::Secs as u8, 0);
    assert_eq!(Class::Tcs as u8, 1);
    assert_eq!(Class::Reg as u8, 2);
    assert_eq!(Class::Va as u8, 3);
    assert_eq!(Class::Trim as u8, 4);
}

#[test]
fn round_trip_regular_page() {
    let f = Flags::r().union(Flags::w()).union(Flags::x());
    let s = SecInfo::reg(f);
    let t = SecInfo::from_bytes(&s.to_bytes()).unwrap();
    assert_eq!(t.flags(), f);
    assert_eq!(t.class(), Class::Reg);
    assert_eq!(t.to_bytes(), s.to_bytes());
}

#[test]
fn round_trip_thread_control_page() {
    let s = SecInfo::tcs();
    let t = SecInfo::from_bytes(&s.to_bytes()).unwrap();
    assert_eq!(t.flags(), Flags::empty());
    assert_eq!(t.class(), Class::Tcs);
}

#[test]
fn decode_every_class() {
    let classes = [Class::Secs, Class::Tcs, Class::Reg, Class::Va, Class::Trim];
    for (tag, class) in classes.iter().enumerate() {
        let mut b = [0u8; 64];
        b[0] = 0x3f;
        b[1] = tag as u8;
        let s = SecInfo::from_bytes(&b).unwrap();
        assert_eq!(s.class(), *class);
        assert_eq!(s.flags(), Flags::all());
    }
}

#[test]
fn decode_rejects_undefined_flags() {
    let mut b = SecInfo::reg(rw()).to_bytes();
    b[0] = 0x43;
    assert_eq!(SecInfo::from_bytes(&b).unwrap_err(), DecodeError::UndefinedFlags);
    b[1] = 9;
    assert_eq!(SecInfo::from_bytes(&b).unwrap_err(), DecodeError::UndefinedFlags);
}

#[test]
fn decode_rejects_unknown_class() {
    let mut b = SecInfo::reg(rw()).to_bytes();
    b[1] = 5;
    assert_eq!(SecInfo::from_bytes(&b).unwrap_err(), DecodeError::UnknownClass);
    b[1] = 0xff;
    b[63] = 1;
    assert_eq!(SecInfo::from_bytes(&b).unwrap_err(), DecodeError::UnknownClass);
}

#[test]
fn decode_rejects_nonzero_reserved() {
    let mut b = SecInfo::tcs().to_bytes();
    b[2] = 1;
    assert_eq!(SecInfo::from_bytes(&b).unwrap_err(), DecodeError::NonzeroReserved);
    let mut b = SecInfo::tcs().to_bytes();
    b[63] = 0x80;
    assert_eq!(SecInfo::from_bytes(&b).unwrap_err(), DecodeError::NonzeroReserved);
}
