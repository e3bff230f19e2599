use xhci::array::AlignmentFault;
use xhci::bits::{low_mask, read_field, write_field};
use xhci::capability::Capability;
use xhci::doorbell::Register;

#[test]
fn low_mask_values() {
    assert_eq!(low_mask(1), 0x1);
    assert_eq!(low_mask(8), 0xff);
    assert_eq!(low_mask(16), 0xffff);
    assert_eq!(low_mask(32), 0xffff_ffff);
}

#[test]
fn field_round_trip_exact() {
    let w = write_field(0, 0, 7, 7);
    assert_eq!(read_field(w, 0, 7), 7);
    let w = write_field(0xdead_beef, 16, 31, 0x1234);
    assert_eq!(read_field(w, 16, 31), 0x1234);
}

#[test]
fn field_round_trip_truncates_wide_value() {
    let w = write_field(0, 0, 7, 0x1ff);
    assert_eq!(read_field(w, 0, 7), 0xff);
    let w = write_field(0, 4, 7, 0xab);
    assert_eq!(read_field(w, 4, 7), 0xb);
}

#[test]
fn field_write_leaves_other_bits() {
    let w = write_field(0xffff_ffff, 8, 15, 0);
    assert_eq!(w, 0xffff_00ff);
    assert_eq!(read_field(w, 0, 7), 0xff);
    assert_eq!(read_field(w, 16, 31), 0xffff);
}

#[test]
fn default_register_fields_zero() {
    let r = Register::default();
    assert_eq!(r.bits(), 0);
    assert_eq!(r.doorbell_target(), 0);
    assert_eq!(r.doorbell_stream_id(), 0);
}

#[test]
fn register_bits_round_trip() {
    let r = Register::from_bits(0x1234_5678);
    assert_eq!(r.bits(), 0x1234_5678);
    assert_eq!(r.doorbell_target(), 0x78);
    assert_eq!(r.doorbell_stream_id(), 0x1234);
}

#[test]
fn setting_one_field_preserves_the_other() {
    let mut r = Register::default();
    r.set_doorbell_stream_id(0xbeef);
    r.set_doorbell_target(0x2a);
    assert_eq!(r.doorbell_stream_id(), 0xbeef);
    assert_eq!(r.doorbell_target(), 0x2a);
    r.set_doorbell_stream_id(0x1111);
    assert_eq!(r.doorbell_target(), 0x2a);
}

#[test]
fn capability_decodes_slot_count() {
    let cap = Capability { hcsparams1: 0xffff_ff2a, dboff: 0x40 };
    assert_eq!(cap.number_of_device_slots(), 0x2a);
    assert_eq!(cap.doorbell_offset(), 0x40);
}

#[test]
fn array_exposes_reported_count() {
    let cap = Capability { hcsparams1: 4, dboff: 0x100 };
    let arr = Register::new(0x1000, &cap).unwrap();
    assert_eq!(arr.len(), 4);
    assert!(arr.read_at_checked(3).is_some());
    assert!(arr.read_at_checked(4).is_none());
    assert!(arr.read_at_checked(usize::MAX).is_none());
}

#[test]
fn misaligned_base_is_alignment_fault() {
    let cap = Capability { hcsparams1: 4, dboff: 0x102 };
    let r = Register::new(0x1000, &cap);
    assert_eq!(r.err(), Some(AlignmentFault));
}

#[test]
fn addr_of_computes_element_addresses() {
    let cap = Capability { hcsparams1: 4, dboff: 0x100 };
    let arr = Register::new(0x1000, &cap).unwrap();
    assert_eq!(arr.base_address(), 0x1100);
    assert_eq!(arr.addr_of(0), 0x1100);
    assert_eq!(arr.addr_of(3), 0x110c);
}

#[test]
fn doorbell_scenario_aligned() {
    let cap = Capability { hcsparams1: 0x0510_0004, dboff: 0x100 };
    let mut arr = Register::new(0x1000, &cap).unwrap();
    assert_eq!(arr.base_address(), 0x1100);
    assert_eq!(arr.len(), 4);
    let mut reg = Register::default();
    reg.set_doorbell_target(7);
    reg.set_doorbell_stream_id(300);
    arr.write_at(2, reg);
    let back = arr.read_at(2);
    assert_eq!(back.doorbell_target(), 7);
    assert_eq!(back.doorbell_stream_id(), 300);
    for i in [0usize, 1, 3] {
        let other = arr.read_at(i);
        assert_eq!(other.bits(), 0);
        assert_eq!(other.doorbell_target(), 0);
        assert_eq!(other.doorbell_stream_id(), 0);
    }
}

#[test]
fn doorbell_scenario_misaligned() {
    let cap = Capability { hcsparams1: 0x0510_0004, dboff: 0x101 };
    let r = Register::new(0x1000, &cap);
    assert!(r.is_err());
    assert_eq!(r.err(), Some(AlignmentFault));
}

#[test]
fn zero_slot_capability_gives_empty_array() {
    let cap = Capability { hcsparams1: 0xffff_ff00, dboff: 0x80 };
    let arr = Register::new(0x2000, &cap).unwrap();
    assert_eq!(arr.len(), 0);
    assert!(arr.read_at_checked(0).is_none());
}
