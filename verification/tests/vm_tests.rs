use libos::vm::vm_area::VMArea;
use libos::vm::vm_perms::{VMPerms, ALL_BITS, EXEC_BIT, READ_BIT, WRITE_BIT};
use libos::vm::vm_range::VMRange;

fn bounds(ranges: &[VMRange]) -> Vec<(usize, usize)> {
    ranges.iter().map(|r| (r.start(), r.end())).collect()
}

#[test]
fn from_u32_drops_unsupported_bits() {
    let p = VMPerms::from_u32(0xff).unwrap();
    assert_eq!(p.bits(), ALL_BITS);
    assert!(p.can_read() && p.can_write() && p.can_execute());
    let q = VMPerms::from_u32(0x8).unwrap();
    assert_eq!(q.bits(), 0);
    assert!(!q.can_read() && !q.can_write() && !q.can_execute());
}

#[test]
fn from_u32_keeps_named_permissions() {
    let p = VMPerms::from_u32(READ_BIT | EXEC_BIT).unwrap();
    assert!(p.can_read());
    assert!(!p.can_write());
    assert!(p.can_execute());
    assert_eq!(p.bits(), 0x5);
    let w = VMPerms::from_u32(WRITE_BIT | 0x10).unwrap();
    assert_eq!(w.bits(), WRITE_BIT);
    assert!(w.can_write() && !w.can_read());
}

#[test]
fn from_bits_truncate_round_trip() {
    for b in 0u32..8 {
        let p = VMPerms::from_bits_truncate(b);
        assert_eq!(VMPerms::from_bits_truncate(p.bits()), p);
    }
}

#[test]
fn default_permits_everything() {
    let p = VMPerms::default();
    assert_eq!(p, VMPerms::All());
    assert!(p.can_read() && p.can_write() && p.can_execute());
}

#[test]
fn contains_is_subset_of_bits() {
    let rw = VMPerms::from_bits_truncate(READ_BIT | WRITE_BIT);
    assert!(rw.contains(VMPerms::Read()));
    assert!(rw.contains(VMPerms::Write()));
    assert!(!rw.contains(VMPerms::Exec()));
    assert!(!rw.contains(VMPerms::All()));
    assert!(VMPerms::All().contains(rw));
}

#[test]
fn subtract_disjoint_keeps_whole_range() {
    let r = VMRange::new(10, 20);
    assert_eq!(bounds(&r.subtract(&VMRange::new(20, 30))), vec![(10, 20)]);
    assert_eq!(bounds(&r.subtract(&VMRange::new(0, 10))), vec![(10, 20)]);
}

#[test]
fn subtract_empty_hole_keeps_whole_range() {
    let r = VMRange::new(10, 20);
    assert_eq!(bounds(&r.subtract(&VMRange::new(15, 15))), vec![(10, 20)]);
}

#[test]
fn subtract_middle_leaves_two_pieces() {
    let r = VMRange::new(10, 20);
    assert_eq!(bounds(&r.subtract(&VMRange::new(12, 15))), vec![(10, 12), (15, 20)]);
}

#[test]
fn subtract_overlapping_ends() {
    let r = VMRange::new(10, 20);
    assert_eq!(bounds(&r.subtract(&VMRange::new(5, 12))), vec![(12, 20)]);
    assert_eq!(bounds(&r.subtract(&VMRange::new(18, 25))), vec![(10, 18)]);
}

#[test]
fn subtract_covering_hole_leaves_nothing() {
    let r = VMRange::new(10, 20);
    assert!(r.subtract(&VMRange::new(10, 20)).is_empty());
    assert!(r.subtract(&VMRange::new(0, 100)).is_empty());
    assert!(VMRange::new(5, 5).subtract(&VMRange::new(0, 1)).is_empty());
}

#[test]
fn range_size_and_default() {
    assert_eq!(VMRange::new(4096, 8192).size(), 4096);
    let d = VMRange::default();
    assert_eq!((d.start(), d.end(), d.size()), (0, 0, 0));
}

#[test]
fn area_subtract_keeps_permissions() {
    let perms = VMPerms::from_bits_truncate(READ_BIT);
    let area = VMArea::new(VMRange::new(0, 100), perms);
    let pieces = area.subtract(&VMRange::new(40, 60));
    assert_eq!(pieces.len(), 2);
    assert_eq!((pieces[0].as_ref().start(), pieces[0].as_ref().end()), (0, 40));
    assert_eq!((pieces[1].as_ref().start(), pieces[1].as_ref().end()), (60, 100));
    assert!(pieces.iter().all(|a| a.perms() == perms));
}

#[test]
fn area_perms_can_be_replaced() {
    let mut area = VMArea::new(VMRange::new(0, 10), VMPerms::All());
    area.set_perms(VMPerms::Read());
    assert_eq!(area.perms(), VMPerms::Read());
    assert_eq!(area.as_ref(), &VMRange::new(0, 10));
}

#[test]
fn area_range_can_be_changed_in_place() {
    let mut area = VMArea::new(VMRange::new(0, 10), VMPerms::Exec());
    *area.as_mut() = VMRange::new(20, 30);
    assert_eq!(area.as_ref().start(), 20);
    assert_eq!(area.perms(), VMPerms::Exec());
}

#[test]
fn default_area_is_empty_with_all_permissions() {
    let a = VMArea::default();
    assert_eq!(a.as_ref().size(), 0);
    assert_eq!(a.perms(), VMPerms::All());
}

#[test]
fn unsupported_bits_are_the_dropped_ones() {
    assert_eq!(VMPerms::unsupported_bits(0xff), 0xf8);
    assert_eq!(VMPerms::unsupported_bits(READ_BIT | WRITE_BIT), 0);
}
