use bch_btree::flags::{BtreeIterFlag, BtreeIterFlags};

const EVERY: [BtreeIterFlag; 16] = [
    BtreeIterFlag::Slots,
    BtreeIterFlag::AllLevels,
    BtreeIterFlag::Intent,
    BtreeIterFlag::Prefetch,
    BtreeIterFlag::IsExtents,
    BtreeIterFlag::NotExtents,
    BtreeIterFlag::Cached,
    BtreeIterFlag::KeyCached,
    BtreeIterFlag::WithUpdates,
    BtreeIterFlag::WithJournal,
    BtreeIterFlag::InternalAllSnapshots,
    BtreeIterFlag::AllSnapshots,
    BtreeIterFlag::FilterSnapshots,
    BtreeIterFlag::Nopreserve,
    BtreeIterFlag::CachedNofill,
    BtreeIterFlag::KeyCacheFill,
];

#[test]
fn each_capability_has_its_own_bit() {
    for (i, f) in EVERY.iter().enumerate() {
        assert_eq!(f.index() as usize, i);
        assert_eq!(BtreeIterFlags::only(*f).bits(), 1u16 << i);
    }
}

#[test]
fn named_bits() {
    assert_eq!(BtreeIterFlags::only(BtreeIterFlag::Slots).bits(), 0x0001);
    assert_eq!(BtreeIterFlags::only(BtreeIterFlag::AllLevels).bits(), 0x0002);
    assert_eq!(BtreeIterFlags::only(BtreeIterFlag::Intent).bits(), 0x0004);
    assert_eq!(BtreeIterFlags::only(BtreeIterFlag::IsExtents).bits(), 0x0010);
    assert_eq!(BtreeIterFlags::only(BtreeIterFlag::InternalAllSnapshots).bits(), 0x0400);
    assert_eq!(BtreeIterFlags::only(BtreeIterFlag::AllSnapshots).bits(), 0x0800);
    assert_eq!(BtreeIterFlags::only(BtreeIterFlag::KeyCacheFill).bits(), 0x8000);
}

#[test]
fn empty_and_all() {
    assert_eq!(BtreeIterFlags::empty().bits(), 0);
    assert_eq!(BtreeIterFlags::all().bits(), 0xffff);
    assert!(BtreeIterFlags::empty().is_empty());
    assert!(!BtreeIterFlags::all().is_empty());
    for f in EVERY {
        assert!(!BtreeIterFlags::empty().has(f));
        assert!(BtreeIterFlags::all().has(f));
    }
}

#[test]
fn only_holds_one_capability() {
    let s = BtreeIterFlags::only(BtreeIterFlag::Prefetch);
    for f in EVERY {
        assert_eq!(s.has(f), f == BtreeIterFlag::Prefetch);
    }
    assert!(!s.is_empty());
}

#[test]
fn from_bits_takes_every_value() {
    assert_eq!(BtreeIterFlags::from_bits(0), Some(BtreeIterFlags::empty()));
    assert_eq!(BtreeIterFlags::from_bits(0xffff), Some(BtreeIterFlags::all()));
    let s = BtreeIterFlags::from_bits(0x0014).unwrap();
    assert_eq!(s.bits(), 0x0014);
    assert!(s.has(BtreeIterFlag::Intent));
    assert!(s.has(BtreeIterFlag::IsExtents));
    assert!(!s.has(BtreeIterFlag::Slots));
}

#[test]
fn bits_pass_through_unchanged() {
    for bits in [0u16, 1, 0x00ff, 0x1234, 0x8001, 0xffff] {
        assert_eq!(BtreeIterFlags::from_bits(bits).unwrap().bits(), bits);
    }
}

#[test]
fn union_joins() {
    let a = BtreeIterFlags::only(BtreeIterFlag::Slots);
    let b = BtreeIterFlags::only(BtreeIterFlag::Intent);
    let u = a.union(b);
    assert_eq!(u.bits(), 0x0005);
    assert!(u.has(BtreeIterFlag::Slots));
    assert!(u.has(BtreeIterFlag::Intent));
    assert!(!u.has(BtreeIterFlag::Prefetch));
    assert_eq!(u.union(a), u);
}

#[test]
fn intersection_keeps_what_both_hold() {
    let a = BtreeIterFlags::from_bits(0x00f0).unwrap();
    let b = BtreeIterFlags::from_bits(0x0c30).unwrap();
    assert_eq!(a.intersection(b).bits(), 0x0030);
    assert!(a.intersection(BtreeIterFlags::empty()).is_empty());
}

#[test]
fn difference_drops_what_the_other_holds() {
    let a = BtreeIterFlags::from_bits(0x00f0).unwrap();
    let b = BtreeIterFlags::from_bits(0x0c30).unwrap();
    assert_eq!(a.difference(b).bits(), 0x00c0);
    assert_eq!(a.difference(a), BtreeIterFlags::empty());
}

#[test]
fn complement_flips_every_capability() {
    let a = BtreeIterFlags::from_bits(0x00f0).unwrap();
    assert_eq!(a.complement().bits(), 0xff0f);
    assert_eq!(BtreeIterFlags::empty().complement(), BtreeIterFlags::all());
    assert_eq!(a.complement().complement(), a);
}

#[test]
fn contains_is_subset() {
    let a = BtreeIterFlags::from_bits(0x00f0).unwrap();
    assert!(a.contains(BtreeIterFlags::from_bits(0x0030).unwrap()));
    assert!(a.contains(a));
    assert!(a.contains(BtreeIterFlags::empty()));
    assert!(!a.contains(BtreeIterFlags::from_bits(0x0130).unwrap()));
    assert!(!BtreeIterFlags::empty().contains(a));
}

#[test]
fn intersects_is_a_shared_capability() {
    let a = BtreeIterFlags::from_bits(0x00f0).unwrap();
    assert!(a.intersects(BtreeIterFlags::from_bits(0x0110).unwrap()));
    assert!(!a.intersects(BtreeIterFlags::from_bits(0x0f0f).unwrap()));
    assert!(!a.intersects(BtreeIterFlags::empty()));
    assert!(!BtreeIterFlags::empty().intersects(BtreeIterFlags::empty()));
}

#[test]
fn insert_and_remove() {
    let mut s = BtreeIterFlags::empty();
    s.insert(BtreeIterFlags::only(BtreeIterFlag::Cached));
    s.insert(BtreeIterFlags::only(BtreeIterFlag::WithJournal));
    assert_eq!(s.bits(), 0x0240);
    s.insert(BtreeIterFlags::only(BtreeIterFlag::Cached));
    assert_eq!(s.bits(), 0x0240);
    s.remove(BtreeIterFlags::only(BtreeIterFlag::Cached));
    assert_eq!(s.bits(), 0x0200);
    s.remove(BtreeIterFlags::only(BtreeIterFlag::Cached));
    assert_eq!(s.bits(), 0x0200);
}
