use sel4::{Badge, CNode, CNodeInfo, DecodedCPtr, SlotRef, ToCap, Window};

fn shape(radix_bits: u8, guard_bits: u8, prefix_bits: u8, guard_val: u64) -> CNodeInfo {
    CNodeInfo { guard_val, radix_bits, guard_bits, prefix_bits }
}

#[test]
fn decode_splits_fields_high_to_low() {
    let info = shape(8, 4, 8, 0);
    let d = info.decode(0x1234_5678_9abc_deff);
    assert_eq!(d.prefix, 0x12);
    assert_eq!(d.guard, 0x3);
    assert_eq!(d.radix, 0x45);
    assert_eq!(d.leftover, 0x678_9abc_deff);
}

#[test]
fn encode_packs_fields_high_to_low() {
    let info = shape(8, 4, 8, 0);
    let d = DecodedCPtr { prefix: 0x12, guard: 0x3, radix: 0x45, leftover: 0x678_9abc_deff };
    assert_eq!(info.encode(&d), 0x1234_5678_9abc_deff);
}

#[test]
fn encode_masks_oversized_fields() {
    // An oversized field must not corrupt its neighbours: only the low
    // declared bits of each field may reach the word.
    let info = shape(8, 4, 8, 0);
    let d = DecodedCPtr { prefix: 0xff12, guard: 0xf3, radix: 0xf45, leftover: 0 };
    let clean = DecodedCPtr { prefix: 0x12, guard: 0x3, radix: 0x45, leftover: 0 };
    assert_eq!(info.encode(&d), info.encode(&clean));
}

#[test]
fn round_trip_decode_of_encode() {
    let shapes = [
        shape(8, 4, 8, 0),
        shape(12, 0, 0, 0),
        shape(0, 0, 0, 0),
        shape(64, 0, 0, 0),
        shape(28, 18, 18, 7),
    ];
    let fields = [
        DecodedCPtr { prefix: 0, guard: 0, radix: 0, leftover: 0 },
        DecodedCPtr { prefix: 0x12, guard: 0x3, radix: 0x45, leftover: 0xabc },
        DecodedCPtr { prefix: 0x1, guard: 0x0, radix: 0x1, leftover: 0x1 },
    ];
    for info in shapes {
        for d in fields {
            // Mask each field to its declared width so it fits.
            let masked = {
                let once = info.encode(&d);
                info.decode(once)
            };
            let again = info.decode(info.encode(&masked));
            assert_eq!(again, masked);
        }
    }
}

#[test]
fn round_trip_encode_of_decode() {
    let words = [0u64, 1, 0xdead_beef, 0x1234_5678_9abc_deff, u64::MAX];
    let shapes = [shape(8, 4, 8, 0), shape(28, 18, 18, 0), shape(0, 0, 0, 0), shape(64, 0, 0, 0)];
    for info in shapes {
        for w in words {
            assert_eq!(info.encode(&info.decode(w)), w);
        }
    }
}

#[test]
fn badge_round_trips_full_32_bit_domain_samples() {
    for v in [0u32, 1, 2, 0xfff, 0x0fff_ffff, 0x1000_0000, 0xdead_beef, u32::MAX] {
        assert_eq!(Badge::new(v).get_value(), v);
    }
}

#[test]
fn slot_ref_new_keeps_components() {
    let root = CNode::from_cap(42);
    let s = SlotRef::new(root, 77, 13);
    assert_eq!(s.root.to_cap(), 42);
    assert_eq!(s.cptr, 77);
    assert_eq!(s.depth, 13);
}

#[test]
fn window_cptr_to_none_exactly_outside() {
    let info = shape(8, 4, 8, 0x9);
    let w = Window {
        cnode: SlotRef::new(CNode::from_cap(3), 0x21, 12),
        first_slot_idx: 10,
        num_slots: 5,
    };
    for i in 0..5 {
        assert!(w.cptr_to(&info, i).is_some());
    }
    assert!(w.cptr_to(&info, 5).is_none());
    assert!(w.cptr_to(&info, 6).is_none());
    assert!(w.cptr_to(&info, usize::MAX - w.first_slot_idx).is_none());
}

#[test]
fn window_addresses_carry_consecutive_radix() {
    let info = shape(8, 4, 8, 0x9);
    let w = Window {
        cnode: SlotRef::new(CNode::from_cap(3), 0x21, 12),
        first_slot_idx: 10,
        num_slots: 5,
    };
    for i in 0..5 {
        let cptr = w.cptr_to(&info, i).unwrap();
        let d = info.decode(cptr);
        assert_eq!(d.radix, (10 + i) as u64);
        assert_eq!(d.guard, 0x9);
        assert_eq!(d.prefix, 0x21);
        assert_eq!(d.leftover, 0);
    }
}

#[test]
fn window_slotref_depth_is_bits_resolved() {
    let info = shape(8, 4, 8, 0x9);
    let w = Window {
        cnode: SlotRef::new(CNode::from_cap(3), 0x21, 12),
        first_slot_idx: 0,
        num_slots: 2,
    };
    let s = w.slotref_to(&info, 1).unwrap();
    assert_eq!(s.depth, 8 + 4 + 8);
    assert_eq!(s.root.to_cap(), 3);
    assert_eq!(s.cptr, w.cptr_to(&info, 1).unwrap());
    assert!(w.slotref_to(&info, 2).is_none());
}
