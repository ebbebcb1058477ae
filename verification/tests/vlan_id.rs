use vlan_id::{AsRawVlanId, InvalidVlanId, MaybeVlanId, NativeVlanId, VlanId};

#[test]
fn bound_check() {
    assert!(TryInto::<VlanId>::try_into(0).is_err());
    assert!(TryInto::<VlanId>::try_into(1).is_ok());
    assert!(TryInto::<VlanId>::try_into(4094).is_ok());
    assert!(TryInto::<VlanId>::try_into(4095).is_err());
    assert!(TryInto::<VlanId>::try_into(u16::MAX).is_err());

    assert_eq!(TryInto::<MaybeVlanId>::try_into(0), Ok(MaybeVlanId::native()));
    assert_eq!(
        TryInto::<MaybeVlanId>::try_into(1),
        Ok(MaybeVlanId::min_tagged_vlan())
    );
    assert_eq!(
        TryInto::<MaybeVlanId>::try_into(4094),
        Ok(MaybeVlanId::max_tagged_vlan())
    );
    assert!(TryInto::<MaybeVlanId>::try_into(4095).is_err());
    assert!(TryInto::<MaybeVlanId>::try_into(u16::MAX).is_err());

    assert_eq!(MaybeVlanId::native(), NativeVlanId);
}

#[test]
fn tagged_boundaries() {
    assert_eq!(VlanId::try_new(0), Err(InvalidVlanId));
    assert!(VlanId::try_new(1).is_ok());
    assert!(VlanId::try_new(4094).is_ok());
    assert_eq!(VlanId::try_new(4095), Err(InvalidVlanId));
    assert_eq!(VlanId::try_new(65535), Err(InvalidVlanId));
}

#[test]
fn maybe_boundaries() {
    assert_eq!(MaybeVlanId::try_new(0), Ok(MaybeVlanId::native()));
    assert_eq!(MaybeVlanId::try_new(1), Ok(MaybeVlanId::min_tagged_vlan()));
    assert_eq!(MaybeVlanId::try_new(4094), Ok(MaybeVlanId::max_tagged_vlan()));
    assert_eq!(MaybeVlanId::try_new(4095), Err(InvalidVlanId));
    assert_eq!(MaybeVlanId::try_new(65535), Err(InvalidVlanId));
}

#[test]
fn round_trip_whole_domain() {
    for u in 0..=4094u16 {
        assert_eq!(MaybeVlanId::try_new(u).unwrap().as_raw_vlan_id(), u);
        assert_eq!(MaybeVlanId::try_new(u).unwrap().as_u16(), u);
    }
    for v in 1..=4094u16 {
        assert_eq!(VlanId::try_new(v).unwrap().as_raw_vlan_id(), v);
        assert_eq!(VlanId::try_new(v).unwrap().as_u16(), v);
        assert_eq!(VlanId::try_new(v).unwrap().inner(), v);
    }
}

#[test]
fn cross_type_equivalence() {
    assert_eq!(MaybeVlanId::native(), NativeVlanId::default());
    assert_eq!(NativeVlanId::default().as_raw_vlan_id(), 0);
    let v = VlanId::try_new(100).unwrap();
    assert_eq!(MaybeVlanId::Tagged(v), v);
    assert_eq!(MaybeVlanId::tagged(v), v);
    assert_eq!(v, MaybeVlanId::Tagged(v));
    assert_eq!(NativeVlanId, MaybeVlanId::native());
}

#[test]
fn mixed_type_ordering() {
    let one = VlanId::try_new(1).unwrap();
    let five = VlanId::try_new(5).unwrap();
    let seven = MaybeVlanId::try_new(7).unwrap();

    assert!(NativeVlanId < one);
    assert!(NativeVlanId < seven);
    assert!(MaybeVlanId::native() < one);
    assert!(five < seven);
    assert!(one < five);
    assert!(MaybeVlanId::min_tagged_vlan() < MaybeVlanId::max_tagged_vlan());
    assert!(five < MaybeVlanId::max_tagged_vlan());

    assert!(!(seven < five));
    assert!(!(one < NativeVlanId));

    let also_five = MaybeVlanId::try_new(5).unwrap();
    assert!(!(five < also_five));
    assert!(!(also_five < five));
    assert!(five == also_five);

    assert_eq!(
        PartialOrd::partial_cmp(&five, &seven),
        Some(std::cmp::Ordering::Less)
    );
    assert_eq!(
        PartialOrd::partial_cmp(&five, &also_five),
        Some(std::cmp::Ordering::Equal)
    );
    assert_eq!(
        PartialOrd::partial_cmp(&seven, &five),
        Some(std::cmp::Ordering::Greater)
    );
}

#[test]
fn be_bytes_encoding() {
    assert_eq!(VlanId::try_new(4094).unwrap().as_be_bytes(), [0x0F, 0xFE]);
    assert_eq!(NativeVlanId.as_be_bytes(), [0x00, 0x00]);
    assert_eq!(MaybeVlanId::try_new(1).unwrap().as_be_bytes(), [0x00, 0x01]);
    assert_eq!(VlanId::try_new(0x0ABC).unwrap().as_be_bytes(), [0x0A, 0xBC]);
}

#[test]
fn encoded_size_is_two_octets() {
    assert_eq!(MaybeVlanId::native().as_be_bytes().len(), 2);
    assert_eq!(MaybeVlanId::max_tagged_vlan().as_be_bytes().len(), 2);
    assert_eq!(MaybeVlanId::OCTET_SIZE, 2);
    assert_eq!(MaybeVlanId::BITS, 16);
    assert_eq!(MaybeVlanId::EFFECTIVE_BITS, 12);
}

#[test]
fn named_values() {
    assert_eq!(VlanId::min().as_u16(), VlanId::MIN_VALUE);
    assert_eq!(VlanId::max().as_u16(), VlanId::MAX_VALUE);
    assert_eq!(VlanId::one(), VlanId::min());
    assert_eq!(NativeVlanId::VALUE, 0);
    assert_eq!(MaybeVlanId::native().as_u16(), 0);
    assert_eq!(MaybeVlanId::min_tagged_vlan().as_u16(), 1);
    assert_eq!(MaybeVlanId::max_tagged_vlan().as_u16(), 4094);
}

#[test]
fn conversions_to_u16() {
    let v = VlanId::try_new(3125).unwrap();
    assert_eq!(u16::from(v), 3125);
    assert_eq!(u16::from(&v), 3125);
    let m = MaybeVlanId::tagged(v);
    assert_eq!(u16::from(m), 3125);
    assert_eq!(u16::from(&m), 3125);
    assert_eq!(u16::from(NativeVlanId), 0);
    assert_eq!(u16::from(&NativeVlanId), 0);
    let as_int: u16 = v.into();
    assert_eq!(as_int, 3125);
}

#[test]
fn native_construction() {
    assert!(NativeVlanId::try_from(0).is_ok());
    assert_eq!(NativeVlanId::try_from(1), Err(InvalidVlanId));
    assert_eq!(NativeVlanId::try_from(4095), Err(InvalidVlanId));
}

#[test]
fn display_strings() {
    assert_eq!(NativeVlanId.display_string(), "0");
    assert_eq!(VlanId::try_new(100).unwrap().display_string(), "100");
    assert_eq!(VlanId::max().display_string(), "4094");
    assert_eq!(MaybeVlanId::native().display_string(), "0");
    assert_eq!(MaybeVlanId::try_new(42).unwrap().display_string(), "42");
    assert_eq!(InvalidVlanId.message(), "INVALID_VLAN_ID");
}
