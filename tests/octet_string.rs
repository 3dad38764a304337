use bacnet::object::{
    BacnetObject, ObjectError, ObjectIdentifier, ObjectType, PropertyIdentifier, PropertyValue,
};
use bacnet::octet_string::{BoundedVec, BoundedVecError, OctetString, MAX_OCTET_STRING_SIZE};

const ALL_PROPERTIES: [PropertyIdentifier; 6] = [
    PropertyIdentifier::ObjectIdentifier,
    PropertyIdentifier::ObjectName,
    PropertyIdentifier::ObjectType,
    PropertyIdentifier::Description,
    PropertyIdentifier::PresentValue,
    PropertyIdentifier::OutOfService,
];

fn value_of_type(p: PropertyIdentifier) -> PropertyValue {
    match p {
        PropertyIdentifier::ObjectIdentifier => {
            PropertyValue::ObjectIdentifier(ObjectIdentifier::new(ObjectType::OctetString, 9))
        }
        PropertyIdentifier::ObjectName => PropertyValue::CharacterString("renamed".to_string()),
        PropertyIdentifier::ObjectType => PropertyValue::Enumerated(47),
        PropertyIdentifier::Description => PropertyValue::CharacterString("text".to_string()),
        PropertyIdentifier::PresentValue => PropertyValue::OctetString(vec![9, 9]),
        PropertyIdentifier::OutOfService => PropertyValue::Boolean(true),
    }
}

fn assert_same_state(a: &OctetString, b: &OctetString) {
    assert_eq!(a.identifier, b.identifier);
    assert_eq!(a.object_name, b.object_name);
    assert_eq!(a.description, b.description);
    assert_eq!(a.present_value, b.present_value);
    assert_eq!(a.status_flags, b.status_flags);
}

#[test]
fn test_octet_string_creation() {
    let octet_string = OctetString::new(1, "test".to_string());
    assert_eq!(
        octet_string.identifier(),
        ObjectIdentifier::new(ObjectType::OctetString, 1)
    );
    assert_eq!(octet_string.object_name, "test");
    assert_eq!(octet_string.present_value, Vec::new());
    assert_eq!(octet_string.status_flags, 0);
}

#[test]
fn test_octet_string_operations() {
    // make object
    let mut octet_string = OctetString::new(1, "test".to_string());

    // set a dummy value
    let data = vec![1, 2, 3, 4];
    octet_string.set_present_value(data.clone()).unwrap();

    // retrieve that dummy value
    assert_eq!(octet_string.present_value, data.clone());
}

#[test]
fn test_octet_string_oversize() {
    let mut octet_string = OctetString::new(1, "test".to_string());
    let data = vec![1; MAX_OCTET_STRING_SIZE + 1];
    assert!(octet_string.set_present_value(data.clone()).is_err());
}

#[test]
fn bounded_vec_accepts_up_to_the_bound() {
    assert_eq!(MAX_OCTET_STRING_SIZE, 900);
    for n in [0usize, 1, 4, 899, 900] {
        let b = BoundedVec::new(vec![7; n]).unwrap();
        assert_eq!(b.len(), n);
    }
}

#[test]
fn bounded_vec_rejects_over_the_bound() {
    for n in [901usize, 1000, 4096] {
        match BoundedVec::new(vec![0; n]) {
            Err(e) => assert_eq!(e, BoundedVecError::OversizeData { len: n, max_len: 900 }),
            Ok(_) => panic!("accepted {} bytes", n),
        }
    }
}

#[test]
fn fresh_object_is_empty() {
    let o = OctetString::new(42, "fresh".to_string());
    assert!(o.present_value.is_empty());
    assert_eq!(o.status_flags, 0);
    assert_eq!(o.description, "");
    assert_eq!(o.get_status_flags(), (false, false, false, false));
}

#[test]
fn present_value_round_trip() {
    let mut o = OctetString::new(3, "pv".to_string());
    for data in [vec![], vec![0u8, 255, 16], vec![5u8; 900]] {
        assert!(o.set_present_value(data.clone()).is_ok());
        assert_eq!(
            o.get_property(PropertyIdentifier::PresentValue),
            Ok(PropertyValue::OctetString(data))
        );
    }
}

#[test]
fn status_flags_round_trip_all_combinations() {
    let mut o = OctetString::new(1, "flags".to_string());
    for bits in 0u8..16 {
        let (a, b, c, d) = (bits & 8 != 0, bits & 4 != 0, bits & 2 != 0, bits & 1 != 0);
        o.set_status_flags(a, b, c, d);
        assert_eq!(o.status_flags, bits);
        assert_eq!(o.get_status_flags(), (a, b, c, d));
    }
}

#[test]
fn status_flags_overwrite_reserved_bits() {
    let mut o = OctetString::new(1, "flags".to_string());
    o.status_flags = 0xF0;
    o.set_status_flags(true, false, false, true);
    assert_eq!(o.status_flags, 0x09);
    o.status_flags = 0xF4;
    assert_eq!(o.get_status_flags(), (false, true, false, false));
}

#[test]
fn writable_agrees_with_set_property() {
    for p in ALL_PROPERTIES {
        let mut o = OctetString::new(1, "w".to_string());
        let ok = o.set_property(p, value_of_type(p)).is_ok();
        assert_eq!(o.is_property_writable(p), ok);
    }
    let o = OctetString::new(1, "w".to_string());
    assert!(o.is_property_writable(PropertyIdentifier::ObjectName));
    assert!(!o.is_property_writable(PropertyIdentifier::PresentValue));
}

#[test]
fn set_object_name() {
    let mut o = OctetString::new(1, "old".to_string());
    assert_eq!(
        o.set_property(
            PropertyIdentifier::ObjectName,
            PropertyValue::CharacterString("new".to_string())
        ),
        Ok(())
    );
    assert_eq!(o.object_name, "new");
    assert_eq!(
        o.get_property(PropertyIdentifier::ObjectName),
        Ok(PropertyValue::CharacterString("new".to_string()))
    );
}

#[test]
fn rejected_writes_keep_state() {
    let mut o = OctetString::new(5, "keep".to_string());
    o.set_present_value(vec![1, 2]).unwrap();
    o.set_status_flags(false, true, false, false);
    let before = o.clone();

    assert_eq!(
        o.set_property(PropertyIdentifier::PresentValue, PropertyValue::OctetString(vec![3])),
        Err(ObjectError::PropertyNotWritable)
    );
    assert_same_state(&o, &before);

    assert_eq!(
        o.set_property(PropertyIdentifier::ObjectName, PropertyValue::Unsigned(3)),
        Err(ObjectError::InvalidPropertyType)
    );
    assert_same_state(&o, &before);

    assert_eq!(
        o.set_property(PropertyIdentifier::ObjectName, PropertyValue::OctetString(vec![65])),
        Err(ObjectError::InvalidPropertyType)
    );
    assert_same_state(&o, &before);

    assert!(o.set_present_value(vec![0; 1000]).is_err());
    assert_same_state(&o, &before);
}

#[test]
fn property_list_is_fixed() {
    let o = OctetString::new(1, "list".to_string());
    let expected = vec![
        PropertyIdentifier::ObjectIdentifier,
        PropertyIdentifier::ObjectName,
        PropertyIdentifier::ObjectType,
        PropertyIdentifier::PresentValue,
    ];
    assert_eq!(o.property_list(), expected);
    assert_eq!(o.property_list(), expected);
    let other = OctetString::new(77, "other".to_string());
    assert_eq!(other.property_list(), expected);
}

#[test]
fn read_each_property() {
    let mut o = OctetString::new(12, "reader".to_string());
    o.set_present_value(vec![0xAB]).unwrap();
    assert_eq!(
        o.get_property(PropertyIdentifier::ObjectIdentifier),
        Ok(PropertyValue::ObjectIdentifier(ObjectIdentifier::new(ObjectType::OctetString, 12)))
    );
    assert_eq!(
        o.get_property(PropertyIdentifier::ObjectName),
        Ok(PropertyValue::CharacterString("reader".to_string()))
    );
    assert_eq!(
        o.get_property(PropertyIdentifier::ObjectType),
        Ok(PropertyValue::Enumerated(47))
    );
    assert_eq!(
        o.get_property(PropertyIdentifier::Description),
        Ok(PropertyValue::CharacterString(String::new()))
    );
    assert_eq!(
        o.get_property(PropertyIdentifier::PresentValue),
        Ok(PropertyValue::OctetString(vec![0xAB]))
    );
    assert_eq!(
        o.get_property(PropertyIdentifier::OutOfService),
        Err(ObjectError::UnknownProperty)
    );
}

#[test]
fn read_returns_a_copy() {
    let mut o = OctetString::new(1, "copy".to_string());
    o.set_present_value(vec![1, 2, 3]).unwrap();
    let read = o.get_property(PropertyIdentifier::PresentValue).unwrap();
    o.set_present_value(vec![4]).unwrap();
    assert_eq!(read, PropertyValue::OctetString(vec![1, 2, 3]));
}

#[test]
fn object_type_codes() {
    assert_eq!(ObjectType::AnalogInput.code(), 0);
    assert_eq!(ObjectType::BinaryValue.code(), 5);
    assert_eq!(ObjectType::Device.code(), 8);
    assert_eq!(ObjectType::OctetString.code(), 47);
}

#[test]
fn scenario_create_write_and_oversize() {
    let mut o = OctetString::new(1, "test".to_string());
    assert_eq!(o.identifier(), ObjectIdentifier::new(ObjectType::OctetString, 1));
    assert_eq!(o.set_present_value(vec![1, 2, 3, 4]), Ok(()));
    assert_eq!(
        o.get_property(PropertyIdentifier::PresentValue),
        Ok(PropertyValue::OctetString(vec![1, 2, 3, 4]))
    );
    assert_eq!(
        o.set_present_value(vec![1; 901]),
        Err(BoundedVecError::OversizeData { len: 901, max_len: 900 })
    );
    assert_eq!(o.present_value, vec![1, 2, 3, 4]);
}
