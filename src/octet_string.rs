//! The Octet String Value object type.
use vstd::prelude::*;

use crate::object::{
    BacnetObject, ObjectError, ObjectIdentifier, ObjectType, PropertyIdentifier, PropertyValue,
    PropertyValueView, has_property_type, object_type_code,
};

verus! {

/// The largest present value, in bytes. It keeps a full read of the present
/// value inside one unsegmented APDU of 1024 bytes.
pub const MAX_OCTET_STRING_SIZE: usize = 900;

/// A byte sequence checked to be no longer than `MAX_OCTET_STRING_SIZE`.
pub struct BoundedVec {
    inner: Vec<u8>,
}

#[derive(Clone, Copy, Debug, PartialEq, Eq, Structural)]
pub enum BoundedVecError {
    OversizeData { len: usize, max_len: usize },
}

impl View for BoundedVec {
    type V = Seq<u8>;

    closed spec fn view(&self) -> Seq<u8> {
        self.inner@
    }
}

impl BoundedVec {
    #[verifier::type_invariant]
    spec fn bounded(&self) -> bool {
        self.inner.len() <= MAX_OCTET_STRING_SIZE
    }

    pub fn new(data: Vec<u8>) -> (r: Result<Self, BoundedVecError>)
        ensures
            data@.len() <= MAX_OCTET_STRING_SIZE <==> r is Ok,
            r matches Ok(b) ==> b@ == data@,
            data@.len() > MAX_OCTET_STRING_SIZE ==> r == Err::<BoundedVec, BoundedVecError>(
                BoundedVecError::OversizeData {
                    len: data@.len() as usize,
                    max_len: MAX_OCTET_STRING_SIZE,
                },
            ),
    {
        if data.len() > MAX_OCTET_STRING_SIZE {
            Err(BoundedVecError::OversizeData { len: data.len(), max_len: MAX_OCTET_STRING_SIZE })
        } else {
            Ok(Self { inner: data })
        }
    }

    pub fn len(&self) -> (r: usize)
        ensures
            r == self@.len(),
            r <= MAX_OCTET_STRING_SIZE,
    {
        proof {
            use_type_invariant(self);
        }
        self.inner.len()
    }

    fn into_inner(self) -> (r: Vec<u8>)
        ensures
            r@ == self@,
    {
        self.inner
    }
}

/// The status flags as (in-alarm, fault, overridden, out-of-service):
/// bits 3, 2, 1 and 0 of the status byte.
pub open spec fn status_flags_of(f: u8) -> (bool, bool, bool, bool) {
    ((f / 8) % 2 == 1, (f / 4) % 2 == 1, (f / 2) % 2 == 1, f % 2 == 1)
}

/// `weight` when the flag is set, else nothing.
pub open spec fn flag_weight(set: bool, weight: int) -> int {
    if set {
        weight
    } else {
        0
    }
}

/// The status byte holding the four flags, with every other bit clear.
pub open spec fn pack_status_flags(
    in_alarm: bool,
    fault: bool,
    overridden: bool,
    out_of_service: bool,
) -> int {
    flag_weight(in_alarm, 8) + flag_weight(fault, 4) + flag_weight(overridden, 2) + flag_weight(
        out_of_service,
        1,
    )
}

/// Octet String Value object
#[derive(Debug, Clone)]
pub struct OctetString {
    /// Object identifier R
    pub identifier: ObjectIdentifier,
    /// Object name R
    pub object_name: String,
    /// Description O
    pub description: String,
    /// Present value R (read-only through the property interface)
    pub present_value: Vec<u8>,
    /// Status flags R
    pub status_flags: u8,
}

/// `after` is `before` with its present value replaced by `data`.
pub open spec fn present_value_written(before: OctetString, data: Seq<u8>, after: OctetString) -> bool {
    &&& after.present_value@ == data
    &&& after.identifier == before.identifier
    &&& after.object_name == before.object_name
    &&& after.description == before.description
    &&& after.status_flags == before.status_flags
}

impl OctetString {
    /// The present value is within its bound and no reserved status bit is set.
    pub open spec fn wf(&self) -> bool {
        &&& self.present_value@.len() <= MAX_OCTET_STRING_SIZE
        &&& self.status_flags < 16
    }

    /// create a new Octet String Value object
    pub fn new(instance: u32, object_name: String) -> (r: Self)
        ensures
            r.identifier == (ObjectIdentifier { object_type: ObjectType::OctetString, instance }),
            r.object_name == object_name,
            r.description@ == Seq::<char>::empty(),
            r.present_value@ == Seq::<u8>::empty(),
            r.status_flags == 0,
            r.wf(),
    {
        Self {
            identifier: ObjectIdentifier::new(ObjectType::OctetString, instance),
            object_name,
            description: String::new(),
            present_value: Vec::new(),
            status_flags: 0,
        }
    }

    /// set the present value
    pub fn set_present_value(&mut self, value: Vec<u8>) -> (r: Result<(), BoundedVecError>)
        ensures
            value@.len() <= MAX_OCTET_STRING_SIZE <==> r is Ok,
            r is Ok ==> present_value_written(*old(self), value@, *final(self)),
            value@.len() > MAX_OCTET_STRING_SIZE ==> r == Err::<(), BoundedVecError>(
                BoundedVecError::OversizeData {
                    len: value@.len() as usize,
                    max_len: MAX_OCTET_STRING_SIZE,
                },
            ),
            r is Err ==> *final(self) == *old(self),
            old(self).wf() ==> final(self).wf(),
    {
        let bounded_value = BoundedVec::new(value)?;
        self.present_value = bounded_value.into_inner();
        Ok(())
    }

    pub fn get_status_flags(&self) -> (r: (bool, bool, bool, bool))
        ensures
            r == status_flags_of(self.status_flags),
    {
        let f = self.status_flags;
        assert((f & 0x08 != 0) == ((f / 8) % 2 == 1)) by (bit_vector);
        assert((f & 0x04 != 0) == ((f / 4) % 2 == 1)) by (bit_vector);
        assert((f & 0x02 != 0) == ((f / 2) % 2 == 1)) by (bit_vector);
        assert((f & 0x01 != 0) == (f % 2 == 1)) by (bit_vector);
        (
            (f & 0x08) != 0,  // in_alarm
            (f & 0x04) != 0,  // fault
            (f & 0x02) != 0,  // overridden
            (f & 0x01) != 0,  // out_of_service
        )
    }

    /// Overwrites the whole status byte: the four flags, every other bit clear.
    pub fn set_status_flags(
        &mut self,
        in_alarm: bool,
        fault: bool,
        overridden: bool,
        out_of_service: bool,
    )
        ensures
            final(self).status_flags == pack_status_flags(in_alarm, fault, overridden, out_of_service),
            final(self).identifier == old(self).identifier,
            final(self).object_name == old(self).object_name,
            final(self).description == old(self).description,
            final(self).present_value == old(self).present_value,
            old(self).wf() ==> final(self).wf(),
    {
        let mut flags: u8 = 0;
        if in_alarm {
            assert(0u8 | 0x08u8 == 8u8) by (bit_vector);
            flags = flags | 0x08;
        }
        assert(flags % 8 == 0);
        if fault {
            assert(flags | 0x04 == flags + 4) by (bit_vector)
                requires
                    flags % 8 == 0,
            ;
            flags = flags | 0x04;
        }
        assert(flags % 4 == 0);
        if overridden {
            assert(flags | 0x02 == flags + 2) by (bit_vector)
                requires
                    flags % 4 == 0,
            ;
            flags = flags | 0x02;
        }
        assert(flags % 2 == 0);
        if out_of_service {
            assert(flags | 0x01 == flags + 1) by (bit_vector)
                requires
                    flags % 2 == 0,
            ;
            flags = flags | 0x01;
        }
        self.status_flags = flags;
    }
}

impl BacnetObject for OctetString {
    open spec fn object_id(&self) -> ObjectIdentifier {
        self.identifier
    }

    open spec fn catalog(&self) -> Seq<PropertyIdentifier> {
        seq![
            PropertyIdentifier::ObjectIdentifier,
            PropertyIdentifier::ObjectName,
            PropertyIdentifier::ObjectType,
            PropertyIdentifier::PresentValue,
        ]
    }

    open spec fn read_outcome(&self, p: PropertyIdentifier) -> Result<PropertyValueView, ObjectError> {
        match p {
            PropertyIdentifier::ObjectIdentifier => Ok(
                PropertyValueView::ObjectIdentifier(self.identifier),
            ),
            PropertyIdentifier::ObjectName => Ok(PropertyValueView::CharacterString(self.object_name@)),
            PropertyIdentifier::ObjectType => Ok(
                PropertyValueView::Enumerated(object_type_code(ObjectType::OctetString)),
            ),
            PropertyIdentifier::Description => Ok(PropertyValueView::CharacterString(self.description@)),
            PropertyIdentifier::PresentValue => Ok(PropertyValueView::OctetString(self.present_value@)),
            _ => Err(ObjectError::UnknownProperty),
        }
    }

    open spec fn writable(&self, p: PropertyIdentifier) -> bool {
        p == PropertyIdentifier::ObjectName
    }

    open spec fn write_outcome(&self, p: PropertyIdentifier, v: PropertyValue) -> Result<(), ObjectError> {
        if p != PropertyIdentifier::ObjectName {
            Err(ObjectError::PropertyNotWritable)
        } else if v is CharacterString {
            Ok(())
        } else {
            Err(ObjectError::InvalidPropertyType)
        }
    }

    open spec fn after_write(&self, p: PropertyIdentifier, v: PropertyValue) -> Self {
        match (p, v) {
            (PropertyIdentifier::ObjectName, PropertyValue::CharacterString(name)) => OctetString {
                object_name: name,
                ..*self
            },
            _ => *self,
        }
    }

    fn identifier(&self) -> (r: ObjectIdentifier) {
        self.identifier
    }

    fn get_property(&self, property: PropertyIdentifier) -> (r: Result<PropertyValue, ObjectError>) {
        match property {
            PropertyIdentifier::ObjectIdentifier => Ok(PropertyValue::ObjectIdentifier(self.identifier)),
            PropertyIdentifier::ObjectName => Ok(
                PropertyValue::CharacterString(self.object_name.clone()),
            ),
            PropertyIdentifier::ObjectType => Ok(PropertyValue::Enumerated(ObjectType::OctetString.code())),
            PropertyIdentifier::Description => Ok(
                PropertyValue::CharacterString(self.description.clone()),
            ),
            PropertyIdentifier::PresentValue => {
                let v = self.present_value.clone();
                assert(v@ =~= self.present_value@);
                Ok(PropertyValue::OctetString(v))
            },
            _ => Err(ObjectError::UnknownProperty),
        }
    }

    fn set_property(&mut self, property: PropertyIdentifier, value: PropertyValue) -> (r: Result<
        (),
        ObjectError,
    >) {
        match property {
            PropertyIdentifier::ObjectName => {
                if let PropertyValue::CharacterString(name) = value {
                    self.object_name = name;
                    Ok(())
                } else {
                    Err(ObjectError::InvalidPropertyType)
                }
            },
            _ => Err(ObjectError::PropertyNotWritable),
        }
    }

    fn is_property_writable(&self, property: PropertyIdentifier) -> (r: bool) {
        matches!(property, PropertyIdentifier::ObjectName)
    }

    fn property_list(&self) -> (r: Vec<PropertyIdentifier>) {
        let r = vec![
            PropertyIdentifier::ObjectIdentifier,
            PropertyIdentifier::ObjectName,
            PropertyIdentifier::ObjectType,
            PropertyIdentifier::PresentValue,
        ];
        assert(r@ =~= self.catalog());
        r
    }
}


/// Writing the four status flags and reading them back gives the same four flags.
pub proof fn lemma_status_flags_round_trip(
    in_alarm: bool,
    fault: bool,
    overridden: bool,
    out_of_service: bool,
)
    ensures
        0 <= pack_status_flags(in_alarm, fault, overridden, out_of_service) < 16,
        status_flags_of(pack_status_flags(in_alarm, fault, overridden, out_of_service) as u8) == (
            in_alarm,
            fault,
            overridden,
            out_of_service,
        ),
{
}

/// After a successful write of the present value, reading the present value
/// yields an octet string holding exactly the bytes written.
pub proof fn lemma_present_value_round_trip(before: OctetString, data: Seq<u8>, after: OctetString)
    requires
        present_value_written(before, data, after),
    ensures
        after.read_outcome(PropertyIdentifier::PresentValue) == Ok::<PropertyValueView, ObjectError>(
            PropertyValueView::OctetString(data),
        ),
{
}

/// With a value of the property's own type, a write succeeds exactly when the
/// property is reported writable.
pub proof fn lemma_writable_iff_write_succeeds(o: OctetString, p: PropertyIdentifier, v: PropertyValue)
    requires
        has_property_type(p, v),
    ensures
        o.write_outcome(p, v) is Ok <==> o.writable(p),
{
}

/// A refused property write leaves every field of the object as it was.
pub proof fn lemma_rejected_write_keeps_state(o: OctetString, p: PropertyIdentifier, v: PropertyValue)
    requires
        o.write_outcome(p, v) is Err,
    ensures
        o.after_write(p, v) == o,
{
}

/// The property list is the same four identifiers, in the same order, for
/// every object of this type and at every call.
pub proof fn lemma_property_list_fixed(a: OctetString, b: OctetString)
    ensures
        a.catalog() == b.catalog(),
        a.catalog() == seq![
            PropertyIdentifier::ObjectIdentifier,
            PropertyIdentifier::ObjectName,
            PropertyIdentifier::ObjectType,
            PropertyIdentifier::PresentValue,
        ],
{
}

} // verus!
