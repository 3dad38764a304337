//! The property-access model shared by every BACnet object type.
use vstd::prelude::*;

verus! {

/// The BACnet object types this library knows about.
#[derive(Clone, Copy, Debug, PartialEq, Eq, Structural, Hash)]
pub enum ObjectType {
    AnalogInput,
    AnalogOutput,
    AnalogValue,
    BinaryInput,
    BinaryOutput,
    BinaryValue,
    Device,
    MultiStateValue,
    OctetString,
}

/// The standard enumeration code of an object type.
pub open spec fn object_type_code(t: ObjectType) -> u32 {
    match t {
        ObjectType::AnalogInput => 0,
        ObjectType::AnalogOutput => 1,
        ObjectType::AnalogValue => 2,
        ObjectType::BinaryInput => 3,
        ObjectType::BinaryOutput => 4,
        ObjectType::BinaryValue => 5,
        ObjectType::Device => 8,
        ObjectType::MultiStateValue => 19,
        ObjectType::OctetString => 47,
    }
}

impl ObjectType {
    /// The enumeration code carried on the wire for this object type.
    pub fn code(self) -> (r: u32)
        ensures
            r == object_type_code(self),
    {
        match self {
            ObjectType::AnalogInput => 0,
            ObjectType::AnalogOutput => 1,
            ObjectType::AnalogValue => 2,
            ObjectType::BinaryInput => 3,
            ObjectType::BinaryOutput => 4,
            ObjectType::BinaryValue => 5,
            ObjectType::Device => 8,
            ObjectType::MultiStateValue => 19,
            ObjectType::OctetString => 47,
        }
    }
}

/// Identifies one object within a device: its type and its instance number.
#[derive(Clone, Copy, Debug, PartialEq, Eq, Structural, Hash)]
pub struct ObjectIdentifier {
    pub object_type: ObjectType,
    pub instance: u32,
}

impl ObjectIdentifier {
    pub fn new(object_type: ObjectType, instance: u32) -> (r: Self)
        ensures
            r.object_type == object_type,
            r.instance == instance,
    {
        ObjectIdentifier { object_type, instance }
    }
}

/// The properties an object may be asked about.
#[derive(Clone, Copy, Debug, PartialEq, Eq, Structural, Hash)]
pub enum PropertyIdentifier {
    ObjectIdentifier,
    ObjectName,
    ObjectType,
    Description,
    PresentValue,
    OutOfService,
}

/// A property value, tagged with its application data type.
#[derive(Clone, Debug, PartialEq, Eq)]
pub enum PropertyValue {
    Null,
    Boolean(bool),
    Unsigned(u32),
    Enumerated(u32),
    CharacterString(String),
    OctetString(Vec<u8>),
    ObjectIdentifier(ObjectIdentifier),
}

/// The mathematical content of a `PropertyValue`.
pub enum PropertyValueView {
    Null,
    Boolean(bool),
    Unsigned(u32),
    Enumerated(u32),
    CharacterString(Seq<char>),
    OctetString(Seq<u8>),
    ObjectIdentifier(ObjectIdentifier),
}

impl View for PropertyValue {
    type V = PropertyValueView;

    open spec fn view(&self) -> PropertyValueView {
        match self {
            PropertyValue::Null => PropertyValueView::Null,
            PropertyValue::Boolean(b) => PropertyValueView::Boolean(*b),
            PropertyValue::Unsigned(u) => PropertyValueView::Unsigned(*u),
            PropertyValue::Enumerated(e) => PropertyValueView::Enumerated(*e),
            PropertyValue::CharacterString(s) => PropertyValueView::CharacterString(s@),
            PropertyValue::OctetString(o) => PropertyValueView::OctetString(o@),
            PropertyValue::ObjectIdentifier(id) => PropertyValueView::ObjectIdentifier(*id),
        }
    }
}

/// Whether `v` carries the application data type that property `p` is defined with.
pub open spec fn has_property_type(p: PropertyIdentifier, v: PropertyValue) -> bool {
    match p {
        PropertyIdentifier::ObjectIdentifier => v is ObjectIdentifier,
        PropertyIdentifier::ObjectName => v is CharacterString,
        PropertyIdentifier::ObjectType => v is Enumerated,
        PropertyIdentifier::Description => v is CharacterString,
        PropertyIdentifier::PresentValue => v is OctetString,
        PropertyIdentifier::OutOfService => v is Boolean,
    }
}

/// Why a property access was refused.
#[derive(Clone, Copy, Debug, PartialEq, Eq, Structural)]
pub enum ObjectError {
    /// The property is not in this object type's catalog.
    UnknownProperty,
    /// The supplied value does not carry the property's data type.
    InvalidPropertyType,
    /// The property exists but cannot be written.
    PropertyNotWritable,
}

/// The view of a property read's outcome.
pub open spec fn read_result_view(r: Result<PropertyValue, ObjectError>) -> Result<
    PropertyValueView,
    ObjectError,
> {
    match r {
        Ok(v) => Ok(v@),
        Err(e) => Err(e),
    }
}

/// The uniform property-access contract that every object type meets.
pub trait BacnetObject: Sized {
    /// The object's identity.
    spec fn object_id(&self) -> ObjectIdentifier;

    /// The properties the object exposes, in their fixed order.
    spec fn catalog(&self) -> Seq<PropertyIdentifier>;

    /// What reading property `p` yields.
    spec fn read_outcome(&self, p: PropertyIdentifier) -> Result<PropertyValueView, ObjectError>;

    /// Whether property `p` can be written.
    spec fn writable(&self, p: PropertyIdentifier) -> bool;

    /// What writing `v` to property `p` returns.
    spec fn write_outcome(&self, p: PropertyIdentifier, v: PropertyValue) -> Result<(), ObjectError>;

    /// The object after writing `v` to property `p`.
    spec fn after_write(&self, p: PropertyIdentifier, v: PropertyValue) -> Self;

    fn identifier(&self) -> (r: ObjectIdentifier)
        ensures
            r == self.object_id(),
    ;

    fn get_property(&self, property: PropertyIdentifier) -> (r: Result<PropertyValue, ObjectError>)
        ensures
            read_result_view(r) == self.read_outcome(property),
    ;

    /// Writes are all-or-nothing: a refused write leaves the object as it was,
    /// and a property that is not writable is always refused.
    fn set_property(&mut self, property: PropertyIdentifier, value: PropertyValue) -> (r: Result<
        (),
        ObjectError,
    >)
        ensures
            r == old(self).write_outcome(property, value),
            *final(self) == old(self).after_write(property, value),
            r is Err ==> *final(self) == *old(self),
            !old(self).writable(property) ==> r == Err::<(), ObjectError>(
                ObjectError::PropertyNotWritable,
            ),
            final(self).object_id() == old(self).object_id(),
    ;

    fn is_property_writable(&self, property: PropertyIdentifier) -> (r: bool)
        ensures
            r == self.writable(property),
    ;

    fn property_list(&self) -> (r: Vec<PropertyIdentifier>)
        ensures
            r@ == self.catalog(),
    ;
}

} // verus!
