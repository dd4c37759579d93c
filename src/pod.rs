//! The audio server's self-describing property objects, as a closed set of
//! tagged values. Single-precision floats are carried as their IEEE-754 bit
//! patterns; the property codec only moves them, it never computes with them.
use vstd::prelude::*;

verus! {

/// Object type of a route parameter.
pub const OBJECT_PARAM_ROUTE: u32 = 0x40009;

/// Object type of a property set.
pub const OBJECT_PARAM_PROPS: u32 = 0x40002;

/// Parameter id of a route.
pub const PARAM_ROUTE: u32 = 13;

/// Route property: index of the route.
pub const ROUTE_INDEX: u32 = 1;

/// Route property: device of the route.
pub const ROUTE_DEVICE: u32 = 3;

/// Route property: nested property object applied to the route.
pub const ROUTE_PROPS: u32 = 10;

/// Audio property: mute flag.
pub const PROP_MUTE: u32 = 0x10004;

/// Audio property: per-channel volumes, on the server's cubic scale.
pub const PROP_CHANNEL_VOLUMES: u32 = 0x10008;

/// A value of a property object.
pub enum PodValue {
    Int(i32),
    Bool(bool),
    /// Bit pattern of a single-precision float.
    Float(u32),
    /// Bit patterns of an array of single-precision floats.
    FloatArray(Vec<u32>),
    Object(PodObject),
    /// Any kind of value that this library does not read.
    Other,
}

/// An object: a type, an id and a sequence of keyed properties.
pub struct PodObject {
    pub type_: u32,
    pub id: u32,
    pub properties: Vec<PodProperty>,
}

/// One keyed property of an object.
pub struct PodProperty {
    pub key: u32,
    pub value: PodValue,
}

} // verus!

verus! {

/// Why a property object could not be decoded.
#[derive(Debug, Clone, Copy, PartialEq, Eq, Structural)]
pub enum DecodeError {
    /// The value is not an object.
    NotAnObject,
    /// The channel volumes are not an array of floats.
    ChannelVolumesNotFloatArray,
    /// The channel volumes do not hold exactly two entries.
    ChannelVolumesCount,
    /// The mute flag is not a boolean.
    MuteNotBool,
    /// The route index is not an integer.
    RouteIndexNotInt,
    /// The route device is not an integer.
    RouteDeviceNotInt,
    /// The route object has no index.
    MissingRouteIndex,
    /// The route object has no device.
    MissingRouteDevice,
}

} // verus!
