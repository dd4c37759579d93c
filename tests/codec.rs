use pipewire_dbus::audio_device::decode_route;
use pipewire_dbus::command::encode_route_props;
use pipewire_dbus::pod::{
    DecodeError, PodObject, PodProperty, PodValue, OBJECT_PARAM_PROPS, OBJECT_PARAM_ROUTE,
    PARAM_ROUTE, PROP_CHANNEL_VOLUMES, PROP_MUTE, ROUTE_DEVICE, ROUTE_INDEX, ROUTE_PROPS,
};
use pipewire_dbus::sink_props::{ChannelVolumes, SinkProps};
use pipewire_dbus::store::Route;

fn object(properties: Vec<PodProperty>) -> PodValue {
    PodValue::Object(PodObject { type_: OBJECT_PARAM_PROPS, id: 2, properties })
}

fn prop(key: u32, value: PodValue) -> PodProperty {
    PodProperty { key, value }
}

fn volumes(values: &[f32]) -> PodValue {
    PodValue::FloatArray(values.iter().map(|v| v.to_bits()).collect())
}

#[test]
fn sink_props_without_mute_key() {
    let v = object(vec![prop(PROP_CHANNEL_VOLUMES, volumes(&[0.5, 0.25]))]);
    let p = SinkProps::try_from(&v).unwrap();
    assert_eq!(p.muted, None);
    assert_eq!(
        p.channel_volumes,
        Some(ChannelVolumes { left: 0.5f32.to_bits(), right: 0.25f32.to_bits() })
    );
}

#[test]
fn sink_props_with_one_channel_is_an_error() {
    let v = object(vec![prop(PROP_CHANNEL_VOLUMES, volumes(&[0.5]))]);
    assert_eq!(SinkProps::try_from(&v), Err(DecodeError::ChannelVolumesCount));
}

#[test]
fn sink_props_with_three_channels_is_an_error() {
    let v = object(vec![prop(PROP_CHANNEL_VOLUMES, volumes(&[0.5, 0.5, 0.5]))]);
    assert_eq!(SinkProps::try_from(&v), Err(DecodeError::ChannelVolumesCount));
}

#[test]
fn sink_props_with_empty_object() {
    let p = SinkProps::try_from(&object(vec![])).unwrap();
    assert_eq!(p, SinkProps { channel_volumes: None, muted: None });
}

#[test]
fn sink_props_type_mismatches() {
    let v = object(vec![prop(PROP_CHANNEL_VOLUMES, PodValue::Float(0.5f32.to_bits()))]);
    assert_eq!(SinkProps::try_from(&v), Err(DecodeError::ChannelVolumesNotFloatArray));
    let v = object(vec![prop(PROP_MUTE, PodValue::Int(1))]);
    assert_eq!(SinkProps::try_from(&v), Err(DecodeError::MuteNotBool));
    assert_eq!(SinkProps::try_from(&PodValue::Int(3)), Err(DecodeError::NotAnObject));
}

#[test]
fn sink_props_first_offending_key_decides_the_error() {
    let v = object(vec![
        prop(PROP_MUTE, PodValue::Other),
        prop(PROP_CHANNEL_VOLUMES, volumes(&[0.5])),
    ]);
    assert_eq!(SinkProps::try_from(&v), Err(DecodeError::MuteNotBool));
}

#[test]
fn sink_props_ignore_unknown_keys_and_keep_last_value() {
    let v = object(vec![
        prop(7, PodValue::Other),
        prop(PROP_MUTE, PodValue::Bool(true)),
        prop(PROP_CHANNEL_VOLUMES, volumes(&[1.0, 1.0])),
        prop(PROP_MUTE, PodValue::Bool(false)),
    ]);
    let p = SinkProps::try_from(&v).unwrap();
    assert_eq!(p.muted, Some(false));
    assert_eq!(
        p.channel_volumes,
        Some(ChannelVolumes { left: 1.0f32.to_bits(), right: 1.0f32.to_bits() })
    );
}

#[test]
fn route_decodes_index_and_device() {
    let v = object(vec![
        prop(ROUTE_INDEX, PodValue::Int(2)),
        prop(5, PodValue::Bool(true)),
        prop(ROUTE_DEVICE, PodValue::Int(4)),
    ]);
    assert_eq!(decode_route(&v), Ok(Route { index: 2, device: 4 }));
}

#[test]
fn route_errors() {
    let v = object(vec![prop(ROUTE_DEVICE, PodValue::Int(4))]);
    assert_eq!(decode_route(&v), Err(DecodeError::MissingRouteIndex));
    let v = object(vec![prop(ROUTE_INDEX, PodValue::Int(4))]);
    assert_eq!(decode_route(&v), Err(DecodeError::MissingRouteDevice));
    let v = object(vec![prop(ROUTE_INDEX, PodValue::Bool(false))]);
    assert_eq!(decode_route(&v), Err(DecodeError::RouteIndexNotInt));
    let v = object(vec![prop(ROUTE_INDEX, PodValue::Int(1)), prop(ROUTE_DEVICE, PodValue::Other)]);
    assert_eq!(decode_route(&v), Err(DecodeError::RouteDeviceNotInt));
    assert_eq!(decode_route(&PodValue::Other), Err(DecodeError::NotAnObject));
}

fn nested(v: &PodValue) -> &PodValue {
    match v {
        PodValue::Object(o) => &o.properties[2].value,
        _ => panic!("not an object"),
    }
}

#[test]
fn encode_then_decode_round_trip() {
    let route = Route { index: 3, device: 9 };
    let bits = 0.125f32.to_bits();
    let cases = [
        (Some(bits), Some(true)),
        (Some(bits), None),
        (None, Some(false)),
        (None, None),
    ];
    for (volume, muted) in cases {
        let v = encode_route_props(route, volume, muted);
        assert_eq!(decode_route(&v), Ok(route));
        let p = SinkProps::try_from(nested(&v)).unwrap();
        assert_eq!(p.channel_volumes, volume.map(|b| ChannelVolumes { left: b, right: b }));
        assert_eq!(p.muted, muted);
    }
}

#[test]
fn encode_builds_the_route_object() {
    let v = encode_route_props(Route { index: 1, device: 2 }, None, Some(true));
    match &v {
        PodValue::Object(o) => {
            assert_eq!(o.type_, OBJECT_PARAM_ROUTE);
            assert_eq!(o.id, PARAM_ROUTE);
            assert_eq!(o.properties.len(), 3);
            assert_eq!(o.properties[2].key, ROUTE_PROPS);
            match &o.properties[2].value {
                PodValue::Object(p) => {
                    assert_eq!(p.type_, OBJECT_PARAM_PROPS);
                    assert_eq!(p.properties.len(), 1);
                    assert_eq!(p.properties[0].key, PROP_MUTE);
                }
                _ => panic!("no nested object"),
            }
        }
        _ => panic!("not an object"),
    }
}
