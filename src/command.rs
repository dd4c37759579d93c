//! Commands to the audio server: the route parameter that sets a device's
//! channel volumes and mute flag, and its dispatch to the default device.
use crate::audio_device::{route_fields_of, spec_decode_route};
use crate::pod::{
    DecodeError, PodObject, PodProperty, PodValue, OBJECT_PARAM_PROPS, OBJECT_PARAM_ROUTE, PARAM_ROUTE,
    PROP_CHANNEL_VOLUMES, PROP_MUTE, ROUTE_DEVICE, ROUTE_INDEX, ROUTE_PROPS,
};
use crate::sink_props::{decode_sink_props, sink_props_of, ChannelVolumes, SinkProps};
use crate::store::{ResolveError, Route, Store};
use vstd::prelude::*;

verus! {

/// Whether `ps` sets both channels to `volume`, where one is given, and then
/// the mute flag, where one is given, and nothing else.
pub open spec fn is_props_sequence(ps: Seq<PodProperty>, volume: Option<u32>, muted: Option<bool>) -> bool {
    &&& ps.len() == (if volume is Some { 1int } else { 0 }) + (if muted is Some { 1int } else { 0 })
    &&& volume is Some ==> {
        &&& ps[0].key == PROP_CHANNEL_VOLUMES
        &&& ps[0].value matches PodValue::FloatArray(a)
        &&& a@ == seq![volume->Some_0, volume->Some_0]
    }
    &&& muted is Some ==> {
        &&& ps.last().key == PROP_MUTE
        &&& ps.last().value == PodValue::Bool(muted->Some_0)
    }
}

/// Whether `v` is the route parameter that applies `volume` and `muted` on
/// `route`: the route's index and device, then a nested property object.
pub open spec fn is_route_command(v: PodValue, route: Route, volume: Option<u32>, muted: Option<bool>) -> bool {
    &&& v matches PodValue::Object(o)
    &&& o.type_ == OBJECT_PARAM_ROUTE
    &&& o.id == PARAM_ROUTE
    &&& o.properties@.len() == 3
    &&& o.properties@[0].key == ROUTE_INDEX
    &&& o.properties@[0].value == PodValue::Int(route.index)
    &&& o.properties@[1].key == ROUTE_DEVICE
    &&& o.properties@[1].value == PodValue::Int(route.device)
    &&& o.properties@[2].key == ROUTE_PROPS
    &&& o.properties@[2].value matches PodValue::Object(p)
    &&& p.type_ == OBJECT_PARAM_PROPS
    &&& p.id == PARAM_ROUTE
    &&& is_props_sequence(p.properties@, volume, muted)
}

/// The value of the third property of an object: where a route command holds
/// its nested property object.
pub open spec fn nested_props(v: PodValue) -> PodValue {
    match v {
        PodValue::Object(o) => if o.properties@.len() > 2 {
            o.properties@[2].value
        } else {
            PodValue::Other
        },
        _ => PodValue::Other,
    }
}

/// The channel volumes that one volume applied to both channels gives.
pub open spec fn both_channels(volume: Option<u32>) -> Option<ChannelVolumes> {
    match volume {
        Some(b) => Some(ChannelVolumes { left: b, right: b }),
        None => None,
    }
}

/// Builds the route parameter that applies `volume` (a float bit pattern on
/// the server's cubic scale, set on both channels) and `muted` on `route`.
/// What is not given is left out of the command.
pub fn encode_route_props(route: Route, volume: Option<u32>, muted: Option<bool>) -> (r: PodValue)
    ensures
        is_route_command(r, route, volume, muted),
{
    let mut props: Vec<PodProperty> = Vec::new();
    if let Some(v) = volume {
        props.push(PodProperty { key: PROP_CHANNEL_VOLUMES, value: PodValue::FloatArray(vec![v, v]) });
    }
    if let Some(m) = muted {
        props.push(PodProperty { key: PROP_MUTE, value: PodValue::Bool(m) });
    }
    let nested = PodObject { type_: OBJECT_PARAM_PROPS, id: PARAM_ROUTE, properties: props };
    let properties = vec![
        PodProperty { key: ROUTE_INDEX, value: PodValue::Int(route.index) },
        PodProperty { key: ROUTE_DEVICE, value: PodValue::Int(route.device) },
        PodProperty { key: ROUTE_PROPS, value: PodValue::Object(nested) },
    ];
    PodValue::Object(PodObject { type_: OBJECT_PARAM_ROUTE, id: PARAM_ROUTE, properties })
}

/// Decoding a route command gives back its route, and decoding its nested
/// property object gives back the volume on both channels and the mute flag:
/// nothing is lost between the encoder and the decoders.
pub proof fn lemma_route_command_round_trip(v: PodValue, route: Route, volume: Option<u32>, muted: Option<bool>)
    requires
        is_route_command(v, route, volume, muted),
    ensures
        spec_decode_route(v) == Ok::<Route, DecodeError>(route),
        decode_sink_props(nested_props(v)) == Ok::<SinkProps, DecodeError>(
            SinkProps { channel_volumes: both_channels(volume), muted },
        ),
{
    let o = v->Object_0;
    let ps = o.properties@;
    assert(ps.take(0) =~= Seq::<PodProperty>::empty());
    assert(ps.take(1).drop_last() =~= ps.take(0));
    assert(ps.take(2).drop_last() =~= ps.take(1));
    assert(ps.take(3).drop_last() =~= ps.take(2));
    assert(ps.take(3) =~= ps);
    assert(route_fields_of(ps.take(0)) == Ok::<(Option<i32>, Option<i32>), DecodeError>((None, None)));
    assert(ps.take(1).last() == ps[0]);
    assert(ps.take(2).last() == ps[1]);
    assert(ps.take(3).last() == ps[2]);
    assert(route_fields_of(ps.take(1)) == Ok::<(Option<i32>, Option<i32>), DecodeError>((Some(route.index), None)));
    assert(route_fields_of(ps.take(2)) == Ok::<(Option<i32>, Option<i32>), DecodeError>((Some(route.index), Some(route.device))));
    assert(route_fields_of(ps) == Ok::<(Option<i32>, Option<i32>), DecodeError>((Some(route.index), Some(route.device))));
    let p = ps[2].value->Object_0;
    let qs = p.properties@;
    assert(qs.take(0) =~= Seq::<PodProperty>::empty());
    assert(sink_props_of(qs.take(0)) == Ok::<SinkProps, DecodeError>(
        SinkProps { channel_volumes: None, muted: None },
    ));
    if qs.len() > 0 {
        assert(qs.take(1).last() == qs[0]);
    }
    if qs.len() > 1 {
        assert(qs.take(2).last() == qs[1]);
    }
    if volume is Some {
        assert(qs.take(1).drop_last() =~= qs.take(0));
        assert(sink_props_of(qs.take(1)) == Ok::<SinkProps, DecodeError>(
            SinkProps { channel_volumes: both_channels(volume), muted: None },
        ));
        if muted is Some {
            assert(qs.take(2).drop_last() =~= qs.take(1));
            assert(qs.take(2) =~= qs);
        } else {
            assert(qs.take(1) =~= qs);
        }
    } else if muted is Some {
        assert(qs.take(1).drop_last() =~= qs.take(0));
        assert(qs.take(1) =~= qs);
    } else {
        assert(qs =~= qs.take(0));
    }
}

/// Resolves the default device and its route, and builds the command that
/// applies `volume` and `muted` there. A missing link in the resolution is
/// returned as is; nothing is built then.
pub fn try_dispatch<'a, M, N, D, L>(store: &'a Store<M, N, D, L>, volume: Option<u32>, muted: Option<bool>) -> (r: Result<(&'a D, PodValue), ResolveError>)
    ensures
        match store.spec_resolve() {
            Err(e) => r == Err::<(&D, PodValue), ResolveError>(e),
            Ok((device, route)) => r is Ok && r->Ok_0.0 == device && is_route_command(r->Ok_0.1, route, volume, muted),
        },
{
    let (device, route) = store.resolve_default_device_and_route()?;
    Ok((device, encode_route_props(route, volume, muted)))
}

} // verus!
