//! Devices: binding them, and tracking the route each one reports.
use crate::pod::{DecodeError, PodProperty, PodValue, ROUTE_DEVICE, ROUTE_INDEX};
use crate::store::{Route, Store};
use vstd::prelude::*;

verus! {

/// The effect of one property on the route fields decoded so far.
pub open spec fn route_step(acc: (Option<i32>, Option<i32>), p: PodProperty) -> Result<
    (Option<i32>, Option<i32>),
    DecodeError,
> {
    if p.key == ROUTE_INDEX {
        match p.value {
            PodValue::Int(n) => Ok((Some(n), acc.1)),
            _ => Err(DecodeError::RouteIndexNotInt),
        }
    } else if p.key == ROUTE_DEVICE {
        match p.value {
            PodValue::Int(n) => Ok((acc.0, Some(n))),
            _ => Err(DecodeError::RouteDeviceNotInt),
        }
    } else {
        Ok(acc)
    }
}

/// The route fields of a property sequence, taken in order: the first
/// offending property decides the error, the last occurrence of a key its value.
pub open spec fn route_fields_of(props: Seq<PodProperty>) -> Result<
    (Option<i32>, Option<i32>),
    DecodeError,
>
    decreases props.len(),
{
    if props.len() == 0 {
        Ok((None, None))
    } else {
        match route_fields_of(props.drop_last()) {
            Ok(acc) => route_step(acc, props.last()),
            Err(e) => Err(e),
        }
    }
}

/// What decoding a value as a route parameter gives: both the index and the
/// device must be present.
pub open spec fn spec_decode_route(v: PodValue) -> Result<Route, DecodeError> {
    match v {
        PodValue::Object(o) => match route_fields_of(o.properties@) {
            Err(e) => Err(e),
            Ok((None, _)) => Err(DecodeError::MissingRouteIndex),
            Ok((Some(_), None)) => Err(DecodeError::MissingRouteDevice),
            Ok((Some(index), Some(device))) => Ok(Route { index, device }),
        },
        _ => Err(DecodeError::NotAnObject),
    }
}

proof fn lemma_route_error_persists(props: Seq<PodProperty>, n: int, e: DecodeError)
    requires
        0 <= n <= props.len(),
        route_fields_of(props.take(n)) == Err::<(Option<i32>, Option<i32>), DecodeError>(e),
    ensures
        route_fields_of(props) == Err::<(Option<i32>, Option<i32>), DecodeError>(e),
    decreases props.len() - n,
{
    if n < props.len() {
        assert(props.take(n + 1).drop_last() =~= props.take(n));
        lemma_route_error_persists(props, n + 1, e);
    } else {
        assert(props.take(n) =~= props);
    }
}

/// Decodes a device's route parameter.
pub fn decode_route(param: &PodValue) -> (r: Result<Route, DecodeError>)
    ensures
        r == spec_decode_route(*param),
{
    let object = match param {
        PodValue::Object(o) => o,
        _ => return Err(DecodeError::NotAnObject),
    };
    let props = &object.properties;
    let mut route_index: Option<i32> = None;
    let mut route_device: Option<i32> = None;
    let mut i: usize = 0;
    while i < props.len()
        invariant
            i <= props@.len(),
            spec_decode_route(*param) == match route_fields_of(props@) {
                Err(e) => Err(e),
                Ok((None, _)) => Err(DecodeError::MissingRouteIndex),
                Ok((Some(_), None)) => Err(DecodeError::MissingRouteDevice),
                Ok((Some(index), Some(device))) => Ok(Route { index, device }),
            },
            route_fields_of(props@.take(i as int)) == Ok::<
                (Option<i32>, Option<i32>),
                DecodeError,
            >((route_index, route_device)),
        decreases props@.len() - i,
    {
        let prop = &props[i];
        assert(props@.take(i + 1).drop_last() =~= props@.take(i as int));
        assert(props@.take(i + 1).last() == props@[i as int]);
        if prop.key == ROUTE_INDEX {
            match &prop.value {
                PodValue::Int(n) => {
                    route_index = Some(*n);
                },
                _ => {
                    proof {
                        lemma_route_error_persists(props@, i + 1, DecodeError::RouteIndexNotInt);
                    }
                    return Err(DecodeError::RouteIndexNotInt);
                },
            }
        } else if prop.key == ROUTE_DEVICE {
            match &prop.value {
                PodValue::Int(n) => {
                    route_device = Some(*n);
                },
                _ => {
                    proof {
                        lemma_route_error_persists(props@, i + 1, DecodeError::RouteDeviceNotInt);
                    }
                    return Err(DecodeError::RouteDeviceNotInt);
                },
            }
        }
        i = i + 1;
    }
    assert(props@.take(i as int) =~= props@);
    let index = match route_index {
        Some(n) => n,
        None => return Err(DecodeError::MissingRouteIndex),
    };
    let device = match route_device {
        Some(n) => n,
        None => return Err(DecodeError::MissingRouteDevice),
    };
    Ok(Route { index, device })
}

/// Device events.
pub struct AudioDevice;

impl AudioDevice {
    /// Binds a new device with the subscription that reports its routes.
    pub fn added<M, N, D, L>(store: &mut Store<M, N, D, L>, device_id: u32, device: D, listener: L)
        ensures
            final(store).devices() == old(store).devices().insert(device_id, device),
            final(store).listener_seqs() == old(store).listeners_with(device_id, listener),
            final(store).listeners().dom() == old(store).listeners().dom().insert(device_id),
            final(store).metadata() == old(store).metadata(),
            final(store).sinks() == old(store).sinks(),
            final(store).routes() == old(store).routes(),
            final(store).default_sink() == old(store).default_sink(),
    {
        store.add_device(device_id, device);
        store.add_listener(device_id, listener);
    }

    /// Records the route that a device's route parameter reports. A parameter
    /// that does not decode changes nothing.
    pub fn route_changed<M, N, D, L>(store: &mut Store<M, N, D, L>, device_id: u32, param: &PodValue) -> (r: Result<Route, DecodeError>)
        ensures
            r == spec_decode_route(*param),
            r is Ok ==> final(store).routes() == old(store).routes().insert(device_id, r->Ok_0),
            r is Err ==> final(store).routes() == old(store).routes(),
            final(store).metadata() == old(store).metadata(),
            final(store).sinks() == old(store).sinks(),
            final(store).devices() == old(store).devices(),
            final(store).listeners() == old(store).listeners(),
            final(store).default_sink() == old(store).default_sink(),
    {
        let route = decode_route(param)?;
        store.set_route(device_id, route);
        Ok(route)
    }
}

} // verus!
