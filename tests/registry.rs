use pipewire_dbus::audio_device::AudioDevice;
use pipewire_dbus::bridge::{on_audio_sink_added, on_global_object_removed, on_metadata_object_added};
use pipewire_dbus::command::try_dispatch;
use pipewire_dbus::pod::{PodObject, PodProperty, PodValue, ROUTE_DEVICE, ROUTE_INDEX};
use pipewire_dbus::store::{ResolveError, Route, Store};

type Registry = Store<&'static str, &'static str, &'static str, u32>;

fn scenario() -> Registry {
    let mut s = Registry::new();
    s.add_sink(1, "node A", "A".to_string(), 10);
    s.add_device(10, "device 10");
    s.set_route(10, Route { index: 0, device: 0 });
    s.update_default_sink("A".to_string());
    s
}

#[test]
fn resolves_default_device_and_route() {
    let s = scenario();
    assert_eq!(
        s.resolve_default_device_and_route(),
        Ok((&"device 10", Route { index: 0, device: 0 }))
    );
}

#[test]
fn removed_device_breaks_resolution() {
    let mut s = scenario();
    s.remove(10);
    assert_eq!(s.resolve_default_device_and_route(), Err(ResolveError::DeviceNotBound));
}

#[test]
fn each_missing_link_is_reported() {
    let mut s = Registry::new();
    assert_eq!(s.resolve_default_device_and_route(), Err(ResolveError::NoDefaultSink));
    s.update_default_sink("B".to_string());
    s.add_sink(1, "node A", "A".to_string(), 10);
    assert_eq!(s.resolve_default_device_and_route(), Err(ResolveError::UnknownSink));
    s.update_default_sink("A".to_string());
    assert_eq!(s.resolve_default_device_and_route(), Err(ResolveError::DeviceNotBound));
    s.add_device(10, "device 10");
    assert_eq!(s.resolve_default_device_and_route(), Err(ResolveError::NoRoute));
    s.set_route(10, Route { index: 1, device: 2 });
    assert_eq!(
        s.resolve_default_device_and_route(),
        Ok((&"device 10", Route { index: 1, device: 2 }))
    );
}

#[test]
fn removing_the_sink_breaks_resolution() {
    let mut s = scenario();
    s.remove(1);
    assert_eq!(s.resolve_default_device_and_route(), Err(ResolveError::UnknownSink));
    assert!(!s.is_default_sink(1));
}

#[test]
fn removing_an_unknown_id_changes_nothing() {
    let mut s = scenario();
    s.remove(99);
    assert_eq!(
        s.resolve_default_device_and_route(),
        Ok((&"device 10", Route { index: 0, device: 0 }))
    );
    assert!(s.is_default_sink(1));
}

#[test]
fn later_route_replaces_earlier() {
    let mut s = scenario();
    s.set_route(10, Route { index: 5, device: 6 });
    assert_eq!(
        s.resolve_default_device_and_route(),
        Ok((&"device 10", Route { index: 5, device: 6 }))
    );
}

#[test]
fn re_adding_a_sink_replaces_it() {
    let mut s = scenario();
    s.add_sink(1, "node B", "B".to_string(), 10);
    assert!(!s.is_default_sink(1));
    s.update_default_sink("B".to_string());
    assert!(s.is_default_sink(1));
}

#[test]
fn default_sink_follows_the_name() {
    let mut s = scenario();
    s.add_sink(2, "node C", "C".to_string(), 11);
    assert!(s.is_default_sink(1));
    assert!(!s.is_default_sink(2));
    assert!(!s.is_default_sink(3));
    assert_eq!(s.default_sink_name(), Some(&"A".to_string()));
}

#[test]
fn first_added_sink_wins_a_shared_name() {
    let mut s = scenario();
    s.add_sink(2, "node A2", "A".to_string(), 20);
    s.add_device(20, "device 20");
    s.set_route(20, Route { index: 7, device: 7 });
    assert_eq!(
        s.resolve_default_device_and_route(),
        Ok((&"device 10", Route { index: 0, device: 0 }))
    );
}

#[test]
fn removal_drops_listeners() {
    let mut s = Registry::new();
    on_metadata_object_added(&mut s, 4, "metadata", 1);
    s.add_listener(4, 2);
    assert_eq!(s.listener_count(4), 2);
    on_audio_sink_added(&mut s, 5, "node", "A".to_string(), 10, 3);
    assert_eq!(s.listener_count(5), 1);
    on_global_object_removed(&mut s, 4);
    assert_eq!(s.listener_count(4), 0);
    assert_eq!(s.listener_count(5), 1);
}

#[test]
fn route_changed_records_the_route() {
    let mut s = Registry::new();
    s.add_sink(1, "node A", "A".to_string(), 10);
    s.update_default_sink("A".to_string());
    AudioDevice::added(&mut s, 10, "device 10", 8);
    assert_eq!(s.listener_count(10), 1);
    let param = PodValue::Object(PodObject {
        type_: 0,
        id: 0,
        properties: vec![
            PodProperty { key: ROUTE_INDEX, value: PodValue::Int(3) },
            PodProperty { key: ROUTE_DEVICE, value: PodValue::Int(4) },
        ],
    });
    assert_eq!(AudioDevice::route_changed(&mut s, 10, &param), Ok(Route { index: 3, device: 4 }));
    assert_eq!(
        s.resolve_default_device_and_route(),
        Ok((&"device 10", Route { index: 3, device: 4 }))
    );
    let bad = PodValue::Object(PodObject { type_: 0, id: 0, properties: vec![] });
    assert!(AudioDevice::route_changed(&mut s, 10, &bad).is_err());
    assert_eq!(
        s.resolve_default_device_and_route(),
        Ok((&"device 10", Route { index: 3, device: 4 }))
    );
}

#[test]
fn dispatch_without_default_sink_fails() {
    let s = Registry::new();
    assert!(matches!(try_dispatch(&s, None, Some(true)), Err(ResolveError::NoDefaultSink)));
}
