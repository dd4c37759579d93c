use pipewire_dbus::dbus::{Attribute, DBus, Event};

#[test]
fn identical_volumes_are_announced_once() {
    let mut d = DBus::new();
    assert_eq!(d.handle_event(Event::Volume(40)), Some(Event::Volume(40)));
    assert_eq!(d.handle_event(Event::Volume(40)), None);
    assert_eq!(d.handle_event(Event::Volume(41)), Some(Event::Volume(41)));
    assert_eq!(d.volume(), 41);
}

#[test]
fn identical_mute_flags_are_announced_once() {
    let mut d = DBus::new();
    assert_eq!(d.handle_event(Event::Mute(true)), Some(Event::Mute(true)));
    assert_eq!(d.handle_event(Event::Mute(true)), None);
    assert_eq!(d.handle_event(Event::Mute(false)), Some(Event::Mute(false)));
}

#[test]
fn nothing_observed_reads_as_zero_and_unmuted() {
    let d = DBus::new();
    assert_eq!(d.volume(), 0);
    assert!(!d.muted());
}

#[test]
fn volume_and_mute_are_cached_apart() {
    let mut d = DBus::new();
    assert_eq!(d.set_volume(10), Some(10));
    assert_eq!(d.set_muted(true), Some(true));
    assert_eq!(d.set_volume(10), None);
    assert_eq!(d.set_muted(true), None);
    assert_eq!(d.volume(), 10);
    assert!(d.muted());
}

#[test]
fn attribute_write_announces_changes() {
    let mut a: Attribute<u32> = Attribute::new();
    assert_eq!(a.get(), None);
    assert_eq!(a.write(3), Some(3));
    assert_eq!(a.write(3), None);
    assert_eq!(a.write(4), Some(4));
    assert_eq!(a.get(), Some(4));
}
