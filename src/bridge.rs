//! The audio server's object lifecycle and property callbacks, as decisions
//! on plain values and updates of the registry.
use crate::metadata::same_text;
use crate::pod::{DecodeError, PodValue};
use crate::sink_props::{decode_sink_props, SinkProps};
use crate::store::{other_than, Sink, Store};
use vstd::prelude::*;

verus! {

broadcast use vstd::string::group_string_axioms;

/// The value of the first entry of a property dictionary with this key.
pub open spec fn dict_get(props: Seq<(String, String)>, key: Seq<char>) -> Option<Seq<char>>
    decreases props.len(),
{
    if props.len() == 0 {
        None
    } else if props[0].0@ == key {
        Some(props[0].1@)
    } else {
        dict_get(props.skip(1), key)
    }
}

/// Looks a key up in a property dictionary.
pub fn props_get<'a>(props: &'a Vec<(String, String)>, key: &str) -> (r: Option<&'a String>)
    ensures
        match dict_get(props@, key@) {
            None => r is None,
            Some(v) => r is Some && r->Some_0@ == v,
        },
{
    let mut i: usize = 0;
    assert(props@.skip(0) =~= props@);
    while i < props.len()
        invariant
            i <= props@.len(),
            dict_get(props@, key@) == dict_get(props@.skip(i as int), key@),
        decreases props@.len() - i,
    {
        assert(props@.skip(i as int).skip(1) =~= props@.skip(i + 1));
        if same_text(props[i].0.as_str(), key) {
            return Some(&props[i].1);
        }
        i = i + 1;
    }
    None
}

/// Whether a character is an ASCII decimal digit.
pub open spec fn is_digit(c: char) -> bool {
    '0' <= c && c <= '9'
}

/// The number that a sequence of decimal digits writes.
pub open spec fn digits_value(s: Seq<char>) -> nat
    decreases s.len(),
{
    if s.len() == 0 {
        0
    } else {
        digits_value(s.drop_last()) * 10 + (s.last() as nat - '0' as nat) as nat
    }
}

/// The text after an optional leading plus sign.
pub open spec fn unsigned_part(s: Seq<char>) -> Seq<char> {
    if s.len() > 0 && s[0] == '+' {
        s.skip(1)
    } else {
        s
    }
}

/// Whether every character is a decimal digit.
pub open spec fn all_digits(d: Seq<char>) -> bool {
    forall|i: int| 0 <= i < d.len() ==> is_digit(#[trigger] d[i])
}

/// A decimal number of 32 bits: an optional plus sign, then one digit or
/// more, of a value that fits.
pub open spec fn spec_parse_u32(s: Seq<char>) -> Option<u32> {
    let d = unsigned_part(s);
    if d.len() > 0 && all_digits(d) && digits_value(d) <= u32::MAX {
        Some(digits_value(d) as u32)
    } else {
        None
    }
}

proof fn lemma_digits_value_grows(s: Seq<char>, n: int)
    requires
        0 <= n <= s.len(),
        forall|i: int| 0 <= i < s.len() ==> is_digit(#[trigger] s[i]),
    ensures
        digits_value(s.take(n)) <= digits_value(s),
    decreases s.len() - n,
{
    if n < s.len() {
        lemma_digits_value_grows(s, n + 1);
        assert(s.take(n + 1).drop_last() =~= s.take(n));
    } else {
        assert(s.take(n) =~= s);
    }
}

/// Parses a decimal number of 32 bits.
pub fn parse_u32(s: &str) -> (r: Option<u32>)
    ensures
        r == spec_parse_u32(s@),
{
    let len = s.unicode_len();
    let mut i: usize = 0;
    if len > 0 && s.get_char(0) == '+' {
        i = 1;
    }
    let start = i;
    let ghost d = s@.skip(start as int);
    assert(d =~= unsigned_part(s@));
    if i >= len {
        return None;
    }
    let mut value: u64 = 0;
    while i < len
        invariant
            len == s@.len(),
            d == s@.skip(start as int),
            d == unsigned_part(s@),
            start <= i <= len,
            start < len,
            forall|k: int| 0 <= k < i - start ==> is_digit(#[trigger] d[k]),
            value == digits_value(d.take(i - start)),
            value <= u32::MAX,
        decreases len - i,
    {
        let c = s.get_char(i);
        assert(d[i - start] == c);
        if !('0' <= c && c <= '9') {
            assert(!is_digit(d[i - start]));
            assert(!all_digits(d));
            return None;
        }
        let digit = (c as u32 - '0' as u32) as u64;
        assert(d.take(i - start + 1).drop_last() =~= d.take(i - start));
        value = value * 10 + digit;
        if value > 0xffff_ffff {
            proof {
                let j = i - start + 1;
                assert forall|k: int| 0 <= k < j implies is_digit(#[trigger] d.take(j)[k]) by {}
                if all_digits(d) {
                    lemma_digits_value_grows(d, j);
                }
            }
            return None;
        }
        i = i + 1;
    }
    assert(d.take(len - start) =~= d);
    Some(value as u32)
}

/// What a new global object of the audio server is, by its properties.
#[derive(Debug, PartialEq, Eq)]
pub enum GlobalObject {
    /// The session's default metadata store.
    Metadata,
    /// An audio sink node, with its name and its device.
    AudioSink { name: String, device_id: u32 },
    /// An audio device.
    AudioDevice,
    /// Anything else: not tracked.
    Ignored,
}

/// Why an audio sink could not be tracked.
#[derive(Debug, Clone, Copy, PartialEq, Eq, Structural)]
pub enum ObjectError {
    NoNodeName,
    NoDeviceId,
    DeviceIdNotNumber,
}

/// Whether the properties of a new global object make it an audio sink with
/// this name and device.
pub open spec fn is_sink_of(props: Seq<(String, String)>, r: Result<GlobalObject, ObjectError>) -> bool {
    match dict_get(props, "node.name"@) {
        None => r == Err::<GlobalObject, ObjectError>(ObjectError::NoNodeName),
        Some(name) => match dict_get(props, "device.id"@) {
            None => r == Err::<GlobalObject, ObjectError>(ObjectError::NoDeviceId),
            Some(text) => match spec_parse_u32(text) {
                None => r == Err::<GlobalObject, ObjectError>(ObjectError::DeviceIdNotNumber),
                Some(id) => r matches Ok(GlobalObject::AudioSink { name: n, device_id }) && n@ == name
                    && device_id == id,
            },
        },
    }
}

/// Tells from its properties what a new global object is: the default
/// metadata store, an audio sink (which must name itself and its device), an
/// audio device, or something not tracked.
pub fn on_global_object_added(props: &Vec<(String, String)>) -> (r: Result<GlobalObject, ObjectError>)
    ensures
        if dict_get(props@, "metadata.name"@) == Some("default"@) {
            r == Ok::<GlobalObject, ObjectError>(GlobalObject::Metadata)
        } else if dict_get(props@, "media.class"@) == Some("Audio/Sink"@) {
            is_sink_of(props@, r)
        } else if dict_get(props@, "media.class"@) == Some("Audio/Device"@) {
            r == Ok::<GlobalObject, ObjectError>(GlobalObject::AudioDevice)
        } else {
            r == Ok::<GlobalObject, ObjectError>(GlobalObject::Ignored)
        },
{
    if let Some(v) = props_get(props, "metadata.name") {
        if same_text(v.as_str(), "default") {
            return Ok(GlobalObject::Metadata);
        }
    }
    let class = props_get(props, "media.class");
    if let Some(c) = class {
        if same_text(c.as_str(), "Audio/Sink") {
            let name = match props_get(props, "node.name") {
                Some(n) => n,
                None => return Err(ObjectError::NoNodeName),
            };
            let text = match props_get(props, "device.id") {
                Some(t) => t,
                None => return Err(ObjectError::NoDeviceId),
            };
            let device_id = match parse_u32(text.as_str()) {
                Some(id) => id,
                None => return Err(ObjectError::DeviceIdNotNumber),
            };
            return Ok(GlobalObject::AudioSink { name: name.clone(), device_id });
        }
        if same_text(c.as_str(), "Audio/Device") {
            return Ok(GlobalObject::AudioDevice);
        }
    }
    Ok(GlobalObject::Ignored)
}

/// Binds the default metadata store with the subscription to its properties.
pub fn on_metadata_object_added<M, N, D, L>(store: &mut Store<M, N, D, L>, id: u32, metadata: M, listener: L)
    ensures
        final(store).metadata() == old(store).metadata().insert(id, metadata),
        final(store).listener_seqs() == old(store).listeners_with(id, listener),
        final(store).listeners().dom() == old(store).listeners().dom().insert(id),
        final(store).sinks() == old(store).sinks(),
        final(store).devices() == old(store).devices(),
        final(store).routes() == old(store).routes(),
        final(store).default_sink() == old(store).default_sink(),
{
    store.add_metadata(id, metadata);
    store.add_listener(id, listener);
}

/// Binds an audio sink with the subscription to its properties.
pub fn on_audio_sink_added<M, N, D, L>(store: &mut Store<M, N, D, L>, id: u32, node: N, name: String, device_id: u32, listener: L)
    requires
        old(store).wf(),
    ensures
        final(store).wf(),
        final(store).sinks() == old(store).sinks().filter(other_than(id)).push(
            Sink { id, name, device_id, node },
        ),
        final(store).listener_seqs() == old(store).listeners_with(id, listener),
        final(store).listeners().dom() == old(store).listeners().dom().insert(id),
        final(store).metadata() == old(store).metadata(),
        final(store).devices() == old(store).devices(),
        final(store).routes() == old(store).routes(),
        final(store).default_sink() == old(store).default_sink(),
{
    store.add_sink(id, node, name, device_id);
    store.add_listener(id, listener);
}

/// Reads a property change of the sink `id`. Only the default sink is
/// followed: for any other, nothing is read.
pub fn on_audio_sink_prop_changed<M, N, D, L>(store: &Store<M, N, D, L>, id: u32, param: &PodValue) -> (r: Result<Option<SinkProps>, DecodeError>)
    ensures
        !store.spec_is_default_sink(id) ==> r == Ok::<Option<SinkProps>, DecodeError>(None),
        store.spec_is_default_sink(id) ==> r == match decode_sink_props(*param) {
            Ok(p) => Ok(Some(p)),
            Err(e) => Err(e),
        },
{
    if !store.is_default_sink(id) {
        return Ok(None);
    }
    let props = SinkProps::try_from(param)?;
    Ok(Some(props))
}

/// Drops an object that the audio server removed.
pub fn on_global_object_removed<M, N, D, L>(store: &mut Store<M, N, D, L>, id: u32)
    requires
        old(store).wf(),
    ensures
        final(store).wf(),
        final(store).metadata() == old(store).metadata().remove(id),
        final(store).sinks() == old(store).sinks().filter(other_than(id)),
        final(store).devices() == old(store).devices().remove(id),
        final(store).routes() == old(store).routes().remove(id),
        final(store).listeners() == old(store).listeners().remove(id),
        final(store).default_sink() == old(store).default_sink(),
{
    store.remove(id);
}

} // verus!
