//! Decoding of a sink's property object: its two channel volumes and its mute
//! flag.
use crate::pod::{DecodeError, PodProperty, PodValue, PROP_CHANNEL_VOLUMES, PROP_MUTE};
use vstd::prelude::*;

verus! {

/// The two channel volumes of a stereo sink, as float bit patterns on the
/// server's cubic scale.
#[derive(Debug, Clone, Copy, PartialEq, Eq, Structural)]
pub struct ChannelVolumes {
    pub left: u32,
    pub right: u32,
}

/// What a sink's property object says, where it says it.
#[derive(Debug, Clone, Copy, PartialEq, Eq, Structural)]
pub struct SinkProps {
    pub channel_volumes: Option<ChannelVolumes>,
    pub muted: Option<bool>,
}

/// The effect of one property on what has been decoded so far: the two keys
/// of interest must carry their own kind of value, any other key is ignored.
pub open spec fn sink_props_step(acc: SinkProps, p: PodProperty) -> Result<SinkProps, DecodeError> {
    if p.key == PROP_CHANNEL_VOLUMES {
        match p.value {
            PodValue::FloatArray(v) => if v@.len() == 2 {
                Ok(SinkProps { channel_volumes: Some(ChannelVolumes { left: v@[0], right: v@[1] }), muted: acc.muted })
            } else {
                Err(DecodeError::ChannelVolumesCount)
            },
            _ => Err(DecodeError::ChannelVolumesNotFloatArray),
        }
    } else if p.key == PROP_MUTE {
        match p.value {
            PodValue::Bool(b) => Ok(SinkProps { channel_volumes: acc.channel_volumes, muted: Some(b) }),
            _ => Err(DecodeError::MuteNotBool),
        }
    } else {
        Ok(acc)
    }
}

/// The properties taken in order: the first offending property decides the
/// error, and the last occurrence of a key decides its value.
pub open spec fn sink_props_of(props: Seq<PodProperty>) -> Result<SinkProps, DecodeError>
    decreases props.len(),
{
    if props.len() == 0 {
        Ok(SinkProps { channel_volumes: None, muted: None })
    } else {
        match sink_props_of(props.drop_last()) {
            Ok(acc) => sink_props_step(acc, props.last()),
            Err(e) => Err(e),
        }
    }
}

/// What decoding a value as a sink's property object gives.
pub open spec fn decode_sink_props(v: PodValue) -> Result<SinkProps, DecodeError> {
    match v {
        PodValue::Object(o) => sink_props_of(o.properties@),
        _ => Err(DecodeError::NotAnObject),
    }
}

/// Whether a property is a channel-volume entry that is not an array of
/// exactly two floats.
pub open spec fn is_bad_channel_volumes(p: PodProperty) -> bool {
    p.key == PROP_CHANNEL_VOLUMES && !(p.value matches PodValue::FloatArray(v) && v@.len() == 2)
}

/// A property object without a mute entry, whose channel-volume entries each
/// hold two floats, decodes without error and with no mute flag.
pub proof fn lemma_missing_mute_decodes_to_none(props: Seq<PodProperty>)
    requires
        forall|i: int| 0 <= i < props.len() ==> (#[trigger] props[i]).key != PROP_MUTE,
        forall|i: int| 0 <= i < props.len() ==> !is_bad_channel_volumes(#[trigger] props[i]),
    ensures
        sink_props_of(props) is Ok,
        sink_props_of(props)->Ok_0.muted is None,
    decreases props.len(),
{
    if props.len() > 0 {
        let rest = props.drop_last();
        assert forall|i: int| 0 <= i < rest.len() implies (#[trigger] rest[i]).key != PROP_MUTE by {
            assert(rest[i] == props[i]);
        }
        assert forall|i: int| 0 <= i < rest.len() implies !is_bad_channel_volumes(#[trigger] rest[i]) by {
            assert(rest[i] == props[i]);
        }
        lemma_missing_mute_decodes_to_none(rest);
        assert(props.last() == props[props.len() - 1]);
    }
}

/// A property object with a channel-volume entry that is not an array of
/// exactly two floats (one entry, three entries, another kind of value) fails
/// to decode.
pub proof fn lemma_bad_channel_volumes_is_an_error(props: Seq<PodProperty>, i: int)
    requires
        0 <= i < props.len(),
        is_bad_channel_volumes(props[i]),
    ensures
        sink_props_of(props) is Err,
    decreases props.len(),
{
    if i < props.len() - 1 {
        let rest = props.drop_last();
        assert(rest[i] == props[i]);
        lemma_bad_channel_volumes_is_an_error(rest, i);
    } else {
        assert(props.last() == props[i]);
    }
}

impl SinkProps {
    /// Decodes a sink's property object.
    pub fn try_from(param: &PodValue) -> (r: Result<SinkProps, DecodeError>)
        ensures
            r == decode_sink_props(*param),
    {
        let object = match param {
            PodValue::Object(o) => o,
            _ => return Err(DecodeError::NotAnObject),
        };
        let props = &object.properties;
        assert(decode_sink_props(*param) == sink_props_of(props@));
        let mut acc = SinkProps { channel_volumes: None, muted: None };
        let mut i: usize = 0;
        while i < props.len()
            invariant
                i <= props@.len(),
                decode_sink_props(*param) == sink_props_of(props@),
                sink_props_of(props@.take(i as int)) == Ok::<SinkProps, DecodeError>(acc),
            decreases props@.len() - i,
        {
            let prop = &props[i];
            assert(props@.take(i + 1).drop_last() =~= props@.take(i as int));
            assert(props@.take(i + 1).last() == props@[i as int]);
            if prop.key == PROP_CHANNEL_VOLUMES {
                match &prop.value {
                    PodValue::FloatArray(floats) => {
                        if floats.len() != 2 {
                            proof { Self::lemma_error_persists(props@, i as int + 1, DecodeError::ChannelVolumesCount); }
                            return Err(DecodeError::ChannelVolumesCount);
                        }
                        acc = SinkProps { channel_volumes: Some(ChannelVolumes { left: floats[0], right: floats[1] }), muted: acc.muted };
                    },
                    _ => {
                        proof { Self::lemma_error_persists(props@, i as int + 1, DecodeError::ChannelVolumesNotFloatArray); }
                        return Err(DecodeError::ChannelVolumesNotFloatArray);
                    },
                }
            } else if prop.key == PROP_MUTE {
                match &prop.value {
                    PodValue::Bool(b) => {
                        acc = SinkProps { channel_volumes: acc.channel_volumes, muted: Some(*b) };
                    },
                    _ => {
                        proof { Self::lemma_error_persists(props@, i as int + 1, DecodeError::MuteNotBool); }
                        return Err(DecodeError::MuteNotBool);
                    },
                }
            }
            i = i + 1;
        }
        assert(props@.take(i as int) =~= props@);
        Ok(acc)
    }

    proof fn lemma_error_persists(props: Seq<PodProperty>, n: int, e: DecodeError)
        requires
            0 <= n <= props.len(),
            sink_props_of(props.take(n)) == Err::<SinkProps, DecodeError>(e),
        ensures
            sink_props_of(props) == Err::<SinkProps, DecodeError>(e),
        decreases props.len() - n,
    {
        if n < props.len() {
            assert(props.take(n + 1).drop_last() =~= props.take(n));
            Self::lemma_error_persists(props, n + 1, e);
        } else {
            assert(props.take(n) =~= props);
        }
    }
}

} // verus!
