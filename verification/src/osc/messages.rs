//! The message catalog of the AbletonOSC protocol: one builder per operation,
//! each giving the wire address and the typed argument list.

use vstd::prelude::*;
use vstd::string::*;
use crate::number::{Double, Single};

verus! {

/// One typed argument of a protocol message.
#[derive(Debug, Clone, PartialEq, Eq)]
pub enum OscArg {
    /// A 32-bit signed integer; booleans travel as 0 and 1.
    Int(i32),
    /// A 32-bit float.
    Float(Single),
    /// A 64-bit float.
    Double(Double),
    /// A string.
    Str(String),
    /// An argument of a type that this library does not read.
    Other,
}

/// What an argument holds, with text as a sequence of characters.
pub enum OscValue {
    Int(i32),
    Float(Single),
    Double(Double),
    Str(Seq<char>),
    Other,
}

impl View for OscArg {
    type V = OscValue;

    open spec fn view(&self) -> OscValue {
        match *self {
            OscArg::Int(i) => OscValue::Int(i),
            OscArg::Float(x) => OscValue::Float(x),
            OscArg::Double(x) => OscValue::Double(x),
            OscArg::Str(s) => OscValue::Str(s@),
            OscArg::Other => OscValue::Other,
        }
    }
}

/// The values of an argument list, in order.
pub open spec fn values(args: Seq<OscArg>) -> Seq<OscValue> {
    Seq::new(args.len(), |i: int| args[i]@)
}

/// The protocol's integer for a boolean.
pub open spec fn flag(on: bool) -> i32 {
    if on {
        1
    } else {
        0
    }
}

fn flag_arg(on: bool) -> (arg: OscArg)
    ensures
        arg@ == OscValue::Int(flag(on)),
{
    OscArg::Int(if on { 1 } else { 0 })
}

fn text_arg(text: &str) -> (arg: OscArg)
    ensures
        arg@ == OscValue::Str(text@),
{
    OscArg::Str(String::from_str(text))
}

/// Appending an argument appends its value.
pub proof fn lemma_values_push(args: Seq<OscArg>, a: OscArg)
    ensures
        values(args.push(a)) == values(args).push(a@),
{
    assert(values(args.push(a)) =~= values(args).push(a@));
}

fn no_args() -> (args: Vec<OscArg>)
    ensures
        values(args@) == Seq::<OscValue>::empty(),
{
    let args = Vec::new();
    assert(values(args@) =~= Seq::<OscValue>::empty());
    args
}

fn push_arg(args: &mut Vec<OscArg>, a: OscArg)
    ensures
        values(final(args)@) == values(old(args)@).push(a@),
{
    proof {
        lemma_values_push(args@, a);
    }
    args.push(a);
}

fn one_arg(a: OscArg) -> (args: Vec<OscArg>)
    ensures
        values(args@) == seq![a@],
{
    let mut args = no_args();
    push_arg(&mut args, a);
    args
}

fn two_args(a: OscArg, b: OscArg) -> (args: Vec<OscArg>)
    ensures
        values(args@) == seq![a@, b@],
{
    let mut args = one_arg(a);
    push_arg(&mut args, b);
    args
}

/// Typed message builders for the AbletonOSC protocol.
pub struct OscMessages;

impl OscMessages {
    /// Starts playback from the start marker.
    pub fn play() -> (m: (&'static str, Vec<OscArg>))
        ensures
            m.0@ == "/live/song/start_playing"@,
            values(m.1@) == Seq::<OscValue>::empty(),
    {
        ("/live/song/start_playing", no_args())
    }

    /// Stops playback.
    pub fn stop() -> (m: (&'static str, Vec<OscArg>))
        ensures
            m.0@ == "/live/song/stop_playing"@,
            values(m.1@) == Seq::<OscValue>::empty(),
    {
        ("/live/song/stop_playing", no_args())
    }

    /// Resumes playback from the current position.
    pub fn continue_playing() -> (m: (&'static str, Vec<OscArg>))
        ensures
            m.0@ == "/live/song/continue_playing"@,
            values(m.1@) == Seq::<OscValue>::empty(),
    {
        ("/live/song/continue_playing", no_args())
    }

    /// Toggles the record mode of the song.
    pub fn toggle_record() -> (m: (&'static str, Vec<OscArg>))
        ensures
            m.0@ == "/live/song/set/record_mode"@,
            values(m.1@) == Seq::<OscValue>::empty(),
    {
        ("/live/song/set/record_mode", no_args())
    }

    /// Sets the tempo in beats per minute.
    pub fn set_tempo(bpm: Single) -> (m: (&'static str, Vec<OscArg>))
        ensures
            m.0@ == "/live/song/set/tempo"@,
            values(m.1@) == seq![OscValue::Float(bpm)],
    {
        ("/live/song/set/tempo", one_arg(OscArg::Float(bpm)))
    }

    /// Asks for the tempo.
    pub fn get_tempo() -> (m: (&'static str, Vec<OscArg>))
        ensures
            m.0@ == "/live/song/get/tempo"@,
            values(m.1@) == Seq::<OscValue>::empty(),
    {
        ("/live/song/get/tempo", no_args())
    }

    /// Switches the loop region on or off.
    pub fn set_loop_enabled(enabled: bool) -> (m: (&'static str, Vec<OscArg>))
        ensures
            m.0@ == "/live/song/set/loop"@,
            values(m.1@) == seq![OscValue::Int(flag(enabled))],
    {
        ("/live/song/set/loop", one_arg(flag_arg(enabled)))
    }

    /// Asks whether the song is playing.
    pub fn get_is_playing() -> (m: (&'static str, Vec<OscArg>))
        ensures
            m.0@ == "/live/song/get/is_playing"@,
            values(m.1@) == Seq::<OscValue>::empty(),
    {
        ("/live/song/get/is_playing", no_args())
    }

    /// Asks for the playhead position.
    pub fn get_song_time() -> (m: (&'static str, Vec<OscArg>))
        ensures
            m.0@ == "/live/song/get/current_song_time"@,
            values(m.1@) == Seq::<OscValue>::empty(),
    {
        ("/live/song/get/current_song_time", no_args())
    }

    /// Subscribes to tempo changes.
    pub fn start_listen_tempo() -> (m: (&'static str, Vec<OscArg>))
        ensures
            m.0@ == "/live/song/start_listen/tempo"@,
            values(m.1@) == Seq::<OscValue>::empty(),
    {
        ("/live/song/start_listen/tempo", no_args())
    }

    /// Subscribes to changes of the playing state.
    pub fn start_listen_is_playing() -> (m: (&'static str, Vec<OscArg>))
        ensures
            m.0@ == "/live/song/start_listen/is_playing"@,
            values(m.1@) == Seq::<OscValue>::empty(),
    {
        ("/live/song/start_listen/is_playing", no_args())
    }

    /// Subscribes to beat events.
    pub fn start_listen_beat() -> (m: (&'static str, Vec<OscArg>))
        ensures
            m.0@ == "/live/song/start_listen/beat"@,
            values(m.1@) == Seq::<OscValue>::empty(),
    {
        ("/live/song/start_listen/beat", no_args())
    }

    /// Asks for the number of tracks.
    pub fn get_num_tracks() -> (m: (&'static str, Vec<OscArg>))
        ensures
            m.0@ == "/live/song/get/num_tracks"@,
            values(m.1@) == Seq::<OscValue>::empty(),
    {
        ("/live/song/get/num_tracks", no_args())
    }

    /// Asks for the name, volume, panning, mute, solo, arm and color of the
    /// tracks from `track_min` up to `track_max`.
    pub fn get_track_data(track_min: i32, track_max: i32) -> (m: (&'static str, Vec<OscArg>))
        ensures
            m.0@ == "/live/song/get/track_data"@,
            values(m.1@) == seq![
                OscValue::Int(track_min),
                OscValue::Int(track_max),
                OscValue::Str("track.name"@),
                OscValue::Str("track.volume"@),
                OscValue::Str("track.panning"@),
                OscValue::Str("track.mute"@),
                OscValue::Str("track.solo"@),
                OscValue::Str("track.arm"@),
                OscValue::Str("track.color"@),
            ],
    {
        let mut args = two_args(OscArg::Int(track_min), OscArg::Int(track_max));
        push_arg(&mut args, text_arg("track.name"));
        push_arg(&mut args, text_arg("track.volume"));
        push_arg(&mut args, text_arg("track.panning"));
        push_arg(&mut args, text_arg("track.mute"));
        push_arg(&mut args, text_arg("track.solo"));
        push_arg(&mut args, text_arg("track.arm"));
        push_arg(&mut args, text_arg("track.color"));
        ("/live/song/get/track_data", args)
    }

    /// Sets the volume of a track, as linear gain.
    pub fn set_track_volume(track: i32, vol: Single) -> (m: (&'static str, Vec<OscArg>))
        ensures
            m.0@ == "/live/track/set/volume"@,
            values(m.1@) == seq![OscValue::Int(track), OscValue::Float(vol)],
    {
        ("/live/track/set/volume", two_args(OscArg::Int(track), OscArg::Float(vol)))
    }

    /// Mutes or unmutes a track.
    pub fn set_track_mute(track: i32, mute: bool) -> (m: (&'static str, Vec<OscArg>))
        ensures
            m.0@ == "/live/track/set/mute"@,
            values(m.1@) == seq![OscValue::Int(track), OscValue::Int(flag(mute))],
    {
        ("/live/track/set/mute", two_args(OscArg::Int(track), flag_arg(mute)))
    }

    /// Solos or unsolos a track.
    pub fn set_track_solo(track: i32, solo: bool) -> (m: (&'static str, Vec<OscArg>))
        ensures
            m.0@ == "/live/track/set/solo"@,
            values(m.1@) == seq![OscValue::Int(track), OscValue::Int(flag(solo))],
    {
        ("/live/track/set/solo", two_args(OscArg::Int(track), flag_arg(solo)))
    }

    /// Sets the panning of a track.
    pub fn set_track_pan(track: i32, pan: Single) -> (m: (&'static str, Vec<OscArg>))
        ensures
            m.0@ == "/live/track/set/panning"@,
            values(m.1@) == seq![OscValue::Int(track), OscValue::Float(pan)],
    {
        ("/live/track/set/panning", two_args(OscArg::Int(track), OscArg::Float(pan)))
    }

    /// Subscribes to volume changes of a track.
    pub fn start_listen_track_volume(track: i32) -> (m: (&'static str, Vec<OscArg>))
        ensures
            m.0@ == "/live/track/start_listen/volume"@,
            values(m.1@) == seq![OscValue::Int(track)],
    {
        ("/live/track/start_listen/volume", one_arg(OscArg::Int(track)))
    }

    /// Subscribes to the output meter of a track.
    pub fn start_listen_track_meter(track: i32) -> (m: (&'static str, Vec<OscArg>))
        ensures
            m.0@ == "/live/track/start_listen/output_meter_level"@,
            values(m.1@) == seq![OscValue::Int(track)],
    {
        ("/live/track/start_listen/output_meter_level", one_arg(OscArg::Int(track)))
    }

    /// Launches the clip in a slot.
    pub fn fire_clip(track: i32, scene: i32) -> (m: (&'static str, Vec<OscArg>))
        ensures
            m.0@ == "/live/clip/fire"@,
            values(m.1@) == seq![OscValue::Int(track), OscValue::Int(scene)],
    {
        ("/live/clip/fire", two_args(OscArg::Int(track), OscArg::Int(scene)))
    }

    /// Stops the clip in a slot.
    pub fn stop_clip(track: i32, scene: i32) -> (m: (&'static str, Vec<OscArg>))
        ensures
            m.0@ == "/live/clip/stop"@,
            values(m.1@) == seq![OscValue::Int(track), OscValue::Int(scene)],
    {
        ("/live/clip/stop", two_args(OscArg::Int(track), OscArg::Int(scene)))
    }

    /// Deletes the clip in a slot.
    pub fn delete_clip(track: i32, scene: i32) -> (m: (&'static str, Vec<OscArg>))
        ensures
            m.0@ == "/live/clip_slot/delete_clip"@,
            values(m.1@) == seq![OscValue::Int(track), OscValue::Int(scene)],
    {
        ("/live/clip_slot/delete_clip", two_args(OscArg::Int(track), OscArg::Int(scene)))
    }

    /// Copies the clip in one slot to another slot.
    pub fn duplicate_clip(track: i32, scene: i32, target_track: i32, target_scene: i32) -> (m: (
        &'static str,
        Vec<OscArg>,
    ))
        ensures
            m.0@ == "/live/clip_slot/duplicate_clip_to"@,
            values(m.1@) == seq![
                OscValue::Int(track),
                OscValue::Int(scene),
                OscValue::Int(target_track),
                OscValue::Int(target_scene),
            ],
    {
        let mut args = two_args(OscArg::Int(track), OscArg::Int(scene));
        push_arg(&mut args, OscArg::Int(target_track));
        push_arg(&mut args, OscArg::Int(target_scene));
        ("/live/clip_slot/duplicate_clip_to", args)
    }

    /// Loads an audio file into a clip slot. The control script must carry the
    /// extension that answers this address.
    pub fn load_sample(track: i32, scene: i32, file_path: &str) -> (m: (&'static str, Vec<OscArg>))
        ensures
            m.0@ == "/live/clip_slot/load_sample"@,
            values(m.1@) == seq![
                OscValue::Int(track),
                OscValue::Int(scene),
                OscValue::Str(file_path@),
            ],
    {
        let mut args = two_args(OscArg::Int(track), OscArg::Int(scene));
        push_arg(&mut args, text_arg(file_path));
        ("/live/clip_slot/load_sample", args)
    }

    /// The ping that the control script answers on the same address.
    pub fn test() -> (m: (&'static str, Vec<OscArg>))
        ensures
            m.0@ == "/live/test"@,
            values(m.1@) == Seq::<OscValue>::empty(),
    {
        ("/live/test", no_args())
    }
}

} // verus!
