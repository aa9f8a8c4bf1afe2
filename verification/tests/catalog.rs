use maestro::number::Single;
use maestro::osc::messages::{OscArg, OscMessages};

fn float(x: f32) -> OscArg {
    OscArg::Float(Single::from_bits(x.to_bits()))
}

fn text(s: &str) -> OscArg {
    OscArg::Str(s.to_string())
}

#[test]
fn transport_messages_have_no_arguments() {
    let table: Vec<((&'static str, Vec<OscArg>), &str)> = vec![
        (OscMessages::play(), "/live/song/start_playing"),
        (OscMessages::stop(), "/live/song/stop_playing"),
        (OscMessages::continue_playing(), "/live/song/continue_playing"),
        (OscMessages::toggle_record(), "/live/song/set/record_mode"),
        (OscMessages::get_tempo(), "/live/song/get/tempo"),
        (OscMessages::get_is_playing(), "/live/song/get/is_playing"),
        (OscMessages::get_song_time(), "/live/song/get/current_song_time"),
        (OscMessages::start_listen_tempo(), "/live/song/start_listen/tempo"),
        (OscMessages::start_listen_is_playing(), "/live/song/start_listen/is_playing"),
        (OscMessages::start_listen_beat(), "/live/song/start_listen/beat"),
        (OscMessages::get_num_tracks(), "/live/song/get/num_tracks"),
        (OscMessages::test(), "/live/test"),
    ];
    for ((address, args), expected) in table {
        assert_eq!(address, expected);
        assert!(args.is_empty());
    }
}

#[test]
fn set_track_volume_message() {
    let (address, args) = OscMessages::set_track_volume(2, Single::from_bits(0.75f32.to_bits()));
    assert_eq!(address, "/live/track/set/volume");
    assert_eq!(args, vec![OscArg::Int(2), float(0.75)]);
}

#[test]
fn track_messages_carry_index_then_value() {
    assert_eq!(
        OscMessages::set_track_pan(3, Single::from_bits((-0.5f32).to_bits())),
        ("/live/track/set/panning", vec![OscArg::Int(3), float(-0.5)])
    );
    assert_eq!(
        OscMessages::set_track_mute(0, true),
        ("/live/track/set/mute", vec![OscArg::Int(0), OscArg::Int(1)])
    );
    assert_eq!(
        OscMessages::set_track_mute(0, false),
        ("/live/track/set/mute", vec![OscArg::Int(0), OscArg::Int(0)])
    );
    assert_eq!(
        OscMessages::set_track_solo(7, true),
        ("/live/track/set/solo", vec![OscArg::Int(7), OscArg::Int(1)])
    );
    assert_eq!(
        OscMessages::set_track_solo(-1, false),
        ("/live/track/set/solo", vec![OscArg::Int(-1), OscArg::Int(0)])
    );
    assert_eq!(
        OscMessages::start_listen_track_volume(4),
        ("/live/track/start_listen/volume", vec![OscArg::Int(4)])
    );
    assert_eq!(
        OscMessages::start_listen_track_meter(5),
        ("/live/track/start_listen/output_meter_level", vec![OscArg::Int(5)])
    );
}

#[test]
fn song_messages_encode_booleans_as_integers() {
    assert_eq!(OscMessages::set_loop_enabled(true), ("/live/song/set/loop", vec![OscArg::Int(1)]));
    assert_eq!(OscMessages::set_loop_enabled(false), ("/live/song/set/loop", vec![OscArg::Int(0)]));
    assert_eq!(
        OscMessages::set_tempo(Single::from_bits(128.5f32.to_bits())),
        ("/live/song/set/tempo", vec![float(128.5)])
    );
}

#[test]
fn track_data_asks_for_seven_properties() {
    let (address, args) = OscMessages::get_track_data(0, 8);
    assert_eq!(address, "/live/song/get/track_data");
    assert_eq!(
        args,
        vec![
            OscArg::Int(0),
            OscArg::Int(8),
            text("track.name"),
            text("track.volume"),
            text("track.panning"),
            text("track.mute"),
            text("track.solo"),
            text("track.arm"),
            text("track.color"),
        ]
    );
}

#[test]
fn clip_messages_carry_track_then_scene() {
    assert_eq!(OscMessages::fire_clip(1, 2), ("/live/clip/fire", vec![OscArg::Int(1), OscArg::Int(2)]));
    assert_eq!(OscMessages::stop_clip(3, 4), ("/live/clip/stop", vec![OscArg::Int(3), OscArg::Int(4)]));
    assert_eq!(
        OscMessages::delete_clip(5, 6),
        ("/live/clip_slot/delete_clip", vec![OscArg::Int(5), OscArg::Int(6)])
    );
    assert_eq!(
        OscMessages::duplicate_clip(1, 2, 3, 4),
        (
            "/live/clip_slot/duplicate_clip_to",
            vec![OscArg::Int(1), OscArg::Int(2), OscArg::Int(3), OscArg::Int(4)]
        )
    );
    assert_eq!(
        OscMessages::load_sample(1, 0, "/samples/kick.wav"),
        (
            "/live/clip_slot/load_sample",
            vec![OscArg::Int(1), OscArg::Int(0), text("/samples/kick.wav")]
        )
    );
}

#[test]
fn builders_are_stable() {
    for track in [i32::MIN, -1, 0, 15, 16, i32::MAX] {
        for bits in [0u32, 0x3F40_0000, 0x7FC0_0000, 0xFFFF_FFFF] {
            let vol = Single::from_bits(bits);
            assert_eq!(
                OscMessages::set_track_volume(track, vol),
                OscMessages::set_track_volume(track, vol)
            );
            let (address, args) = OscMessages::set_track_volume(track, vol);
            assert_eq!(address, "/live/track/set/volume");
            assert_eq!(args, vec![OscArg::Int(track), OscArg::Float(vol)]);
        }
    }
}
