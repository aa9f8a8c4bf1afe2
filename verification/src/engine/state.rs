//! The shared state cache: a snapshot of the DAW's transport and tracks.
//!
//! The cache is the single writable copy of the engine state. The listener
//! writes one field at a time; readers take whole copies. A track list is
//! replaced as a whole, together with the track count. The host shares one
//! cache between its threads behind a lock of its own.

use vstd::prelude::*;
use crate::number::Double;

verus! {

/// The state of one clip slot.
#[derive(Debug, Clone, PartialEq, Eq)]
pub struct ClipState {
    pub track_index: usize,
    pub scene_index: usize,
    pub name: String,
    pub color: u32,
    pub length: Double,
    pub is_playing: bool,
    pub is_triggered: bool,
}

/// What a clip state holds.
pub struct ClipView {
    pub track_index: usize,
    pub scene_index: usize,
    pub name: Seq<char>,
    pub color: u32,
    pub length: Double,
    pub is_playing: bool,
    pub is_triggered: bool,
}

impl View for ClipState {
    type V = ClipView;

    open spec fn view(&self) -> ClipView {
        ClipView {
            track_index: self.track_index,
            scene_index: self.scene_index,
            name: self.name@,
            color: self.color,
            length: self.length,
            is_playing: self.is_playing,
            is_triggered: self.is_triggered,
        }
    }
}

/// The state of one track. A track is known by its index.
#[derive(Debug, Clone, PartialEq, Eq)]
pub struct TrackState {
    pub index: usize,
    pub name: String,
    /// Linear gain.
    pub volume: Double,
    pub panning: Double,
    pub mute: bool,
    pub solo: bool,
    pub arm: bool,
    pub color: u32,
    pub meter_level: Double,
    pub clips: Vec<ClipState>,
}

/// What a track state holds.
pub struct TrackView {
    pub index: usize,
    pub name: Seq<char>,
    pub volume: Double,
    pub panning: Double,
    pub mute: bool,
    pub solo: bool,
    pub arm: bool,
    pub color: u32,
    pub meter_level: Double,
    pub clips: Seq<ClipView>,
}

/// The views of a list of clips, in order.
pub open spec fn clip_views(clips: Seq<ClipState>) -> Seq<ClipView> {
    Seq::new(clips.len(), |i: int| clips[i]@)
}

/// The views of a list of tracks, in order.
pub open spec fn track_views(tracks: Seq<TrackState>) -> Seq<TrackView> {
    Seq::new(tracks.len(), |i: int| tracks[i]@)
}

impl View for TrackState {
    type V = TrackView;

    open spec fn view(&self) -> TrackView {
        TrackView {
            index: self.index,
            name: self.name@,
            volume: self.volume,
            panning: self.panning,
            mute: self.mute,
            solo: self.solo,
            arm: self.arm,
            color: self.color,
            meter_level: self.meter_level,
            clips: clip_views(self.clips@),
        }
    }
}

/// The snapshot of the DAW's status that every backend shares.
#[derive(Debug, Clone, PartialEq, Eq)]
pub struct EngineState {
    pub is_playing: bool,
    /// Beats per minute.
    pub tempo: Double,
    /// The playhead position.
    pub current_time: Double,
    pub loop_enabled: bool,
    pub loop_start: Double,
    pub loop_length: Double,
    pub num_tracks: usize,
    pub num_scenes: usize,
    pub tracks: Vec<TrackState>,
}

/// What an engine state holds.
pub struct EngineView {
    pub is_playing: bool,
    pub tempo: Double,
    pub current_time: Double,
    pub loop_enabled: bool,
    pub loop_start: Double,
    pub loop_length: Double,
    pub num_tracks: usize,
    pub num_scenes: usize,
    pub tracks: Seq<TrackView>,
}

impl EngineView {
    /// The track count is the length of the track list.
    pub open spec fn consistent(self) -> bool {
        self.tracks.len() == self.num_tracks
    }

    /// The state before anything is known: stopped, every number zero, no tracks.
    pub open spec fn initial() -> EngineView {
        EngineView {
            is_playing: false,
            tempo: Double { bits: 0 },
            current_time: Double { bits: 0 },
            loop_enabled: false,
            loop_start: Double { bits: 0 },
            loop_length: Double { bits: 0 },
            num_tracks: 0,
            num_scenes: 0,
            tracks: Seq::empty(),
        }
    }

    /// This state with one track changed; the same state where no track has that index.
    pub open spec fn with_track(self, index: int, change: spec_fn(TrackView) -> TrackView) -> EngineView {
        if 0 <= index < self.tracks.len() {
            EngineView { tracks: self.tracks.update(index, change(self.tracks[index])), ..self }
        } else {
            self
        }
    }
}

impl View for EngineState {
    type V = EngineView;

    open spec fn view(&self) -> EngineView {
        EngineView {
            is_playing: self.is_playing,
            tempo: self.tempo,
            current_time: self.current_time,
            loop_enabled: self.loop_enabled,
            loop_start: self.loop_start,
            loop_length: self.loop_length,
            num_tracks: self.num_tracks,
            num_scenes: self.num_scenes,
            tracks: track_views(self.tracks@),
        }
    }
}

impl ClipState {
    /// A copy of this clip state.
    pub fn snapshot(&self) -> (copy: ClipState)
        ensures
            copy@ == self@,
    {
        ClipState {
            track_index: self.track_index,
            scene_index: self.scene_index,
            name: self.name.clone(),
            color: self.color,
            length: self.length,
            is_playing: self.is_playing,
            is_triggered: self.is_triggered,
        }
    }
}

impl TrackState {
    /// A copy of this track state, clips included.
    pub fn snapshot(&self) -> (copy: TrackState)
        ensures
            copy@ == self@,
    {
        let mut clips: Vec<ClipState> = Vec::new();
        let mut i: usize = 0;
        while i < self.clips.len()
            invariant
                i <= self.clips@.len(),
                clips@.len() == i,
                forall|j: int| 0 <= j < i ==> clips@[j]@ == self.clips@[j]@,
            decreases self.clips@.len() - i,
        {
            clips.push(self.clips[i].snapshot());
            i += 1;
        }
        assert(clip_views(clips@) =~= clip_views(self.clips@));
        TrackState {
            index: self.index,
            name: self.name.clone(),
            volume: self.volume,
            panning: self.panning,
            mute: self.mute,
            solo: self.solo,
            arm: self.arm,
            color: self.color,
            meter_level: self.meter_level,
            clips,
        }
    }
}

impl EngineState {
    /// The state before anything is known.
    pub fn new() -> (state: EngineState)
        ensures
            state@ == EngineView::initial(),
    {
        let state = EngineState {
            is_playing: false,
            tempo: Double { bits: 0 },
            current_time: Double { bits: 0 },
            loop_enabled: false,
            loop_start: Double { bits: 0 },
            loop_length: Double { bits: 0 },
            num_tracks: 0,
            num_scenes: 0,
            tracks: Vec::new(),
        };
        assert(state@.tracks =~= Seq::empty());
        state
    }

    /// A copy of this state, tracks and clips included.
    pub fn snapshot(&self) -> (copy: EngineState)
        ensures
            copy@ == self@,
    {
        let mut tracks: Vec<TrackState> = Vec::new();
        let mut i: usize = 0;
        while i < self.tracks.len()
            invariant
                i <= self.tracks@.len(),
                tracks@.len() == i,
                forall|j: int| 0 <= j < i ==> tracks@[j]@ == self.tracks@[j]@,
            decreases self.tracks@.len() - i,
        {
            tracks.push(self.tracks[i].snapshot());
            i += 1;
        }
        assert(track_views(tracks@) =~= track_views(self.tracks@));
        EngineState {
            is_playing: self.is_playing,
            tempo: self.tempo,
            current_time: self.current_time,
            loop_enabled: self.loop_enabled,
            loop_start: self.loop_start,
            loop_length: self.loop_length,
            num_tracks: self.num_tracks,
            num_scenes: self.num_scenes,
            tracks,
        }
    }
}

/// The transport part of the state: what the read-only transport query returns.
#[derive(Debug, Clone, Copy, PartialEq, Eq, Structural)]
pub struct TransportSnapshot {
    pub is_playing: bool,
    pub tempo: Double,
    pub current_time: Double,
    pub loop_enabled: bool,
    pub loop_start: Double,
    pub loop_length: Double,
}

impl EngineView {
    /// The transport part of this state.
    pub open spec fn transport(self) -> TransportSnapshot {
        TransportSnapshot {
            is_playing: self.is_playing,
            tempo: self.tempo,
            current_time: self.current_time,
            loop_enabled: self.loop_enabled,
            loop_start: self.loop_start,
            loop_length: self.loop_length,
        }
    }
}

/// The state cache. Its track count is always the length of its track list.
pub struct StateManager {
    state: EngineState,
}

impl View for StateManager {
    type V = EngineView;

    closed spec fn view(&self) -> EngineView {
        self.state@
    }
}

impl StateManager {
    #[verifier::type_invariant]
    spec fn consistent(self) -> bool {
        self.state@.consistent()
    }

    /// A cache in the initial state.
    pub fn new() -> (cache: StateManager)
        ensures
            cache@ == EngineView::initial(),
    {
        StateManager { state: EngineState::new() }
    }

    /// A full copy of the cached state. The copy is consistent.
    pub fn get(&self) -> (state: EngineState)
        ensures
            state@ == self@,
            state@.consistent(),
    {
        proof {
            use_type_invariant(self);
        }
        self.state.snapshot()
    }

    /// The transport part of the cached state, without the tracks.
    pub fn transport(&self) -> (snapshot: TransportSnapshot)
        ensures
            snapshot == self@.transport(),
    {
        TransportSnapshot {
            is_playing: self.state.is_playing,
            tempo: self.state.tempo,
            current_time: self.state.current_time,
            loop_enabled: self.state.loop_enabled,
            loop_start: self.state.loop_start,
            loop_length: self.state.loop_length,
        }
    }

    pub fn set_playing(&mut self, playing: bool)
        ensures
            final(self)@ == (EngineView { is_playing: playing, ..old(self)@ }),
    {
        proof {
            use_type_invariant(&*self);
        }
        self.state.is_playing = playing;
    }

    pub fn set_tempo(&mut self, tempo: Double)
        ensures
            final(self)@ == (EngineView { tempo: tempo, ..old(self)@ }),
    {
        proof {
            use_type_invariant(&*self);
        }
        self.state.tempo = tempo;
    }

    pub fn set_current_time(&mut self, time: Double)
        ensures
            final(self)@ == (EngineView { current_time: time, ..old(self)@ }),
    {
        proof {
            use_type_invariant(&*self);
        }
        self.state.current_time = time;
    }

    pub fn set_loop_enabled(&mut self, enabled: bool)
        ensures
            final(self)@ == (EngineView { loop_enabled: enabled, ..old(self)@ }),
    {
        proof {
            use_type_invariant(&*self);
        }
        self.state.loop_enabled = enabled;
    }

    /// Replaces the whole track list, and the track count with it.
    pub fn set_tracks(&mut self, tracks: Vec<TrackState>)
        ensures
            final(self)@ == (EngineView {
                num_tracks: tracks@.len() as usize,
                tracks: track_views(tracks@),
                ..old(self)@
            }),
    {
        self.state = EngineState {
            is_playing: self.state.is_playing,
            tempo: self.state.tempo,
            current_time: self.state.current_time,
            loop_enabled: self.state.loop_enabled,
            loop_start: self.state.loop_start,
            loop_length: self.state.loop_length,
            num_tracks: tracks.len(),
            num_scenes: self.state.num_scenes,
            tracks,
        };
    }

    /// Sets the volume of the track at `index`; without such a track nothing changes.
    pub fn set_track_volume(&mut self, index: usize, volume: Double)
        ensures
            final(self)@ == old(self)@.with_track(
                index as int,
                |t: TrackView| TrackView { volume: volume, ..t },
            ),
    {
        proof {
            use_type_invariant(&*self);
        }
        if index < self.state.tracks.len() {
            self.state.tracks[index].volume = volume;
            assert(self.state@.tracks =~= old(self).state@.tracks.update(
                index as int,
                TrackView { volume: volume, ..old(self).state@.tracks[index as int] },
            ));
        }
    }

    /// Mutes or unmutes the track at `index`; without such a track nothing changes.
    pub fn set_track_mute(&mut self, index: usize, mute: bool)
        ensures
            final(self)@ == old(self)@.with_track(
                index as int,
                |t: TrackView| TrackView { mute: mute, ..t },
            ),
    {
        proof {
            use_type_invariant(&*self);
        }
        if index < self.state.tracks.len() {
            self.state.tracks[index].mute = mute;
            assert(self.state@.tracks =~= old(self).state@.tracks.update(
                index as int,
                TrackView { mute: mute, ..old(self).state@.tracks[index as int] },
            ));
        }
    }

    /// Solos or unsolos the track at `index`; without such a track nothing changes.
    pub fn set_track_solo(&mut self, index: usize, solo: bool)
        ensures
            final(self)@ == old(self)@.with_track(
                index as int,
                |t: TrackView| TrackView { solo: solo, ..t },
            ),
    {
        proof {
            use_type_invariant(&*self);
        }
        if index < self.state.tracks.len() {
            self.state.tracks[index].solo = solo;
            assert(self.state@.tracks =~= old(self).state@.tracks.update(
                index as int,
                TrackView { solo: solo, ..old(self).state@.tracks[index as int] },
            ));
        }
    }

    /// Sets the meter level of the track at `index`; without such a track nothing changes.
    pub fn set_track_meter(&mut self, index: usize, level: Double)
        ensures
            final(self)@ == old(self)@.with_track(
                index as int,
                |t: TrackView| TrackView { meter_level: level, ..t },
            ),
    {
        proof {
            use_type_invariant(&*self);
        }
        if index < self.state.tracks.len() {
            self.state.tracks[index].meter_level = level;
            assert(self.state@.tracks =~= old(self).state@.tracks.update(
                index as int,
                TrackView { meter_level: level, ..old(self).state@.tracks[index as int] },
            ));
        }
    }
}

/// Every cache that the operations above can reach is consistent: the initial
/// state is, and a consistent state stays so under a change of one scalar, a
/// change of one track, and a replacement of the track list.
pub proof fn lemma_cache_stays_consistent(
    before: EngineView,
    index: int,
    change: spec_fn(TrackView) -> TrackView,
    tracks: Seq<TrackView>,
)
    requires
        before.consistent(),
        tracks.len() <= usize::MAX,
    ensures
        EngineView::initial().consistent(),
        before.with_track(index, change).consistent(),
        (EngineView { num_tracks: tracks.len() as usize, tracks: tracks, ..before }).consistent(),
{
}

} // verus!
