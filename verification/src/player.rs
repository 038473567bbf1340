//! The playback actor's state machine.
//!
//! The actor is the single owner of all playback state: it consumes
//! commands, drives the seek/decode engine, manages a queue and emits
//! events. The output device, the network and the clock live outside; the
//! core here receives clock readings and load results as plain values and
//! returns the events to broadcast. Positions and durations are in
//! milliseconds; the volume is a percentage.
//!
//! Position tracking is derived, not polled from the device: while playing,
//! the current position is the last anchored position plus the wall-clock
//! time elapsed since the anchor. Every pause, resume and seek re-anchors
//! the pair (`audio_start_time`, `visual_position`), which is the invariant
//! that keeps the extrapolation accurate.

use vstd::prelude::*;
use vstd::string::StrSliceExecFns;
use vstd::string::StringExecFns;
use crate::AudioError;
use crate::engine::effective_duration_spec;
use crate::engine::effective_duration_ms;

verus! {

/// The cadence of the periodic position tick, in milliseconds.
pub const TICK_INTERVAL_MS: u64 = 250;

/// The least gap between two position-update broadcasts, in milliseconds.
pub const POSITION_EVENT_GAP_MS: u64 = 500;

/// The largest volume, as a percentage.
pub const MAX_VOLUME: u32 = 100;

/// The volume a fresh actor starts with, as a percentage.
pub const DEFAULT_VOLUME: u32 = 70;

/// What happens at the end of the queue.
#[derive(Debug, Clone, Copy, PartialEq, Eq, Structural)]
pub enum RepeatMode {
    Off,
    One,
    All,
}

/// One playable track: identifier, display metadata, an optional duration
/// hint in ticks, and a byte-source locator (a local path under a
/// `file://` scheme, or a remote URL). Immutable once constructed.
#[derive(Debug, Clone)]
pub struct QueueItem {
    pub id: String,
    pub name: String,
    pub artists: Vec<String>,
    pub album: Option<String>,
    pub duration_ticks: Option<i64>,
    pub stream_url: String,
}

/// The mathematical value of a [`QueueItem`]: the same fields, with the
/// artist vector abstracted to a sequence.
pub struct ItemModel {
    pub id: String,
    pub name: String,
    pub artists: Seq<String>,
    pub album: Option<String>,
    pub duration_ticks: Option<i64>,
    pub stream_url: String,
}

impl View for QueueItem {
    type V = ItemModel;

    open spec fn view(&self) -> ItemModel {
        ItemModel {
            id: self.id,
            name: self.name,
            artists: self.artists@,
            album: self.album,
            duration_ticks: self.duration_ticks,
            stream_url: self.stream_url,
        }
    }
}

/// The view of an optional item.
pub open spec fn opt_item_view(o: Option<QueueItem>) -> Option<ItemModel> {
    match o {
        Some(item) => Some(item@),
        Option::None => Option::None,
    }
}

/// An immutable snapshot of the playback state.
#[derive(Debug, Clone)]
pub struct PlaybackState {
    pub is_playing: bool,
    pub current_position: u64,
    pub duration: u64,
    pub volume: u32,
    pub is_shuffled: bool,
    pub repeat_mode: RepeatMode,
    pub current_song: Option<QueueItem>,
}

/// The mathematical value of a [`PlaybackState`].
pub struct StateModel {
    pub is_playing: bool,
    pub current_position: u64,
    pub duration: u64,
    pub volume: u32,
    pub is_shuffled: bool,
    pub repeat_mode: RepeatMode,
    pub current_song: Option<ItemModel>,
}

impl View for PlaybackState {
    type V = StateModel;

    open spec fn view(&self) -> StateModel {
        StateModel {
            is_playing: self.is_playing,
            current_position: self.current_position,
            duration: self.duration,
            volume: self.volume,
            is_shuffled: self.is_shuffled,
            repeat_mode: self.repeat_mode,
            current_song: opt_item_view(self.current_song),
        }
    }
}

/// An event broadcast to the actor's subscribers.
#[derive(Debug, Clone)]
pub enum PlayerEvent {
    StateChanged(PlaybackState),
    TrackChanged(Option<QueueItem>),
    PositionUpdate(u64),
    Error(String),
}

/// The mathematical value of a [`PlayerEvent`].
pub enum EventModel {
    StateChanged(StateModel),
    TrackChanged(Option<ItemModel>),
    PositionUpdate(u64),
    Error(String),
}

impl View for PlayerEvent {
    type V = EventModel;

    open spec fn view(&self) -> EventModel {
        match self {
            PlayerEvent::StateChanged(s) => EventModel::StateChanged(s@),
            PlayerEvent::TrackChanged(o) => EventModel::TrackChanged(opt_item_view(*o)),
            PlayerEvent::PositionUpdate(p) => EventModel::PositionUpdate(*p),
            PlayerEvent::Error(m) => EventModel::Error(*m),
        }
    }
}

/// The views of a broadcast batch, in broadcast order.
pub open spec fn events_view(s: Seq<PlayerEvent>) -> Seq<EventModel> {
    s.map(|i: int, e: PlayerEvent| e@)
}

/// A command for the actor. Request/response commands (`PlayItem`,
/// `GetState`) carry their reply channel in the mailbox outside the core.
#[derive(Debug, Clone)]
pub enum PlayerCommand {
    PlayItem(QueueItem),
    Pause,
    Resume,
    Stop,
    SetVolume(u32),
    Seek(u64),
    ToggleShuffle,
    SetRepeatMode(RepeatMode),
    GetState,
    NextTrack,
    PreviousTrack,
    Shutdown,
}

/// Where the bytes of a track come from.
#[derive(Debug, Clone)]
pub enum BytesPlan {
    /// Reuse the byte buffer already cached for this track.
    UseCached,
    /// Read the file at this local path.
    ReadLocal(String),
    /// Download from this URL.
    Download(String),
}

/// The actor-private playback state. `has_sink` mirrors whether a live
/// output sink exists; `audio_start_time` is the wall-clock anchor of the
/// position extrapolation and exists exactly while playing;
/// `visual_position` is the position at the anchor. The raw bytes of the
/// current track are kept so a later seek can rebuild the decoder without
/// re-downloading.
#[derive(Debug)]
pub struct PlayerCore {
    pub state: PlaybackState,
    pub queue: Vec<QueueItem>,
    pub current_index: Option<usize>,
    pub has_sink: bool,
    pub audio_start_time: Option<u64>,
    pub visual_position: u64,
    pub last_position_update: u64,
    pub cached_audio: Option<Vec<u8>>,
    pub cached_song_id: Option<String>,
}

/// The raw extrapolated position: the anchored position plus the wall-clock
/// time elapsed since the anchor. Meaningful while an anchor exists.
pub open spec fn extrapolated_position(c: PlayerCore, now: u64) -> int {
    c.visual_position + now - c.audio_start_time->0
}

/// Whether a known duration has been reached at `now`.
pub open spec fn track_finished(c: PlayerCore, now: u64) -> bool {
    &&& c.state.is_playing
    &&& c.audio_start_time is Some
    &&& c.state.duration > 0
    &&& extrapolated_position(c, now) >= c.state.duration
}

/// The position a read at `now` reports: while playing, the extrapolated
/// position, saturated and clamped at a known duration; otherwise the last
/// stored position.
pub open spec fn position_at(c: PlayerCore, now: u64) -> u64 {
    if c.state.is_playing && c.audio_start_time is Some {
        let raw = extrapolated_position(c, now);
        let sat = if raw >= u64::MAX { u64::MAX as int } else { raw };
        if c.state.duration > 0 && sat >= c.state.duration {
            c.state.duration
        } else {
            sat as u64
        }
    } else {
        c.state.current_position
    }
}

/// The state after the periodic position tick (or a state read) at `now`:
/// nothing changes unless playing; a reached duration stops playback and
/// clears the anchor; otherwise the position is recomputed, and the
/// broadcast timestamp advances only when a position update is due.
pub open spec fn tick_spec(c: PlayerCore, now: u64) -> PlayerCore {
    if !(c.state.is_playing && c.audio_start_time is Some) {
        c
    } else if track_finished(c, now) {
        PlayerCore {
            state: PlaybackState {
                is_playing: false,
                current_position: c.state.duration,
                ..c.state
            },
            audio_start_time: None,
            ..c
        }
    } else {
        PlayerCore {
            state: PlaybackState { current_position: position_at(c, now), ..c.state },
            last_position_update: if now - c.last_position_update >= POSITION_EVENT_GAP_MS {
                now
            } else {
                c.last_position_update
            },
            ..c
        }
    }
}

/// The events the tick at `now` broadcasts: a state change when the track
/// finishes; a rate-limited position update and state change otherwise.
pub open spec fn tick_events_spec(c: PlayerCore, now: u64) -> Seq<EventModel> {
    if !(c.state.is_playing && c.audio_start_time is Some) {
        Seq::empty()
    } else if track_finished(c, now) {
        seq![EventModel::StateChanged(tick_spec(c, now).state@)]
    } else if now - c.last_position_update >= POSITION_EVENT_GAP_MS {
        seq![
            EventModel::PositionUpdate(position_at(c, now)),
            EventModel::StateChanged(tick_spec(c, now).state@),
        ]
    } else {
        Seq::empty()
    }
}

/// The state after `Pause` at `now`: a no-op without a sink; otherwise the
/// elapsed time is snapshot into the anchored position and the anchor is
/// cleared.
pub open spec fn pause_spec(c: PlayerCore, now: u64) -> PlayerCore {
    if !c.has_sink {
        c
    } else {
        PlayerCore {
            state: PlaybackState {
                is_playing: false,
                current_position: position_at(c, now),
                ..c.state
            },
            audio_start_time: None,
            visual_position: position_at(c, now),
            ..c
        }
    }
}

/// The state after `Resume` at `now`: a no-op without a sink; otherwise the
/// anchor restarts at `now` with the anchored position held at the last
/// computed position.
pub open spec fn resume_spec(c: PlayerCore, now: u64) -> PlayerCore {
    if !c.has_sink {
        c
    } else {
        PlayerCore {
            state: PlaybackState { is_playing: true, ..c.state },
            audio_start_time: Some(now),
            visual_position: c.state.current_position,
            ..c
        }
    }
}

/// The state after `Stop`: no sink, position zero, no current track, and
/// the cached byte buffer dropped.
pub open spec fn stop_spec(c: PlayerCore) -> PlayerCore {
    PlayerCore {
        state: PlaybackState {
            is_playing: false,
            current_position: 0,
            current_song: Option::None,
            ..c.state
        },
        has_sink: false,
        audio_start_time: None,
        visual_position: 0,
        cached_audio: Option::None,
        cached_song_id: Option::None,
        ..c
    }
}

/// The state after a successful load of `item` starting at `offset`:
/// playing from `offset`, with the duration taken from the container probe
/// or, failing that, from the item's hint.
pub open spec fn play_spec(
    c: PlayerCore,
    item: QueueItem,
    offset: u64,
    probed_duration: u64,
    now: u64,
) -> PlayerCore {
    PlayerCore {
        state: PlaybackState {
            is_playing: true,
            current_position: offset,
            duration: effective_duration_spec(probed_duration, item.duration_ticks),
            current_song: Some(item),
            ..c.state
        },
        has_sink: true,
        audio_start_time: Some(now),
        visual_position: offset,
        ..c
    }
}

/// The state after a committed seek to `position` at `now`: the pause/play
/// flag is preserved, a fresh sink exists, and the extrapolation is
/// re-anchored to `position`.
pub open spec fn seek_spec(c: PlayerCore, position: u64, now: u64) -> PlayerCore {
    PlayerCore {
        state: PlaybackState { current_position: position, ..c.state },
        has_sink: true,
        audio_start_time: if c.state.is_playing {
            Some(now)
        } else {
            None
        },
        visual_position: position,
        ..c
    }
}

/// The queue index `NextTrack` moves to, or nothing when it no-ops: at the
/// end of the queue, `RepeatMode::All` wraps to the start and every other
/// mode stays put.
pub open spec fn next_index_spec(c: PlayerCore) -> Option<int> {
    if c.queue@.len() == 0 {
        Option::None
    } else {
        match c.current_index {
            Some(i) => if i + 1 >= c.queue@.len() {
                if c.state.repeat_mode is All {
                    Some(0int)
                } else {
                    Option::None
                }
            } else {
                Some(i + 1)
            },
            Option::None => Some(0int),
        }
    }
}

/// The queue index `PreviousTrack` moves to, or nothing when it no-ops: at
/// the start of the queue, `RepeatMode::All` wraps to the end and every
/// other mode stays put.
pub open spec fn prev_index_spec(c: PlayerCore) -> Option<int> {
    if c.queue@.len() == 0 {
        Option::None
    } else {
        match c.current_index {
            Some(i) => if i == 0 {
                if c.state.repeat_mode is All {
                    Some(c.queue@.len() - 1)
                } else {
                    Option::None
                }
            } else {
                Some(i - 1)
            },
            Option::None => Some(c.queue@.len() - 1),
        }
    }
}

/// Whether a locator begins with the local-file scheme.
pub open spec fn has_file_scheme(s: Seq<char>) -> bool {
    s.len() >= 7 && s.take(7) == seq!['f', 'i', 'l', 'e', ':', '/', '/']
}

fn clone_opt_string(o: &Option<String>) -> (r: Option<String>)
    ensures
        r == *o,
{
    match o {
        Some(s) => Some(s.clone()),
        Option::None => Option::None,
    }
}

impl QueueItem {
    /// A copy of the item with the same mathematical value.
    pub fn duplicate(&self) -> (r: QueueItem)
        ensures
            r@ == self@,
    {
        QueueItem {
            id: self.id.clone(),
            name: self.name.clone(),
            artists: crate::clone_string_vec(&self.artists),
            album: clone_opt_string(&self.album),
            duration_ticks: self.duration_ticks,
            stream_url: self.stream_url.clone(),
        }
    }
}

fn clone_opt_item(o: &Option<QueueItem>) -> (r: Option<QueueItem>)
    ensures
        opt_item_view(r) == opt_item_view(*o),
{
    match o {
        Some(item) => Some(item.duplicate()),
        Option::None => Option::None,
    }
}

impl PlaybackState {
    /// A copy of the snapshot with the same mathematical value, as handed
    /// to subscribers.
    pub fn snapshot(&self) -> (r: PlaybackState)
        ensures
            r@ == self@,
    {
        PlaybackState {
            is_playing: self.is_playing,
            current_position: self.current_position,
            duration: self.duration,
            volume: self.volume,
            is_shuffled: self.is_shuffled,
            repeat_mode: self.repeat_mode,
            current_song: clone_opt_item(&self.current_song),
        }
    }
}

impl PlayerCore {
    /// The invariant every operation preserves: the volume within range, a
    /// valid queue index, the anchor present exactly while playing, and a
    /// sink behind any playback. The cached byte buffer and its identifier
    /// exist together.
    pub open spec fn wf(&self) -> bool {
        &&& self.state.volume <= MAX_VOLUME
        &&& match self.current_index {
            Some(i) => i < self.queue@.len(),
            Option::None => true,
        }
        &&& self.audio_start_time is Some <==> self.state.is_playing
        &&& self.state.is_playing ==> self.has_sink
        &&& self.cached_song_id is Some <==> self.cached_audio is Some
    }

    /// A fresh actor: idle, empty queue, default volume.
    pub fn new() -> (c: PlayerCore)
        ensures
            c.wf(),
            c.state.is_playing == false,
            c.state.current_position == 0,
            c.state.duration == 0,
            c.state.volume == DEFAULT_VOLUME,
            c.state.is_shuffled == false,
            c.state.repeat_mode is Off,
            c.state.current_song is None,
            c.queue@.len() == 0,
            c.current_index is None,
            c.has_sink == false,
            c.audio_start_time is None,
            c.last_position_update == 0,
    {
        PlayerCore {
            state: PlaybackState {
                is_playing: false,
                current_position: 0,
                duration: 0,
                volume: DEFAULT_VOLUME,
                is_shuffled: false,
                repeat_mode: RepeatMode::Off,
                current_song: Option::None,
            },
            queue: Vec::new(),
            current_index: Option::None,
            has_sink: false,
            audio_start_time: Option::None,
            visual_position: 0,
            last_position_update: 0,
            cached_audio: Option::None,
            cached_song_id: Option::None,
        }
    }

    /// Replaces the queue, with an optional starting index.
    pub fn set_queue(&mut self, items: Vec<QueueItem>, start_index: Option<usize>)
        requires
            old(self).wf(),
            start_index matches Some(i) ==> i < items@.len(),
        ensures
            final(self).wf(),
            final(self).queue == items,
            final(self).current_index == start_index,
            *final(self) == (PlayerCore {
                queue: items,
                current_index: start_index,
                ..*old(self)
            }),
    {
        self.queue = items;
        self.current_index = start_index;
    }

    /// Recomputes the position at `now` and applies the tick transition,
    /// returning the events to broadcast: detects a finished track, and
    /// rate-limits position updates.
    pub fn update_position(&mut self, now: u64) -> (events: Vec<PlayerEvent>)
        requires
            old(self).wf(),
            old(self).audio_start_time matches Some(a) ==> a <= now,
            old(self).last_position_update <= now,
        ensures
            final(self).wf(),
            *final(self) == tick_spec(*old(self), now),
            events_view(events@) == tick_events_spec(*old(self), now),
    {
        let mut events: Vec<PlayerEvent> = Vec::new();
        if self.state.is_playing {
            if let Some(start) = self.audio_start_time {
                let elapsed: u64 = now - start;
                let new_position: u64 = self.visual_position.saturating_add(elapsed);
                if self.state.duration > 0 && new_position >= self.state.duration {
                    self.state.current_position = self.state.duration;
                    self.state.is_playing = false;
                    self.audio_start_time = Option::None;
                    events.push(PlayerEvent::StateChanged(self.state.snapshot()));
                    proof {
                        assert(self.state == tick_spec(*old(self), now).state);
                        assert(events_view(events@) =~= tick_events_spec(*old(self), now));
                    }
                } else {
                    self.state.current_position = new_position;
                    if now - self.last_position_update >= POSITION_EVENT_GAP_MS {
                        events.push(PlayerEvent::PositionUpdate(new_position));
                        events.push(PlayerEvent::StateChanged(self.state.snapshot()));
                        self.last_position_update = now;
                        proof {
                            assert(self.state == tick_spec(*old(self), now).state);
                            assert(events_view(events@) =~= tick_events_spec(*old(self), now));
                        }
                    } else {
                        proof {
                            assert(events_view(events@) =~= tick_events_spec(*old(self), now));
                        }
                    }
                }
            }
        } else {
            proof {
                assert(events_view(events@) =~= tick_events_spec(*old(self), now));
            }
        }
        events
    }

    /// `Pause`: a no-op without a sink; otherwise snapshots the position,
    /// stops extrapolating, and reports the state change.
    pub fn pause(&mut self, now: u64) -> (events: Vec<PlayerEvent>)
        requires
            old(self).wf(),
            old(self).audio_start_time matches Some(a) ==> a <= now,
        ensures
            final(self).wf(),
            *final(self) == pause_spec(*old(self), now),
            events_view(events@) == (if old(self).has_sink {
                seq![EventModel::StateChanged(pause_spec(*old(self), now).state@)]
            } else {
                Seq::<EventModel>::empty()
            }),
    {
        let mut events: Vec<PlayerEvent> = Vec::new();
        if self.has_sink {
            let p: u64 = if self.state.is_playing {
                match self.audio_start_time {
                    Some(start) => {
                        let raw: u64 = self.visual_position.saturating_add(now - start);
                        if self.state.duration > 0 && raw >= self.state.duration {
                            self.state.duration
                        } else {
                            raw
                        }
                    }
                    Option::None => self.state.current_position,
                }
            } else {
                self.state.current_position
            };
            self.state.current_position = p;
            self.state.is_playing = false;
            self.audio_start_time = Option::None;
            self.visual_position = p;
            events.push(PlayerEvent::StateChanged(self.state.snapshot()));
            proof {
                assert(self.state == pause_spec(*old(self), now).state);
                assert(events_view(events@) =~= seq![
                    EventModel::StateChanged(pause_spec(*old(self), now).state@),
                ]);
            }
        }
        events
    }

    /// `Resume`: a no-op without a sink; otherwise restarts extrapolation
    /// from the current position and reports the state change.
    pub fn resume(&mut self, now: u64) -> (events: Vec<PlayerEvent>)
        requires
            old(self).wf(),
        ensures
            final(self).wf(),
            *final(self) == resume_spec(*old(self), now),
            final(self).state.current_position == old(self).state.current_position,
            events_view(events@) == (if old(self).has_sink {
                seq![EventModel::StateChanged(resume_spec(*old(self), now).state@)]
            } else {
                Seq::<EventModel>::empty()
            }),
    {
        let mut events: Vec<PlayerEvent> = Vec::new();
        if self.has_sink {
            self.state.is_playing = true;
            self.audio_start_time = Some(now);
            self.visual_position = self.state.current_position;
            events.push(PlayerEvent::StateChanged(self.state.snapshot()));
            proof {
                assert(self.state == resume_spec(*old(self), now).state);
                assert(events_view(events@) =~= seq![
                    EventModel::StateChanged(resume_spec(*old(self), now).state@),
                ]);
            }
        }
        events
    }

    /// `Stop`: drops the sink and the cached bytes, resets the position and
    /// the current track, and reports both changes.
    pub fn stop(&mut self) -> (events: Vec<PlayerEvent>)
        requires
            old(self).wf(),
        ensures
            final(self).wf(),
            *final(self) == stop_spec(*old(self)),
            events_view(events@) == seq![
                EventModel::StateChanged(stop_spec(*old(self)).state@),
                EventModel::TrackChanged(Option::<ItemModel>::None),
            ],
    {
        self.has_sink = false;
        self.state.is_playing = false;
        self.state.current_position = 0;
        self.state.current_song = Option::None;
        self.audio_start_time = Option::None;
        self.visual_position = 0;
        self.cached_audio = Option::None;
        self.cached_song_id = Option::None;
        let mut events: Vec<PlayerEvent> = Vec::new();
        events.push(PlayerEvent::StateChanged(self.state.snapshot()));
        events.push(PlayerEvent::TrackChanged(Option::None));
        proof {
            assert(self.state == stop_spec(*old(self)).state);
            assert(events_view(events@) =~= seq![
                EventModel::StateChanged(stop_spec(*old(self)).state@),
                EventModel::TrackChanged(Option::<ItemModel>::None),
            ]);
        }
        events
    }

    /// `SetVolume`: clamps to the valid range, and always persists into the
    /// state whether or not a sink exists.
    pub fn set_volume(&mut self, volume: u32) -> (events: Vec<PlayerEvent>)
        requires
            old(self).wf(),
        ensures
            final(self).wf(),
            final(self).state.volume == (if volume <= MAX_VOLUME {
                volume
            } else {
                MAX_VOLUME
            }),
            *final(self) == (PlayerCore {
                state: PlaybackState { volume: final(self).state.volume, ..old(self).state },
                ..*old(self)
            }),
            events_view(events@) == seq![EventModel::StateChanged(final(self).state@)],
    {
        let clamped: u32 = if volume <= MAX_VOLUME {
            volume
        } else {
            MAX_VOLUME
        };
        self.state.volume = clamped;
        let mut events: Vec<PlayerEvent> = Vec::new();
        events.push(PlayerEvent::StateChanged(self.state.snapshot()));
        proof {
            assert(events_view(events@) =~= seq![EventModel::StateChanged(self.state@)]);
        }
        events
    }

    /// `ToggleShuffle`: pure state mutation plus a state-change broadcast.
    pub fn toggle_shuffle(&mut self) -> (events: Vec<PlayerEvent>)
        requires
            old(self).wf(),
        ensures
            final(self).wf(),
            *final(self) == (PlayerCore {
                state: PlaybackState {
                    is_shuffled: !old(self).state.is_shuffled,
                    ..old(self).state
                },
                ..*old(self)
            }),
            events_view(events@) == seq![EventModel::StateChanged(final(self).state@)],
    {
        self.state.is_shuffled = !self.state.is_shuffled;
        let mut events: Vec<PlayerEvent> = Vec::new();
        events.push(PlayerEvent::StateChanged(self.state.snapshot()));
        proof {
            assert(events_view(events@) =~= seq![EventModel::StateChanged(self.state@)]);
        }
        events
    }

    /// `SetRepeatMode`: pure state mutation plus a state-change broadcast.
    pub fn set_repeat_mode(&mut self, mode: RepeatMode) -> (events: Vec<PlayerEvent>)
        requires
            old(self).wf(),
        ensures
            final(self).wf(),
            *final(self) == (PlayerCore {
                state: PlaybackState { repeat_mode: mode, ..old(self).state },
                ..*old(self)
            }),
            events_view(events@) == seq![EventModel::StateChanged(final(self).state@)],
    {
        self.state.repeat_mode = mode;
        let mut events: Vec<PlayerEvent> = Vec::new();
        events.push(PlayerEvent::StateChanged(self.state.snapshot()));
        proof {
            assert(events_view(events@) =~= seq![EventModel::StateChanged(self.state@)]);
        }
        events
    }

    /// Remembers the raw bytes of the track `id`, so a later seek on the
    /// same track can rebuild the decoder without re-downloading.
    pub fn set_cached_audio(&mut self, id: String, data: Vec<u8>)
        requires
            old(self).wf(),
        ensures
            final(self).wf(),
            *final(self) == (PlayerCore {
                cached_audio: Some(data),
                cached_song_id: Some(id),
                ..*old(self)
            }),
    {
        self.cached_audio = Some(data);
        self.cached_song_id = Some(id);
    }

    /// Prepares to play `item`: drops the cached byte buffer when it
    /// belongs to a different track.
    pub fn prepare_play(&mut self, item: &QueueItem)
        requires
            old(self).wf(),
        ensures
            final(self).wf(),
            *final(self) == (if old(self).cached_song_id matches Some(cid) && cid@ == item.id@ {
                *old(self)
            } else {
                PlayerCore {
                    cached_audio: Option::None,
                    cached_song_id: Option::None,
                    ..*old(self)
                }
            }),
    {
        let keep: bool = match &self.cached_song_id {
            Some(cid) => *cid == item.id,
            Option::None => false,
        };
        if !keep {
            self.cached_audio = Option::None;
            self.cached_song_id = Option::None;
        }
    }

    /// Decides where the bytes of `item` come from: the cached buffer when
    /// it belongs to this track, else a local read for a `file://` locator,
    /// else a download; an empty locator is unusable.
    pub fn plan_bytes(&self, item: &QueueItem) -> (r: Result<BytesPlan, AudioError>)
        requires
            self.wf(),
        ensures
            ({
                let cached_hit = self.cached_song_id matches Some(cid) && cid@ == item.id@
                    && self.cached_audio is Some;
                match r {
                    Ok(plan) => match plan {
                        BytesPlan::UseCached => cached_hit,
                        BytesPlan::ReadLocal(p) => !cached_hit && has_file_scheme(
                            item.stream_url@) && p@ == item.stream_url@.skip(7),
                        BytesPlan::Download(u) => !cached_hit && item.stream_url@.len() > 0
                            && !has_file_scheme(item.stream_url@) && u@ == item.stream_url@,
                    },
                    Err(e) => !cached_hit && item.stream_url@.len() == 0 && e
                        == AudioError::MissingSource,
                }
            }),
    {
        let cached_hit: bool = match &self.cached_song_id {
            Some(cid) => *cid == item.id && self.cached_audio.is_some(),
            Option::None => false,
        };
        if cached_hit {
            return Ok(BytesPlan::UseCached);
        }
        let url: &str = item.stream_url.as_str();
        let len: usize = url.unicode_len();
        if len == 0 {
            return Err(AudioError::MissingSource);
        }
        if len >= 7 && url.get_char(0) == 'f' && url.get_char(1) == 'i' && url.get_char(2) == 'l'
            && url.get_char(3) == 'e' && url.get_char(4) == ':' && url.get_char(5) == '/'
            && url.get_char(6) == '/' {
            proof {
                assert(item.stream_url@.take(7) =~= seq!['f', 'i', 'l', 'e', ':', '/', '/']);
            }
            let path: &str = url.substring_char(7, len);
            proof {
                assert(path@ =~= item.stream_url@.skip(7));
            }
            Ok(BytesPlan::ReadLocal(path.to_owned()))
        } else {
            proof {
                if has_file_scheme(item.stream_url@) {
                    let pre = item.stream_url@.take(7);
                    assert(pre[0] == 'f' && pre[1] == 'i' && pre[2] == 'l' && pre[3] == 'e'
                        && pre[4] == ':' && pre[5] == '/' && pre[6] == '/');
                    assert(false);
                }
            }
            Ok(BytesPlan::Download(item.stream_url.clone()))
        }
    }

    /// Commits a successful load of `item` at `offset`: a fresh sink plays
    /// from `offset`, the duration comes from the probe or the item's hint,
    /// and the extrapolation is re-anchored. Reports the track change, then
    /// the state change.
    pub fn play_commit(
        &mut self,
        item: QueueItem,
        offset: u64,
        probed_duration: u64,
        now: u64,
    ) -> (events: Vec<PlayerEvent>)
        requires
            old(self).wf(),
        ensures
            final(self).wf(),
            opt_item_view(final(self).state.current_song) == Some(item@),
            *final(self) == play_spec(*old(self), item, offset, probed_duration, now),
            events_view(events@) == seq![
                EventModel::TrackChanged(Some(item@)),
                EventModel::StateChanged(final(self).state@),
            ],
    {
        let duration: u64 = effective_duration_ms(probed_duration, item.duration_ticks);
        let announced: QueueItem = item.duplicate();
        self.state.is_playing = true;
        self.state.current_position = offset;
        self.state.duration = duration;
        self.state.current_song = Some(item);
        self.has_sink = true;
        self.audio_start_time = Some(now);
        self.visual_position = offset;
        let mut events: Vec<PlayerEvent> = Vec::new();
        events.push(PlayerEvent::TrackChanged(Some(announced)));
        events.push(PlayerEvent::StateChanged(self.state.snapshot()));
        proof {
            assert(events_view(events@) =~= seq![
                EventModel::TrackChanged(Some(self.state.current_song->0@)),
                EventModel::StateChanged(self.state@),
            ]);
        }
        events
    }

    /// Records a failed load: the actor returns to idle and the failure is
    /// broadcast, never crashing the processing loop.
    pub fn play_failed(&mut self, message: String) -> (events: Vec<PlayerEvent>)
        requires
            old(self).wf(),
        ensures
            final(self).wf(),
            *final(self) == stop_spec(*old(self)),
            events_view(events@) == seq![
                EventModel::Error(message),
                EventModel::StateChanged(stop_spec(*old(self)).state@),
                EventModel::TrackChanged(Option::<ItemModel>::None),
            ],
    {
        self.has_sink = false;
        self.state.is_playing = false;
        self.state.current_position = 0;
        self.state.current_song = Option::None;
        self.audio_start_time = Option::None;
        self.visual_position = 0;
        self.cached_audio = Option::None;
        self.cached_song_id = Option::None;
        let mut events: Vec<PlayerEvent> = Vec::new();
        events.push(PlayerEvent::Error(message));
        events.push(PlayerEvent::StateChanged(self.state.snapshot()));
        events.push(PlayerEvent::TrackChanged(Option::None));
        proof {
            assert(self.state == stop_spec(*old(self)).state);
            assert(events_view(events@) =~= seq![
                EventModel::Error(events@[0]->Error_0),
                EventModel::StateChanged(stop_spec(*old(self)).state@),
                EventModel::TrackChanged(Option::<ItemModel>::None),
            ]);
        }
        events
    }

    /// Commits a successful seek to `position`: requires a loaded track;
    /// preserves the pause/play flag, swaps in the fresh sink, re-anchors
    /// the extrapolation, and reports the state change.
    pub fn seek_commit(&mut self, position: u64, now: u64) -> (events: Vec<PlayerEvent>)
        requires
            old(self).wf(),
            old(self).state.current_song is Some,
        ensures
            final(self).wf(),
            *final(self) == seek_spec(*old(self), position, now),
            final(self).state.current_position == position,
            final(self).state.is_playing == old(self).state.is_playing,
            events_view(events@) == seq![
                EventModel::StateChanged(seek_spec(*old(self), position, now).state@),
            ],
    {
        self.state.current_position = position;
        self.has_sink = true;
        self.audio_start_time = if self.state.is_playing {
            Some(now)
        } else {
            Option::None
        };
        self.visual_position = position;
        let mut events: Vec<PlayerEvent> = Vec::new();
        events.push(PlayerEvent::StateChanged(self.state.snapshot()));
        proof {
            assert(self.state == seek_spec(*old(self), position, now).state);
            assert(events_view(events@) =~= seq![
                EventModel::StateChanged(seek_spec(*old(self), position, now).state@),
            ]);
        }
        events
    }

    /// `GetState`: recomputes the position, then returns an immutable
    /// snapshot, along with any events the recomputation produced.
    pub fn get_state(&mut self, now: u64) -> (r: (PlaybackState, Vec<PlayerEvent>))
        requires
            old(self).wf(),
            old(self).audio_start_time matches Some(a) ==> a <= now,
            old(self).last_position_update <= now,
        ensures
            final(self).wf(),
            *final(self) == tick_spec(*old(self), now),
            r.0@ == tick_spec(*old(self), now).state@,
            events_view(r.1@) == tick_events_spec(*old(self), now),
    {
        let events: Vec<PlayerEvent> = self.update_position(now);
        let snap: PlaybackState = self.state.snapshot();
        (snap, events)
    }

    /// `NextTrack`: advances the queue index, wrapping under
    /// `RepeatMode::All` and no-opping at the end otherwise; returns the
    /// item to load, if the index moved.
    pub fn next_track(&mut self) -> (r: Option<QueueItem>)
        requires
            old(self).wf(),
        ensures
            final(self).wf(),
            match next_index_spec(*old(self)) {
                Some(j) => {
                    &&& final(self).current_index == Some(j as usize)
                    &&& r matches Some(item) && item@ == old(self).queue@[j]@
                    &&& *final(self) == (PlayerCore {
                        current_index: Some(j as usize),
                        ..*old(self)
                    })
                },
                Option::None => r is None && *final(self) == *old(self),
            },
    {
        let qlen: usize = self.queue.len();
        if qlen == 0 {
            return Option::None;
        }
        let next: Option<usize> = match self.current_index {
            Some(i) => {
                if i + 1 >= qlen {
                    match self.state.repeat_mode {
                        RepeatMode::All => Some(0usize),
                        _ => Option::None,
                    }
                } else {
                    Some(i + 1)
                }
            }
            Option::None => Some(0usize),
        };
        match next {
            Some(j) => {
                self.current_index = Some(j);
                Some(self.queue[j].duplicate())
            }
            Option::None => Option::None,
        }
    }

    /// `PreviousTrack`: retreats the queue index, wrapping under
    /// `RepeatMode::All` and no-opping at the start otherwise; returns the
    /// item to load, if the index moved.
    pub fn previous_track(&mut self) -> (r: Option<QueueItem>)
        requires
            old(self).wf(),
        ensures
            final(self).wf(),
            match prev_index_spec(*old(self)) {
                Some(j) => {
                    &&& final(self).current_index == Some(j as usize)
                    &&& r matches Some(item) && item@ == old(self).queue@[j]@
                    &&& *final(self) == (PlayerCore {
                        current_index: Some(j as usize),
                        ..*old(self)
                    })
                },
                Option::None => r is None && *final(self) == *old(self),
            },
    {
        let qlen: usize = self.queue.len();
        if qlen == 0 {
            return Option::None;
        }
        let prev: Option<usize> = match self.current_index {
            Some(i) => {
                if i == 0 {
                    match self.state.repeat_mode {
                        RepeatMode::All => Some(qlen - 1),
                        _ => Option::None,
                    }
                } else {
                    Some(i - 1)
                }
            }
            Option::None => Some(qlen - 1),
        };
        match prev {
            Some(j) => {
                self.current_index = Some(j);
                Some(self.queue[j].duplicate())
            }
            Option::None => Option::None,
        }
    }
}

/// What the mailbox loop must do outside the core after a command: the
/// sink calls, the load and seek work, and replies.
#[derive(Debug)]
pub enum CommandAction {
    /// Nothing remains: the command was handled entirely in the core.
    Done,
    /// Pause the live sink.
    PauseSink,
    /// Unpause the live sink.
    ResumeSink,
    /// Stop and drop the live sink.
    DropSink,
    /// Apply this clamped volume to the live sink.
    ApplyVolume(u32),
    /// Resolve this item's bytes, build an engine and a sink, and commit
    /// the load.
    LoadTrack(QueueItem),
    /// Rebuild the engine at this offset (native seek first, then the
    /// fallback, then a full restart) and commit the seek.
    SeekTo(u64),
    /// Send this snapshot through the command's reply channel.
    ReplyState(PlaybackState),
    /// End the processing loop; later commands fail on a closed channel.
    Shutdown,
}

impl PlayerCore {
    /// One step of the actor: handles `command` at clock reading `now`,
    /// returning the events to broadcast and the outside action that
    /// remains. Commands are processed strictly in arrival order; this is
    /// the whole decision the loop takes per command.
    pub fn handle_command(&mut self, command: PlayerCommand, now: u64) -> (r: (
        Vec<PlayerEvent>,
        CommandAction,
    ))
        requires
            old(self).wf(),
            old(self).audio_start_time matches Some(a) ==> a <= now,
            old(self).last_position_update <= now,
        ensures
            final(self).wf(),
            match command {
                PlayerCommand::PlayItem(item) => {
                    &&& *final(self) == *old(self)
                    &&& events_view(r.0@) == Seq::<EventModel>::empty()
                    &&& r.1 == CommandAction::LoadTrack(item)
                },
                PlayerCommand::Pause => {
                    &&& *final(self) == pause_spec(*old(self), now)
                    &&& r.1 == (if old(self).has_sink {
                        CommandAction::PauseSink
                    } else {
                        CommandAction::Done
                    })
                },
                PlayerCommand::Resume => {
                    &&& *final(self) == resume_spec(*old(self), now)
                    &&& r.1 == (if old(self).has_sink {
                        CommandAction::ResumeSink
                    } else {
                        CommandAction::Done
                    })
                },
                PlayerCommand::Stop => {
                    &&& *final(self) == stop_spec(*old(self))
                    &&& r.1 == CommandAction::DropSink
                },
                PlayerCommand::SetVolume(v) => {
                    &&& final(self).state.volume == (if v <= MAX_VOLUME {
                        v
                    } else {
                        MAX_VOLUME
                    })
                    &&& r.1 == CommandAction::ApplyVolume(final(self).state.volume)
                },
                PlayerCommand::Seek(p) => {
                    &&& *final(self) == *old(self)
                    &&& r.1 == (if old(self).state.current_song is Some {
                        CommandAction::SeekTo(p)
                    } else {
                        CommandAction::Done
                    })
                },
                PlayerCommand::ToggleShuffle => {
                    &&& final(self).state.is_shuffled == !old(self).state.is_shuffled
                    &&& r.1 == CommandAction::Done
                },
                PlayerCommand::SetRepeatMode(mode) => {
                    &&& final(self).state.repeat_mode == mode
                    &&& r.1 == CommandAction::Done
                },
                PlayerCommand::GetState => {
                    &&& *final(self) == tick_spec(*old(self), now)
                    &&& events_view(r.0@) == tick_events_spec(*old(self), now)
                    &&& r.1 matches CommandAction::ReplyState(snap) && snap@ == tick_spec(
                        *old(self), now).state@
                },
                PlayerCommand::NextTrack => match next_index_spec(*old(self)) {
                    Some(j) => {
                        &&& final(self).current_index == Some(j as usize)
                        &&& r.1 matches CommandAction::LoadTrack(it) && it@ == old(
                            self).queue@[j]@
                    },
                    Option::None => *final(self) == *old(self) && r.1 == CommandAction::Done,
                },
                PlayerCommand::PreviousTrack => match prev_index_spec(*old(self)) {
                    Some(j) => {
                        &&& final(self).current_index == Some(j as usize)
                        &&& r.1 matches CommandAction::LoadTrack(it) && it@ == old(
                            self).queue@[j]@
                    },
                    Option::None => *final(self) == *old(self) && r.1 == CommandAction::Done,
                },
                PlayerCommand::Shutdown => {
                    &&& *final(self) == *old(self)
                    &&& r.1 == CommandAction::Shutdown
                },
            },
    {
        match command {
            PlayerCommand::PlayItem(item) => (Vec::new(), CommandAction::LoadTrack(item)),
            PlayerCommand::Pause => {
                let had_sink: bool = self.has_sink;
                let events = self.pause(now);
                let action = if had_sink {
                    CommandAction::PauseSink
                } else {
                    CommandAction::Done
                };
                (events, action)
            }
            PlayerCommand::Resume => {
                let had_sink: bool = self.has_sink;
                let events = self.resume(now);
                let action = if had_sink {
                    CommandAction::ResumeSink
                } else {
                    CommandAction::Done
                };
                (events, action)
            }
            PlayerCommand::Stop => {
                let events = self.stop();
                (events, CommandAction::DropSink)
            }
            PlayerCommand::SetVolume(v) => {
                let events = self.set_volume(v);
                (events, CommandAction::ApplyVolume(self.state.volume))
            }
            PlayerCommand::Seek(p) => {
                let action = if self.state.current_song.is_some() {
                    CommandAction::SeekTo(p)
                } else {
                    CommandAction::Done
                };
                (Vec::new(), action)
            }
            PlayerCommand::ToggleShuffle => {
                let events = self.toggle_shuffle();
                (events, CommandAction::Done)
            }
            PlayerCommand::SetRepeatMode(mode) => {
                let events = self.set_repeat_mode(mode);
                (events, CommandAction::Done)
            }
            PlayerCommand::GetState => {
                let (snapshot, events) = self.get_state(now);
                (events, CommandAction::ReplyState(snapshot))
            }
            PlayerCommand::NextTrack => {
                match self.next_track() {
                    Some(item) => (Vec::new(), CommandAction::LoadTrack(item)),
                    Option::None => (Vec::new(), CommandAction::Done),
                }
            }
            PlayerCommand::PreviousTrack => {
                match self.previous_track() {
                    Some(item) => (Vec::new(), CommandAction::LoadTrack(item)),
                    Option::None => (Vec::new(), CommandAction::Done),
                }
            }
            PlayerCommand::Shutdown => (Vec::new(), CommandAction::Shutdown),
        }
    }
}

/// The locator under which a cached local file is handed back to the
/// player: the inverse of the plan that strips the scheme again.
pub fn local_url(path: &String) -> (r: String)
    ensures
        r@ == "file://"@ + path@,
        has_file_scheme(r@),
        r@.skip(7) == path@,
{
    let mut r: String = "file://".to_owned();
    r.append(path.as_str());
    proof {
        broadcast use vstd::string::group_string_axioms;
        reveal_strlit("file://");
        assert("file://"@ =~= seq!['f', 'i', 'l', 'e', ':', '/', '/']);
        assert(r@.take(7) =~= seq!['f', 'i', 'l', 'e', ':', '/', '/']);
        assert(r@.skip(7) =~= path@);
    }
    r
}

/// The position-monotonicity law: while playing with no seek or pause in
/// between, successive state reads report non-decreasing positions, a known
/// duration is never exceeded, and once the duration is reached the read
/// reports exactly the duration and playback has stopped.
pub proof fn lemma_position_monotonic(c: PlayerCore, t1: u64, t2: u64)
    requires
        c.wf(),
        c.state.is_playing,
        c.audio_start_time matches Some(a) && a <= t1,
        t1 <= t2,
        c.last_position_update <= t1,
    ensures
        tick_spec(c, t1).state.current_position <= tick_spec(tick_spec(c, t1), t2)
            .state.current_position,
        c.state.duration > 0 ==> tick_spec(c, t1).state.current_position <= c.state.duration,
        c.state.duration > 0 ==> tick_spec(tick_spec(c, t1), t2).state.current_position
            <= c.state.duration,
        track_finished(c, t2) ==> tick_spec(tick_spec(c, t1), t2).state.current_position
            == c.state.duration && !tick_spec(tick_spec(c, t1), t2).state.is_playing,
{
    let c1 = tick_spec(c, t1);
    let c2 = tick_spec(c1, t2);
    if track_finished(c, t1) {
        assert(c1.state.current_position == c.state.duration);
        assert(c2 == c1);
    } else {
        assert(c1.state.current_position == position_at(c, t1));
        if track_finished(c1, t2) {
            assert(c2.state.current_position == c.state.duration);
        } else {
            assert(c2.state.current_position == position_at(c1, t2));
        }
    }
}

/// The seek-accuracy law: after a committed seek to `t` below a known
/// duration, a state read within one tick interval reports a position
/// within one tick interval of `t`.
pub proof fn lemma_seek_accuracy(c: PlayerCore, t: u64, now: u64, read_time: u64)
    requires
        c.wf(),
        c.state.current_song is Some,
        t < c.state.duration,
        now <= read_time,
        read_time <= now + TICK_INTERVAL_MS,
    ensures
        ({
            let p = tick_spec(seek_spec(c, t, now), read_time).state.current_position;
            t <= p <= t + TICK_INTERVAL_MS
        }),
{
    let c1 = seek_spec(c, t, now);
    if c.state.is_playing {
        assert(c1.audio_start_time == Some(now));
        assert(extrapolated_position(c1, read_time) == t + read_time - now);
    } else {
        assert(tick_spec(c1, read_time) == c1);
    }
}

/// The pause/resume round-trip law: pausing and later resuming leaves the
/// reported position unchanged across the paused interval; a state read at
/// resume time still reports it.
pub proof fn lemma_pause_resume_roundtrip(c: PlayerCore, t1: u64, t2: u64)
    requires
        c.wf(),
        c.has_sink,
        c.audio_start_time matches Some(a) ==> a <= t1,
        t1 <= t2,
        c.last_position_update <= t2,
        !c.state.is_playing && c.state.duration > 0 ==> c.state.current_position
            <= c.state.duration,
    ensures
        ({
            let paused = pause_spec(c, t1);
            let resumed = resume_spec(paused, t2);
            &&& resumed.state.current_position == paused.state.current_position
            &&& tick_spec(resumed, t2).state.current_position == paused.state.current_position
        }),
{
    let paused = pause_spec(c, t1);
    let resumed = resume_spec(paused, t2);
    assert(resumed.state.current_position == paused.state.current_position);
    if track_finished(resumed, t2) {
        assert(paused.state.current_position == position_at(c, t1));
        assert(extrapolated_position(resumed, t2) == paused.state.current_position);
        assert(paused.state.current_position <= resumed.state.duration);
        assert(paused.state.current_position == resumed.state.duration);
        assert(tick_spec(resumed, t2).state.current_position == resumed.state.duration);
    } else {
        assert(tick_spec(resumed, t2).state.current_position == position_at(resumed, t2));
    }
}

} // verus!
