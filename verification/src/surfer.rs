//! The channel surfer: a list of videos ("channels") played one at a time,
//! flipped with keys, clicks and scrolling, with an on-screen channel badge
//! and a post-processing effect.
//!
//! Times are milliseconds on a monotonic clock that the caller supplies.
use vstd::prelude::*;
use vstd::string::*;
use crate::effects::{effect_name, next_effect, prev_defined, prev_effect, VideoEffect};
use crate::image::{opaque, Color, Image};
use crate::paths::{file_stem, lowercase, path_stem, to_lower};
use crate::probe::same_text;
use crate::player::{elapsed_secs, seconds_between, PlayerCommand};

verus! {

/// A frame as plain values: width, height and pixels.
pub type FrameView = (usize, usize, Seq<Color>);

/// The value of a frame.
pub open spec fn frame_view(img: Image) -> FrameView {
    (img.width, img.height, img.pixels@)
}

/// The surfer's state.
pub struct ChannelSurfer {
    /// Paths of the videos, in channel order.
    pub channels: Vec<String>,
    pub current_channel: usize,
    pub playing: bool,
    pub muted: bool,
    /// A player is attached.
    pub player_loaded: bool,
    /// The channel badge is shown, and since when.
    pub show_channel_info: bool,
    pub channel_info_since_ms: Option<u64>,
    pub last_mouse_activity_ms: u64,
    /// A video waiting to be loaded.
    pub pending_video: Option<String>,
    pub glitch_mode: bool,
    pub active_effect: VideoEffect,
    /// The last frame shown with the effect, kept for when the decoder has
    /// no new frame.
    pub last_processed_frame: Option<Image>,
}

/// The surfer's state as plain values.
pub struct SurferView {
    pub channels: Seq<Seq<char>>,
    pub current_channel: usize,
    pub playing: bool,
    pub muted: bool,
    pub player_loaded: bool,
    pub show_channel_info: bool,
    pub channel_info_since_ms: Option<u64>,
    pub last_mouse_activity_ms: u64,
    pub pending_video: Option<Seq<char>>,
    pub glitch_mode: bool,
    pub active_effect: VideoEffect,
    pub last_processed_frame: Option<FrameView>,
}

/// The texts of a list of strings.
pub open spec fn texts(v: Seq<String>) -> Seq<Seq<char>> {
    v.map_values(|s: String| s@)
}

impl View for ChannelSurfer {
    type V = SurferView;

    open spec fn view(&self) -> SurferView {
        SurferView {
            channels: texts(self.channels@),
            current_channel: self.current_channel,
            playing: self.playing,
            muted: self.muted,
            player_loaded: self.player_loaded,
            show_channel_info: self.show_channel_info,
            channel_info_since_ms: self.channel_info_since_ms,
            last_mouse_activity_ms: self.last_mouse_activity_ms,
            pending_video: match self.pending_video {
                Some(p) => Some(p@),
                None => None,
            },
            glitch_mode: self.glitch_mode,
            active_effect: self.active_effect,
            last_processed_frame: match self.last_processed_frame {
                Some(f) => Some(frame_view(f)),
                None => None,
            },
        }
    }
}

/// The current channel is a valid index (when there are channels), and the
/// effect can be stepped backward.
pub open spec fn surfer_wf(s: SurferView) -> bool {
    &&& s.channels.len() > 0 ==> s.current_channel < s.channels.len()
    &&& s.channels.len() <= usize::MAX
    &&& prev_defined(s.active_effect)
}

/// Whether the channel index of `s` stays valid once its channel list
/// becomes `channels`: files dropped on a surfer without channels turn the
/// index into a channel index.
pub open spec fn index_survives_drop(s: SurferView, channels: Seq<Seq<char>>) -> bool {
    s.channels.len() > 0 || channels.len() == 0 || s.current_channel < channels.len()
}

/// Next channel, wrapping around; its video becomes pending.
pub open spec fn next_channel_step(s: SurferView) -> SurferView {
    if s.channels.len() == 0 {
        s
    } else {
        let c = ((s.current_channel + 1) % (s.channels.len() as int)) as usize;
        SurferView { current_channel: c, pending_video: Some(s.channels[c as int]), ..s }
    }
}

/// Previous channel, wrapping around; its video becomes pending.
pub open spec fn prev_channel_step(s: SurferView) -> SurferView {
    if s.channels.len() == 0 {
        s
    } else {
        let c = if s.current_channel == 0 {
            (s.channels.len() - 1) as usize
        } else {
            (s.current_channel - 1) as usize
        };
        SurferView { current_channel: c, pending_video: Some(s.channels[c as int]), ..s }
    }
}

/// Play/pause toggle.
pub open spec fn surfer_toggle_play_step(s: SurferView) -> (SurferView, Seq<PlayerCommand>) {
    let playing = !s.playing;
    (
        SurferView { playing, ..s },
        if !s.player_loaded {
            seq![]
        } else if playing {
            seq![PlayerCommand::Start]
        } else {
            seq![PlayerCommand::Pause]
        },
    )
}

/// Mute toggle.
pub open spec fn surfer_toggle_mute_step(s: SurferView) -> (SurferView, Seq<PlayerCommand>) {
    let muted = !s.muted;
    (
        SurferView { muted, ..s },
        if s.player_loaded {
            seq![PlayerCommand::SetMuted { muted }]
        } else {
            seq![]
        },
    )
}

/// Next effect; the cached frame is dropped.
pub open spec fn cycle_effect_step(s: SurferView) -> SurferView {
    SurferView { active_effect: next_effect(s.active_effect), last_processed_frame: None, ..s }
}

/// Previous effect; the cached frame is dropped.
pub open spec fn back_effect_step(s: SurferView) -> SurferView {
    SurferView { active_effect: prev_effect(s.active_effect), last_processed_frame: None, ..s }
}

/// The message logged for the effect now active.
pub open spec fn effect_message(e: VideoEffect) -> Seq<char> {
    "Effect: "@ + effect_name(e)
}

/// The message logged for the glitch mode now set.
pub open spec fn glitch_message(on: bool) -> Seq<char> {
    "Glitch mode: "@ + (if on {
        "ON"@
    } else {
        "OFF"@
    })
}

/// The channel list with `path` appended unless already present.
pub open spec fn add_channel(channels: Seq<Seq<char>>, path: Seq<char>) -> Seq<Seq<char>> {
    if channels.contains(path) {
        channels
    } else {
        channels.push(path)
    }
}

/// The channel list with each dropped path added in turn.
pub open spec fn add_channels(channels: Seq<Seq<char>>, paths: Seq<Seq<char>>) -> Seq<Seq<char>>
    decreases paths.len(),
{
    if paths.len() == 0 {
        channels
    } else {
        add_channel(add_channels(channels, paths.drop_last()), paths.last())
    }
}

/// The input of one frame.
pub struct SurferInput {
    pub now_ms: u64,
    /// The pointer moved, or entered the window.
    pub mouse_moved: bool,
    /// Right arrow.
    pub next_channel: bool,
    /// Left arrow.
    pub prev_channel: bool,
    /// Space.
    pub toggle_play: bool,
    /// `M`.
    pub toggle_mute: bool,
    /// `G`.
    pub toggle_glitch: bool,
    /// `S`.
    pub cycle_effect: bool,
    /// The wheel scrolled up (back one effect) or down (forward one).
    pub scroll_up: bool,
    pub scroll_down: bool,
    /// `Q` or Escape.
    pub show_info: bool,
    /// Paths of files dropped on the window.
    pub dropped: Vec<String>,
}

/// What one frame's input leads to: player commands and log lines.
pub struct SurferOutput {
    pub commands: Vec<PlayerCommand>,
    pub messages: Vec<String>,
}

/// Pointer activity, channel keys, play/pause and mute of one frame's input.
pub open spec fn input_controls_step(s: SurferView, i: SurferInput) -> (SurferView, Seq<PlayerCommand>) {
    let s0 = if i.mouse_moved {
        SurferView { last_mouse_activity_ms: i.now_ms, ..s }
    } else {
        s
    };
    let s1 = if i.next_channel {
        next_channel_step(s0)
    } else {
        s0
    };
    let s2 = if i.prev_channel {
        prev_channel_step(s1)
    } else {
        s1
    };
    let (s3, c3) = if i.toggle_play {
        surfer_toggle_play_step(s2)
    } else {
        (s2, seq![])
    };
    let (s4, c4) = if i.toggle_mute {
        surfer_toggle_mute_step(s3)
    } else {
        (s3, seq![])
    };
    (s4, c3 + c4)
}

/// Glitch mode, effect key and wheel of one frame's input (scrolling up
/// wins over down), with the lines they log.
pub open spec fn input_effects_step(s: SurferView, i: SurferInput) -> (SurferView, Seq<Seq<char>>) {
    let (s5, m5) = if i.toggle_glitch {
        (SurferView { glitch_mode: !s.glitch_mode, ..s }, seq![glitch_message(!s.glitch_mode)])
    } else {
        (s, seq![])
    };
    let (s6, m6) = if i.cycle_effect {
        let t = cycle_effect_step(s5);
        (t, seq![effect_message(t.active_effect)])
    } else {
        (s5, seq![])
    };
    let (s7, m7) = if i.scroll_up {
        let t = back_effect_step(s6);
        (t, seq![effect_message(t.active_effect)])
    } else if i.scroll_down {
        let t = cycle_effect_step(s6);
        (t, seq![effect_message(t.active_effect)])
    } else {
        (s6, seq![])
    };
    (s7, m5 + m6 + m7)
}

/// Badge key and dropped files of one frame's input.
pub open spec fn input_finish_step(s: SurferView, i: SurferInput) -> SurferView {
    let s8 = if i.show_info {
        SurferView { show_channel_info: true, channel_info_since_ms: Some(i.now_ms), ..s }
    } else {
        s
    };
    SurferView { channels: add_channels(s8.channels, texts(i.dropped@)), ..s8 }
}

/// One frame's input, applied in order: pointer activity, channel keys,
/// play/pause, mute, glitch mode, effect keys and wheel, badge, dropped
/// files.  Gives the new state, the player commands and the log lines.
pub open spec fn input_step(s: SurferView, i: SurferInput) -> (SurferView, Seq<PlayerCommand>, Seq<Seq<char>>) {
    let (s4, c) = input_controls_step(s, i);
    let (s7, m) = input_effects_step(s4, i);
    (input_finish_step(s7, i), c, m)
}

/// What the channel badge shows.
pub struct OverlayInfo {
    /// Channel number, counting from 1.
    pub channel_number: usize,
    pub channel_count: usize,
    pub name: String,
    pub glitch_mode: bool,
    pub effect_name: Option<&'static str>,
}

/// The name shown for the current channel: "No channels" without any,
/// otherwise the stem of its path, or "Unknown" when the path has none.
pub open spec fn channel_name_text(s: SurferView) -> Seq<char> {
    if s.channels.len() == 0 {
        "No channels"@
    } else {
        match path_stem(s.channels[s.current_channel as int]) {
            Some(stem) => stem,
            None => "Unknown"@,
        }
    }
}

/// The badge timer: the badge hides more than 2 seconds after it was shown.
pub open spec fn badge_timer_step(s: SurferView, now_ms: u64) -> SurferView {
    match s.channel_info_since_ms {
        Some(t) => if elapsed_secs(now_ms, t) > 2 {
            SurferView { show_channel_info: false, channel_info_since_ms: None, ..s }
        } else {
            s
        },
        None => s,
    }
}

/// A newly loaded video: playback starts (the player takes the mute setting
/// when it has audio), the cached frame is dropped and the badge is shown.
pub open spec fn surfer_load_step(s: SurferView, has_audio: bool, now_ms: u64) -> (SurferView, Seq<PlayerCommand>) {
    (
        SurferView {
            player_loaded: true,
            playing: true,
            last_processed_frame: None,
            show_channel_info: true,
            channel_info_since_ms: Some(now_ms),
            ..s
        },
        if has_audio {
            seq![PlayerCommand::SetMuted { muted: s.muted }, PlayerCommand::Start]
        } else {
            seq![PlayerCommand::Start]
        },
    )
}

/// The first path of a list, if any, as text.
pub open spec fn first_text(paths: Seq<String>) -> Option<Seq<char>> {
    if paths.len() == 0 {
        None
    } else {
        Some(paths[0]@)
    }
}

impl ChannelSurfer {
    /// A surfer over the given videos; the first one is loaded on the first
    /// update, and the badge is shown.
    pub fn new(video_paths: Vec<String>, now_ms: u64) -> (s: ChannelSurfer)
        ensures
            s@ == (SurferView {
                channels: texts(video_paths@),
                current_channel: 0,
                playing: true,
                muted: true,
                player_loaded: false,
                show_channel_info: true,
                channel_info_since_ms: Some(now_ms),
                last_mouse_activity_ms: now_ms,
                pending_video: first_text(video_paths@),
                glitch_mode: false,
                active_effect: VideoEffect::Passthrough,
                last_processed_frame: None,
            }),
            surfer_wf(s@),
    {
        let pending: Option<String> = if video_paths.len() > 0 {
            Some(video_paths[0].clone())
        } else {
            None
        };
        ChannelSurfer {
            channels: video_paths,
            current_channel: 0,
            playing: true,
            muted: true,
            player_loaded: false,
            show_channel_info: true,
            channel_info_since_ms: Some(now_ms),
            last_mouse_activity_ms: now_ms,
            pending_video: pending,
            glitch_mode: false,
            active_effect: VideoEffect::Passthrough,
            last_processed_frame: None,
        }
    }

    /// Switch to the next channel.
    pub fn next_channel(&mut self)
        requires
            old(self)@.channels.len() > 0 ==> old(self).current_channel < usize::MAX,
        ensures
            final(self)@ == next_channel_step(old(self)@),
            surfer_wf(old(self)@) ==> surfer_wf(final(self)@),
    {
        let n: usize = self.channels.len();
        if n == 0 {
            return;
        }
        self.current_channel = (self.current_channel + 1) % n;
        let path: String = self.channels[self.current_channel].clone();
        self.pending_video = Some(path);
    }

    /// Switch to the previous channel.
    pub fn prev_channel(&mut self)
        requires
            old(self)@.channels.len() > 0 ==> old(self).current_channel <= old(self)@.channels.len(),
        ensures
            final(self)@ == prev_channel_step(old(self)@),
            surfer_wf(old(self)@) ==> surfer_wf(final(self)@),
    {
        let n: usize = self.channels.len();
        if n == 0 {
            return;
        }
        self.current_channel = if self.current_channel == 0 {
            n - 1
        } else {
            self.current_channel - 1
        };
        let path: String = self.channels[self.current_channel].clone();
        self.pending_video = Some(path);
    }

    /// Toggle play/pause.
    pub fn toggle_play(&mut self) -> (cmds: Vec<PlayerCommand>)
        ensures
            (final(self)@, cmds@) == surfer_toggle_play_step(old(self)@),
    {
        self.playing = !self.playing;
        let mut cmds: Vec<PlayerCommand> = Vec::new();
        if self.player_loaded {
            if self.playing {
                cmds.push(PlayerCommand::Start);
            } else {
                cmds.push(PlayerCommand::Pause);
            }
        }
        cmds
    }

    /// Toggle mute.
    pub fn toggle_mute(&mut self) -> (cmds: Vec<PlayerCommand>)
        ensures
            (final(self)@, cmds@) == surfer_toggle_mute_step(old(self)@),
    {
        self.muted = !self.muted;
        let mut cmds: Vec<PlayerCommand> = Vec::new();
        if self.player_loaded {
            cmds.push(PlayerCommand::SetMuted { muted: self.muted });
        }
        cmds
    }

    /// Step to the next effect, dropping the cached frame.
    pub fn cycle_effect(&mut self)
        requires
            surfer_wf(old(self)@),
        ensures
            final(self)@ == cycle_effect_step(old(self)@),
            surfer_wf(final(self)@),
    {
        self.active_effect = self.active_effect.next();
        self.last_processed_frame = None;
    }

    /// Step back to the previous effect, dropping the cached frame.
    pub fn back_effect(&mut self)
        requires
            surfer_wf(old(self)@),
        ensures
            final(self)@ == back_effect_step(old(self)@),
            surfer_wf(final(self)@),
    {
        self.active_effect = self.active_effect.prev();
        self.last_processed_frame = None;
    }

    /// The name of the active effect, or `None` when no effect is active.
    pub fn get_effect_name(&self) -> (n: Option<&'static str>)
        ensures
            match n {
                Some(t) => self.active_effect != VideoEffect::Passthrough && t@ == effect_name(
                    self.active_effect,
                ),
                None => self.active_effect == VideoEffect::Passthrough,
            },
    {
        if self.active_effect == VideoEffect::Passthrough {
            None
        } else {
            Some(self.active_effect.name())
        }
    }

    /// The name shown for the current channel.
    pub fn get_channel_name(&self) -> (name: String)
        requires
            self@.channels.len() > 0 ==> self.current_channel < self@.channels.len(),
        ensures
            name@ == channel_name_text(self@),
    {
        if self.channels.len() == 0 {
            return String::from_str("No channels");
        }
        match file_stem(self.channels[self.current_channel].as_str()) {
            Some(stem) => stem,
            None => String::from_str("Unknown"),
        }
    }

    /// A video was loaded for the current channel.
    pub fn finish_load(&mut self, has_audio: bool, now_ms: u64) -> (cmds: Vec<PlayerCommand>)
        ensures
            (final(self)@, cmds@) == surfer_load_step(old(self)@, has_audio, now_ms),
    {
        let mut cmds: Vec<PlayerCommand> = Vec::new();
        if has_audio {
            cmds.push(PlayerCommand::SetMuted { muted: self.muted });
        }
        cmds.push(PlayerCommand::Start);
        self.player_loaded = true;
        self.playing = true;
        self.last_processed_frame = None;
        self.show_channel_info = true;
        self.channel_info_since_ms = Some(now_ms);
        cmds
    }

    /// Take the video waiting to be loaded, if any.
    pub fn take_pending_video(&mut self) -> (p: Option<String>)
        ensures
            p == old(self).pending_video,
            final(self)@ == (SurferView { pending_video: None, ..old(self)@ }),
    {
        self.pending_video.take()
    }

    /// The pointer has moved recently enough (under 3 seconds ago) for the
    /// cursor and the scrubber to show.
    pub fn controls_visible(&self, now_ms: u64) -> (b: bool)
        ensures
            b == (elapsed_secs(now_ms, self.last_mouse_activity_ms) < 3),
    {
        seconds_between(now_ms, self.last_mouse_activity_ms) < 3
    }
}

/// The message for the active effect.
fn effect_line(e: VideoEffect) -> (m: String)
    ensures
        m@ == effect_message(e),
{
    let mut m: String = String::from_str("Effect: ");
    m.append(e.name());
    m
}

/// Appends `v` to `cmds`.
fn append_all<T>(cmds: &mut Vec<T>, v: Vec<T>)
    ensures
        final(cmds)@ == old(cmds)@ + v@,
{
    let mut v = v;
    cmds.append(&mut v);
}

impl ChannelSurfer {
    /// Whether a path is already a channel.
    fn has_channel(&self, path: &String) -> (b: bool)
        ensures
            b == self@.channels.contains(path@),
    {
        let n: usize = self.channels.len();
        let mut i: usize = 0;
        while i < n
            invariant
                n == self.channels@.len(),
                i <= n,
                forall|k: int| 0 <= k < i ==> self.channels@[k]@ != path@,
            decreases n - i,
        {
            if self.channels[i] == *path {
                assert(self@.channels[i as int] == path@);
                return true;
            }
            i = i + 1;
        }
        assert(!self@.channels.contains(path@)) by {
            if self@.channels.contains(path@) {
                let k = choose|k: int| 0 <= k < self@.channels.len() && self@.channels[k] == path@;
                assert(self.channels@[k]@ == path@);
            }
        }
        false
    }

    /// Add dropped files as channels, skipping those already present.
    pub fn add_dropped(&mut self, dropped: &Vec<String>)
        requires
            surfer_wf(old(self)@),
        ensures
            final(self)@ == (SurferView {
                channels: add_channels(old(self)@.channels, texts(dropped@)),
                ..old(self)@
            }),
            index_survives_drop(old(self)@, final(self)@.channels) ==> surfer_wf(final(self)@),
    {
        let n: usize = dropped.len();
        let mut i: usize = 0;
        while i < n
            invariant
                n == dropped@.len(),
                i <= n,
                surfer_wf(old(self)@),
                self@ == (SurferView {
                    channels: add_channels(old(self)@.channels, texts(dropped@.take(i as int))),
                    ..old(self)@
                }),
            decreases n - i,
        {
            let path: &String = &dropped[i];
            let ghost before = self@.channels;
            let ghost t1 = texts(dropped@.take(i + 1));
            assert(t1.drop_last() =~= texts(dropped@.take(i as int)));
            assert(t1.last() == path@);
            assert(add_channels(old(self)@.channels, t1) == add_channel(before, path@));
            if !self.has_channel(path) {
                self.channels.push(path.clone());
                let channel_count: usize = self.channels.len();
                assert(self.channels@.len() == channel_count);
                assert(self@.channels =~= before.push(path@));
            }
            assert(self@.channels =~= add_channels(old(self)@.channels, t1));
            i = i + 1;
        }
        assert(dropped@.take(n as int) =~= dropped@);
        let channel_count: usize = self.channels.len();
        assert(self@.channels.len() == channel_count);
        proof {
            lemma_add_channels_grow(old(self)@.channels, texts(dropped@));
        }
    }

    /// Pointer activity, channel keys, play/pause and mute.
    fn handle_controls(&mut self, input: &SurferInput) -> (cmds: Vec<PlayerCommand>)
        requires
            surfer_wf(old(self)@),
        ensures
            (final(self)@, cmds@) == input_controls_step(old(self)@, *input),
            surfer_wf(final(self)@),
    {
        let mut commands: Vec<PlayerCommand> = Vec::new();
        if input.mouse_moved {
            self.last_mouse_activity_ms = input.now_ms;
        }
        if input.next_channel {
            self.next_channel();
        }
        if input.prev_channel {
            self.prev_channel();
        }
        if input.toggle_play {
            let c: Vec<PlayerCommand> = self.toggle_play();
            append_all(&mut commands, c);
        }
        let ghost c3 = commands@;
        if input.toggle_mute {
            let c: Vec<PlayerCommand> = self.toggle_mute();
            append_all(&mut commands, c);
        } else {
            assert(commands@ == c3 + Seq::<PlayerCommand>::empty());
        }
        commands
    }

    /// Glitch mode, effect key and wheel, with their log lines.
    fn handle_effects(&mut self, input: &SurferInput) -> (messages: Vec<String>)
        requires
            surfer_wf(old(self)@),
        ensures
            (final(self)@, messages@.map_values(|m: String| m@)) == input_effects_step(old(self)@, *input),
            surfer_wf(final(self)@),
    {
        let mut m5: Vec<String> = Vec::new();
        if input.toggle_glitch {
            self.glitch_mode = !self.glitch_mode;
            let mut m: String = String::from_str("Glitch mode: ");
            if self.glitch_mode {
                m.append("ON");
            } else {
                m.append("OFF");
            }
            m5.push(m);
        }
        let mut m6: Vec<String> = Vec::new();
        if input.cycle_effect {
            self.cycle_effect();
            m6.push(effect_line(self.active_effect));
        }
        let mut m7: Vec<String> = Vec::new();
        if input.scroll_up {
            self.back_effect();
            m7.push(effect_line(self.active_effect));
        } else if input.scroll_down {
            self.cycle_effect();
            m7.push(effect_line(self.active_effect));
        }
        let ghost v5 = m5@.map_values(|m: String| m@);
        let ghost v6 = m6@.map_values(|m: String| m@);
        let ghost v7 = m7@.map_values(|m: String| m@);
        let mut messages: Vec<String> = m5;
        append_all(&mut messages, m6);
        append_all(&mut messages, m7);
        assert(messages@.map_values(|m: String| m@) =~= v5 + v6 + v7);
        messages
    }

    /// Act on one frame's input.
    pub fn handle_input(&mut self, input: &SurferInput) -> (out: SurferOutput)
        requires
            surfer_wf(old(self)@),
        ensures
            (final(self)@, out.commands@, out.messages@.map_values(|m: String| m@)) == input_step(
                old(self)@,
                *input,
            ),
            index_survives_drop(old(self)@, final(self)@.channels) ==> surfer_wf(final(self)@),
    {
        let commands: Vec<PlayerCommand> = self.handle_controls(input);
        let messages: Vec<String> = self.handle_effects(input);
        if input.show_info {
            self.show_channel_info = true;
            self.channel_info_since_ms = Some(input.now_ms);
        }
        self.add_dropped(&input.dropped);
        SurferOutput { commands, messages }
    }

    /// Run the badge timer and say what the badge shows, if it is shown.
    pub fn overlay(&mut self, now_ms: u64) -> (info: Option<OverlayInfo>)
        requires
            surfer_wf(old(self)@),
            old(self).current_channel < usize::MAX,
        ensures
            final(self)@ == badge_timer_step(old(self)@, now_ms),
            surfer_wf(final(self)@),
            match info {
                Some(o) => {
                    &&& final(self).show_channel_info
                    &&& o.channel_number == final(self).current_channel + 1
                    &&& o.channel_count == final(self)@.channels.len()
                    &&& o.name@ == channel_name_text(final(self)@)
                    &&& o.glitch_mode == final(self).glitch_mode
                    &&& match o.effect_name {
                        Some(t) => final(self).active_effect != VideoEffect::Passthrough && t@
                            == effect_name(final(self).active_effect),
                        None => final(self).active_effect == VideoEffect::Passthrough,
                    }
                },
                None => !final(self).show_channel_info,
            },
    {
        if let Some(t) = self.channel_info_since_ms {
            if seconds_between(now_ms, t) > 2 {
                self.show_channel_info = false;
                self.channel_info_since_ms = None;
            }
        }
        if !self.show_channel_info {
            return None;
        }
        let count: usize = self.channels.len();
        Some(OverlayInfo {
            channel_number: self.current_channel + 1,
            channel_count: count,
            name: self.get_channel_name(),
            glitch_mode: self.glitch_mode,
            effect_name: self.get_effect_name(),
        })
    }

    /// A click on the picture: primary button for the next channel,
    /// secondary for the previous one.
    pub fn video_click(&mut self, primary: bool, secondary: bool)
        requires
            surfer_wf(old(self)@),
        ensures
            final(self)@ == ({
                let s1 = if primary {
                    next_channel_step(old(self)@)
                } else {
                    old(self)@
                };
                if secondary {
                    prev_channel_step(s1)
                } else {
                    s1
                }
            }),
            surfer_wf(final(self)@),
    {
        if primary {
            self.next_channel();
        }
        if secondary {
            self.prev_channel();
        }
    }

    /// The frame to show while an effect is active: a newly processed frame
    /// (which is also cached), else the cached one, else a 1x1 black frame.
    pub fn choose_frame(&mut self, processed: Option<Image>) -> (shown: Image)
        ensures
            match processed {
                Some(p) => {
                    &&& frame_view(shown) == frame_view(p)
                    &&& final(self)@ == (SurferView { last_processed_frame: Some(frame_view(p)), ..old(self)@ })
                },
                None => {
                    &&& final(self)@ == old(self)@
                    &&& match old(self)@.last_processed_frame {
                        Some(f) => frame_view(shown) == f,
                        None => frame_view(shown) == (1usize, 1usize, seq![opaque(0, 0, 0)]),
                    }
                },
            },
    {
        match processed {
            Some(p) => {
                self.last_processed_frame = Some(p.duplicate());
                p
            },
            None => match &self.last_processed_frame {
                Some(cached) => cached.duplicate(),
                None => {
                    let img: Image = Image::filled(1, 1, Color::black());
                    assert(img.pixels@ =~= seq![opaque(0, 0, 0)]);
                    img
                },
            },
        }
    }
}

/// The state after `k` steps to the next channel.
pub open spec fn flip_forward(s: SurferView, k: nat) -> SurferView
    decreases k,
{
    if k == 0 {
        s
    } else {
        next_channel_step(flip_forward(s, (k - 1) as nat))
    }
}

/// Stepping back after stepping forward returns to the same channel, and
/// the other way round.
pub proof fn lemma_next_prev_channel(s: SurferView)
    requires
        surfer_wf(s),
    ensures
        prev_channel_step(next_channel_step(s)).current_channel == s.current_channel,
        next_channel_step(prev_channel_step(s)).current_channel == s.current_channel,
{
    let n = s.channels.len() as int;
    if n > 0 {
        let c = s.current_channel as int;
        let f = next_channel_step(s);
        let b = prev_channel_step(s);
        if c + 1 < n {
            vstd::arithmetic::div_mod::lemma_small_mod((c + 1) as nat, n as nat);
            assert(f.current_channel == c + 1);
        } else {
            vstd::arithmetic::div_mod::lemma_mod_self_0(n);
            assert(f.current_channel == 0);
        }
        assert(f.channels == s.channels);
        if c == 0 {
            assert(b.current_channel == n - 1);
            vstd::arithmetic::div_mod::lemma_mod_self_0(n);
        } else {
            assert(b.current_channel == c - 1);
            vstd::arithmetic::div_mod::lemma_small_mod(c as nat, n as nat);
        }
        assert(b.channels == s.channels);
    }
}

/// `k` steps forward land `k` channels further on, wrapping around.
pub proof fn lemma_flip_forward(s: SurferView, k: nat)
    requires
        surfer_wf(s),
        s.channels.len() > 0,
    ensures
        flip_forward(s, k).current_channel == (s.current_channel + k) % (s.channels.len() as int),
        flip_forward(s, k).channels == s.channels,
    decreases k,
{
    let n = s.channels.len() as int;
    if k == 0 {
        vstd::arithmetic::div_mod::lemma_small_mod(s.current_channel as nat, n as nat);
    } else {
        lemma_flip_forward(s, (k - 1) as nat);
        let prev = (s.current_channel + k - 1) % n;
        vstd::arithmetic::div_mod::lemma_add_mod_noop_right(1, s.current_channel + k - 1, n);
        assert(flip_forward(s, k) == next_channel_step(flip_forward(s, (k - 1) as nat)));
    }
}

/// Flipping forward through every channel comes back to the starting one.
pub proof fn lemma_full_round_of_channels(s: SurferView)
    requires
        surfer_wf(s),
        s.channels.len() > 0,
    ensures
        flip_forward(s, s.channels.len()).current_channel == s.current_channel,
{
    let n = s.channels.len() as int;
    lemma_flip_forward(s, s.channels.len());
    assert((s.current_channel + n) % n == s.current_channel) by (nonlinear_arith)
        requires
            0 <= s.current_channel < n,
    {
        vstd::arithmetic::div_mod::lemma_mod_add_multiples_vanish(s.current_channel as int, n);
    }
}

/// Adding dropped files keeps the channels free of repeats, keeps every
/// channel, and makes every dropped path a channel.
pub proof fn lemma_add_channels(channels: Seq<Seq<char>>, paths: Seq<Seq<char>>)
    requires
        channels.no_duplicates(),
    ensures
        add_channels(channels, paths).no_duplicates(),
        forall|c: Seq<char>| channels.contains(c) ==> add_channels(channels, paths).contains(c),
        forall|p: Seq<char>| paths.contains(p) ==> add_channels(channels, paths).contains(p),
    decreases paths.len(),
{
    if paths.len() > 0 {
        let before = add_channels(channels, paths.drop_last());
        lemma_add_channels(channels, paths.drop_last());
        let x = paths.last();
        let after = add_channels(channels, paths);
        assert(after == add_channel(before, x));
        assert forall|c: Seq<char>| before.contains(c) implies after.contains(c) by {
            let k = choose|k: int| 0 <= k < before.len() && before[k] == c;
            if !before.contains(x) {
                assert(before.push(x)[k] == c);
            }
        }
        if !before.contains(x) {
            assert(before.push(x)[before.len() as int] == x);
            assert forall|i: int, j: int|
                0 <= i < after.len() && 0 <= j < after.len() && i != j implies after[i] != after[j] by {
                if i == before.len() as int {
                    assert(before.contains(before[j]));
                } else if j == before.len() as int {
                    assert(before.contains(before[i]));
                }
            }
        }
        assert(after.contains(x)) by {
            if !before.contains(x) {
                assert(after[before.len() as int] == x);
            }
        }
        assert forall|p: Seq<char>| paths.contains(p) implies after.contains(p) by {
            let k = choose|k: int| 0 <= k < paths.len() && paths[k] == p;
            if k < paths.len() - 1 {
                assert(paths.drop_last()[k] == p);
                assert(paths.drop_last().contains(p));
                assert(before.contains(p));
            }
        }
    }
}

/// Adding dropped files never shortens the channel list.
proof fn lemma_add_channels_grow(channels: Seq<Seq<char>>, paths: Seq<Seq<char>>)
    ensures
        add_channels(channels, paths).len() >= channels.len(),
    decreases paths.len(),
{
    if paths.len() > 0 {
        lemma_add_channels_grow(channels, paths.drop_last());
    }
}

/// Extensions of files taken as videos when a directory is scanned.
pub open spec fn video_extensions() -> Seq<Seq<char>> {
    seq![
        "mp4"@, "mov"@, "avi"@, "mkv"@, "webm"@, "flv"@, "wmv"@, "m4v"@, "mpg"@, "mpeg"@, "3gp"@,
        "3g2"@, "ogv"@,
    ]
}

/// Extensions of files never taken as videos.
pub open spec fn excluded_extensions() -> Seq<Seq<char>> {
    seq![
        "png"@, "jpg"@, "jpeg"@, "gif"@, "bmp"@, "tiff"@, "webp"@, "svg"@, "heic"@, "raw"@, "mp3"@,
        "wav"@, "flac"@, "aac"@, "ogg"@, "wma"@, "m4a"@, "txt"@, "json"@, "xml"@, "pdf"@, "doc"@,
        "zip"@, "tar"@, "gz"@, "dmg"@, "app"@, "exe"@,
    ]
}

/// Whether a file found in a scanned directory is taken as a channel: not
/// hidden (name starting with `.`), and with an extension that, lowercased,
/// is a video extension and not an excluded one.
pub open spec fn accepts_scanned(name: Option<Seq<char>>, extension: Option<Seq<char>>) -> bool {
    let hidden = name matches Some(n) && n.len() > 0 && n[0] == '.';
    &&& !hidden
    &&& extension matches Some(e) && video_extensions().contains(lowercase(e))
        && !excluded_extensions().contains(lowercase(e))
}

/// Whether `x` is one of the texts in `list`.
fn listed(x: &str, list: &[&str]) -> (b: bool)
    ensures
        b == list@.map_values(|s: &str| s@).contains(x@),
{
    let n: usize = list.len();
    let ghost texts = list@.map_values(|s: &str| s@);
    let mut i: usize = 0;
    while i < n
        invariant
            n == list@.len(),
            texts == list@.map_values(|s: &str| s@),
            i <= n,
            forall|k: int| 0 <= k < i ==> texts[k] != x@,
        decreases n - i,
    {
        if same_text(list[i], x) {
            assert(texts[i as int] == x@);
            return true;
        }
        i = i + 1;
    }
    assert(!texts.contains(x@)) by {
        if texts.contains(x@) {
            let k = choose|k: int| 0 <= k < texts.len() && texts[k] == x@;
            assert(texts[k] == x@);
        }
    }
    false
}

/// Whether a file found in a scanned directory is taken as a channel (see
/// `accepts_scanned`); `name` and `extension` are its file name and
/// extension, when they are text.
pub fn accepts_scanned_file(name: Option<&str>, extension: Option<&str>) -> (b: bool)
    ensures
        b == accepts_scanned(
            match name {
                Some(n) => Some(n@),
                None => None,
            },
            match extension {
                Some(e) => Some(e@),
                None => None,
            },
        ),
{
    if let Some(n) = name {
        if n.unicode_len() > 0 && n.get_char(0) == '.' {
            return false;
        }
    }
    match extension {
        Some(e) => {
            let lower: String = to_lower(e);
            let video: [&str; 13] = [
                "mp4", "mov", "avi", "mkv", "webm", "flv", "wmv", "m4v", "mpg", "mpeg", "3gp", "3g2",
                "ogv",
            ];
            let excluded: [&str; 28] = [
                "png", "jpg", "jpeg", "gif", "bmp", "tiff", "webp", "svg", "heic", "raw", "mp3", "wav",
                "flac", "aac", "ogg", "wma", "m4a", "txt", "json", "xml", "pdf", "doc", "zip", "tar",
                "gz", "dmg", "app", "exe",
            ];
            let in_video: bool = listed(lower.as_str(), &video);
            let in_excluded: bool = listed(lower.as_str(), &excluded);
            assert(video@.map_values(|s: &str| s@) =~= video_extensions());
            assert(excluded@.map_values(|s: &str| s@) =~= excluded_extensions());
            in_video && !in_excluded
        },
        None => false,
    }
}

/// On a non-empty list, switching channel moves one channel along (wrapping
/// at either end), keeps the list, and makes the new channel's video the one
/// to load.
pub proof fn lemma_switch_loads_new_channel(s: SurferView)
    requires
        surfer_wf(s),
        s.channels.len() > 0,
    ensures
        ({
            let n = s.channels.len() as int;
            let t = next_channel_step(s);
            &&& t.current_channel == (s.current_channel + 1) % n
            &&& t.channels == s.channels
            &&& t.pending_video == Some(s.channels[t.current_channel as int])
        }),
        ({
            let n = s.channels.len() as int;
            let t = prev_channel_step(s);
            &&& t.current_channel == (s.current_channel + n - 1) % n
            &&& t.channels == s.channels
            &&& t.pending_video == Some(s.channels[t.current_channel as int])
        }),
{
    let n = s.channels.len() as int;
    let c = s.current_channel as int;
    if c == 0 {
        vstd::arithmetic::div_mod::lemma_small_mod((n - 1) as nat, n as nat);
    } else {
        vstd::arithmetic::div_mod::lemma_mod_add_multiples_vanish(c - 1, n);
        vstd::arithmetic::div_mod::lemma_small_mod((c - 1) as nat, n as nat);
    }
}

/// Loading a channel's video starts playback, shows the badge and keeps the
/// surfer's mute setting; a player with audio is first given that same
/// setting, and the last command starts the player.
pub proof fn lemma_load_keeps_mute(s: SurferView, has_audio: bool, now_ms: u64)
    ensures
        ({
            let (t, cmds) = surfer_load_step(s, has_audio, now_ms);
            &&& t.muted == s.muted
            &&& t.playing
            &&& t.player_loaded
            &&& t.show_channel_info
            &&& t.channels == s.channels
            &&& t.current_channel == s.current_channel
            &&& cmds.len() == (if has_audio {
                2int
            } else {
                1int
            })
            &&& cmds.last() == PlayerCommand::Start
            &&& has_audio ==> cmds[0] == (PlayerCommand::SetMuted { muted: s.muted })
            &&& forall|j: int|
                0 <= j < cmds.len() && (#[trigger] cmds[j] is SetMuted) ==> cmds[j]
                    == (PlayerCommand::SetMuted { muted: s.muted })
        }),
{
}

/// The channel badge, shown at `since`, stays up while less than three
/// seconds (3000 ms) have passed and goes down from then on; a badge that
/// is down stays down.  Only the badge fields change.
pub proof fn lemma_badge_timer(s: SurferView, now_ms: u64)
    ensures
        ({
            let t = badge_timer_step(s, now_ms);
            &&& t.show_channel_info == (s.show_channel_info && !(s.channel_info_since_ms matches Some(
                since) && now_ms >= since + 3000))
            &&& t == (SurferView {
                show_channel_info: t.show_channel_info,
                channel_info_since_ms: t.channel_info_since_ms,
                ..s
            })
        }),
{
}

/// Play/pause and mute each flip their setting and give a loaded player the
/// matching command; doing either twice gives back the same settings.
pub proof fn lemma_surfer_toggles(s: SurferView)
    ensures
        surfer_toggle_play_step(s).0.playing == !s.playing,
        surfer_toggle_play_step(s).1 == (if !s.player_loaded {
            Seq::<PlayerCommand>::empty()
        } else if s.playing {
            seq![PlayerCommand::Pause]
        } else {
            seq![PlayerCommand::Start]
        }),
        surfer_toggle_play_step(surfer_toggle_play_step(s).0).0 == s,
        surfer_toggle_mute_step(s).0.muted == !s.muted,
        surfer_toggle_mute_step(s).1 == (if s.player_loaded {
            seq![PlayerCommand::SetMuted { muted: !s.muted }]
        } else {
            Seq::<PlayerCommand>::empty()
        }),
        surfer_toggle_mute_step(surfer_toggle_mute_step(s).0).0 == s,
{
}

} // verus!
