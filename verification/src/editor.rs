//! The clip editor: its state, the vim-like keyboard controls, playback
//! stepping at non-1x speeds, clip marks and looping.
//!
//! Playback speed is kept in tenths (`10` is 1x, the range is `1..=100`,
//! that is 0.1x to 10x).  Times are milliseconds on a monotonic clock that
//! the caller supplies.  Every operation that needs the video player returns
//! the player commands to carry out, in order.
use vstd::prelude::*;
use crate::paths::{clip_file_name, clips_dir_name, clip_paths, file_stem, has_extension, path_has_extension, path_stem};
use crate::player::{elapsed_ms, elapsed_secs, sat_add, sat_sub, seconds_between, PlayerCommand};
use vstd::string::*;

verus! {

/// Which editing mode the editor is in.
#[derive(Clone, Copy, Debug, PartialEq, Eq, Structural)]
pub enum Mode {
    Normal,
    Insert,
}

impl Mode {
    /// The label shown for the mode.
    pub fn label(&self) -> (s: &'static str)
        ensures
            s@ == (if *self == Mode::Normal {
                "NORMAL"@
            } else {
                "INSERT"@
            }),
    {
        match self {
            Mode::Normal => "NORMAL",
            Mode::Insert => "INSERT",
        }
    }

    /// The key help shown for the mode.
    pub fn help(&self) -> (s: &'static str)
        ensures
            s@ == (if *self == Mode::Normal {
                "[i] Insert mode | [Space] Play/Pause | [w/b] Speed | [Shift+I/O] Set marks"@
            } else {
                "[Esc/Enter] Exit | [h/l] Frame | [w/b] Chunk | [i] IN | [o] OUT"@
            }),
    {
        match self {
            Mode::Normal => "[i] Insert mode | [Space] Play/Pause | [w/b] Speed | [Shift+I/O] Set marks",
            Mode::Insert => "[Esc/Enter] Exit | [h/l] Frame | [w/b] Chunk | [i] IN | [o] OUT",
        }
    }
}

/// The editor's state.
pub struct App {
    /// The loaded video, if any.
    pub video_path: Option<String>,
    /// Frame count of the loaded video.
    pub total_frames: Option<u64>,
    pub current_frame: u64,
    /// A player (with frame rate and duration) is attached.
    pub player_loaded: bool,
    pub playing: bool,
    /// Playback speed in tenths.
    pub speed_tenths: u32,
    pub mode: Mode,
    /// Frames moved by a chunk step.
    pub chunk_frames: u64,
    pub clip_start: Option<u64>,
    pub clip_end: Option<u64>,
    pub clip_name: String,
    /// The clip name field should take the keyboard focus.
    pub naming_clip: bool,
    pub muted: bool,
    pub looping_clip: bool,
    /// Status line text and when it was set.
    pub export_status: Option<String>,
    pub status_time_ms: Option<u64>,
    pub last_update_ms: u64,
    /// A video waiting to be loaded.
    pub pending_video: Option<String>,
    /// When playback last stepped a frame at a non-1x speed.
    pub last_speed_step_ms: u64,
}

/// The state a fresh editor starts in.
pub open spec fn initial_app(video_path: Option<String>, now_ms: u64, clip_name: String) -> App {
    App {
        video_path: None,
        total_frames: None,
        current_frame: 0,
        player_loaded: false,
        playing: false,
        speed_tenths: 10,
        mode: Mode::Normal,
        chunk_frames: 30,
        clip_start: None,
        clip_end: None,
        clip_name,
        naming_clip: false,
        muted: true,
        looping_clip: false,
        export_status: None,
        status_time_ms: None,
        last_update_ms: now_ms,
        pending_video: video_path,
        last_speed_step_ms: now_ms,
    }
}

/// Seek to a frame: with a player attached the frame becomes current and
/// the player is asked to seek; without one nothing happens.
pub open spec fn seek_step(s: App, frame: u64) -> (App, Seq<PlayerCommand>) {
    if s.player_loaded {
        (App { current_frame: frame, ..s }, seq![PlayerCommand::Seek { frame }])
    } else {
        (s, seq![])
    }
}

/// Play/pause toggle.  Starting only drives the player at 1x; other speeds
/// step frame by frame.
pub open spec fn toggle_play_step(s: App, now_ms: u64) -> (App, Seq<PlayerCommand>) {
    let playing = !s.playing;
    let cmds = if !s.player_loaded {
        seq![]
    } else if playing {
        if s.speed_tenths == 10 {
            seq![PlayerCommand::Start]
        } else {
            seq![]
        }
    } else {
        seq![PlayerCommand::Pause]
    };
    (App { playing, last_speed_step_ms: now_ms, ..s }, cmds)
}

/// Mute toggle.
pub open spec fn toggle_mute_step(s: App) -> (App, Seq<PlayerCommand>) {
    let muted = !s.muted;
    let cmds = if s.player_loaded {
        seq![PlayerCommand::SetMuted { muted }]
    } else {
        seq![]
    };
    (App { muted, ..s }, cmds)
}

/// A requested speed (in tenths) clamped to `1..=100`.
pub open spec fn clamp_speed(requested: int) -> u32 {
    if requested < 1 {
        1
    } else if requested > 100 {
        100
    } else {
        requested as u32
    }
}

/// Speed change.  Back to 1x while playing: seek to the current frame and
/// let the player run; any other speed while playing: pause the player and
/// step frames.
pub open spec fn set_speed_step(s: App, requested: int, now_ms: u64) -> (App, Seq<PlayerCommand>) {
    let speed = clamp_speed(requested);
    let cmds = if s.player_loaded && s.playing {
        if speed == 10 && s.speed_tenths != 10 {
            seq![PlayerCommand::Seek { frame: s.current_frame }, PlayerCommand::Start]
        } else if speed != 10 {
            seq![PlayerCommand::Pause]
        } else {
            seq![]
        }
    } else {
        seq![]
    };
    (App { speed_tenths: speed, last_speed_step_ms: now_ms, ..s }, cmds)
}

/// Pause the player.
pub open spec fn pause_step(s: App) -> (App, Seq<PlayerCommand>) {
    (
        App { playing: false, ..s },
        if s.player_loaded {
            seq![PlayerCommand::Pause]
        } else {
            seq![]
        },
    )
}

/// Resume the player.
pub open spec fn resume_step(s: App) -> (App, Seq<PlayerCommand>) {
    (
        App { playing: true, ..s },
        if s.player_loaded {
            seq![PlayerCommand::Start]
        } else {
            seq![]
        },
    )
}

/// Mode change: entering insert mode pauses, leaving it resumes.
pub open spec fn mode_change_step(s: App, new_mode: Mode) -> (App, Seq<PlayerCommand>) {
    let (s1, c1) = if new_mode == Mode::Insert {
        pause_step(s)
    } else if s.mode == Mode::Insert {
        resume_step(s)
    } else {
        (s, seq![])
    };
    (App { mode: new_mode, ..s1 }, c1)
}

/// Setting the OUT mark at the current frame.  In normal mode the clip
/// then loops, starting over from the IN mark when there is one.
pub open spec fn set_out_step(s: App) -> (App, Seq<PlayerCommand>) {
    let t = App { clip_end: Some(s.current_frame), ..s };
    if t.mode == Mode::Normal {
        let t2 = App { looping_clip: true, ..t };
        match t2.clip_start {
            Some(start) => seek_step(t2, start),
            None => (t2, seq![]),
        }
    } else {
        (t, seq![])
    }
}

impl App {
    /// A fresh editor; `video_path` is loaded on the first update.
    pub fn new(video_path: Option<String>, now_ms: u64) -> (app: App)
        ensures
            app.clip_name@ == Seq::<char>::empty(),
            app == initial_app(video_path, now_ms, app.clip_name),
    {
        App {
            video_path: None,
            total_frames: None,
            current_frame: 0,
            player_loaded: false,
            playing: false,
            speed_tenths: 10,
            mode: Mode::Normal,
            chunk_frames: 30,
            clip_start: None,
            clip_end: None,
            clip_name: String::new(),
            naming_clip: false,
            muted: true,
            looping_clip: false,
            export_status: None,
            status_time_ms: None,
            last_update_ms: now_ms,
            pending_video: video_path,
            last_speed_step_ms: now_ms,
        }
    }

    /// Speed is within 0.1x..=10x.
    pub open spec fn speed_in_range(&self) -> bool {
        1 <= self.speed_tenths <= 100
    }

    /// Seek to a frame.
    pub fn seek_to_frame(&mut self, frame: u64) -> (cmds: Vec<PlayerCommand>)
        ensures
            (*final(self), cmds@) == seek_step(*old(self), frame),
    {
        let mut cmds: Vec<PlayerCommand> = Vec::new();
        if self.player_loaded {
            cmds.push(PlayerCommand::Seek { frame });
            self.current_frame = frame;
        }
        cmds
    }

    /// Toggle play/pause.
    pub fn toggle_play(&mut self, now_ms: u64) -> (cmds: Vec<PlayerCommand>)
        ensures
            (*final(self), cmds@) == toggle_play_step(*old(self), now_ms),
    {
        self.playing = !self.playing;
        let mut cmds: Vec<PlayerCommand> = Vec::new();
        if self.player_loaded {
            if self.playing {
                if self.speed_tenths == 10 {
                    cmds.push(PlayerCommand::Start);
                }
            } else {
                cmds.push(PlayerCommand::Pause);
            }
        }
        self.last_speed_step_ms = now_ms;
        cmds
    }

    /// Toggle mute.
    pub fn toggle_mute(&mut self) -> (cmds: Vec<PlayerCommand>)
        ensures
            (*final(self), cmds@) == toggle_mute_step(*old(self)),
    {
        self.muted = !self.muted;
        let mut cmds: Vec<PlayerCommand> = Vec::new();
        if self.player_loaded {
            cmds.push(PlayerCommand::SetMuted { muted: self.muted });
        }
        cmds
    }

    /// Set the playback speed (in tenths), clamped to 0.1x..=10x.
    pub fn set_speed(&mut self, requested_tenths: i64, now_ms: u64) -> (cmds: Vec<PlayerCommand>)
        ensures
            (*final(self), cmds@) == set_speed_step(*old(self), requested_tenths as int, now_ms),
            final(self).speed_in_range(),
    {
        let old_speed: u32 = self.speed_tenths;
        self.speed_tenths = if requested_tenths < 1 {
            1
        } else if requested_tenths > 100 {
            100
        } else {
            requested_tenths as u32
        };
        let mut cmds: Vec<PlayerCommand> = Vec::new();
        if self.player_loaded && self.playing {
            if self.speed_tenths == 10 && old_speed != 10 {
                cmds.push(PlayerCommand::Seek { frame: self.current_frame });
                cmds.push(PlayerCommand::Start);
            } else if self.speed_tenths != 10 {
                cmds.push(PlayerCommand::Pause);
            }
        }
        self.last_speed_step_ms = now_ms;
        cmds
    }

    /// Pause playback.
    pub fn pause_player(&mut self) -> (cmds: Vec<PlayerCommand>)
        ensures
            (*final(self), cmds@) == pause_step(*old(self)),
    {
        let mut cmds: Vec<PlayerCommand> = Vec::new();
        if self.player_loaded {
            cmds.push(PlayerCommand::Pause);
        }
        self.playing = false;
        cmds
    }

    /// Resume playback.
    pub fn resume_player(&mut self) -> (cmds: Vec<PlayerCommand>)
        ensures
            (*final(self), cmds@) == resume_step(*old(self)),
    {
        let mut cmds: Vec<PlayerCommand> = Vec::new();
        if self.player_loaded {
            cmds.push(PlayerCommand::Start);
        }
        self.playing = true;
        cmds
    }

    /// Switch mode, pausing on entering insert mode and resuming on
    /// leaving it.
    pub fn apply_mode_change(&mut self, new_mode: Mode) -> (cmds: Vec<PlayerCommand>)
        ensures
            (*final(self), cmds@) == mode_change_step(*old(self), new_mode),
    {
        let cmds: Vec<PlayerCommand> = if new_mode == Mode::Insert {
            self.pause_player()
        } else if self.mode == Mode::Insert {
            self.resume_player()
        } else {
            Vec::new()
        };
        self.mode = new_mode;
        cmds
    }

    /// Set the OUT mark at the current frame (looping the clip in normal
    /// mode).
    pub fn set_out_mark(&mut self) -> (cmds: Vec<PlayerCommand>)
        ensures
            (*final(self), cmds@) == set_out_step(*old(self)),
    {
        self.clip_end = Some(self.current_frame);
        if self.mode == Mode::Normal {
            self.looping_clip = true;
            match self.clip_start {
                Some(start) => self.seek_to_frame(start),
                None => Vec::new(),
            }
        } else {
            Vec::new()
        }
    }
}

/// Actions that keyboard input asks for, applied in field order.
#[derive(Clone, Copy, Debug, PartialEq, Eq, Structural)]
pub struct ControlActions {
    pub mode_change: Option<Mode>,
    pub seek_frame: Option<u64>,
    pub toggle_play: bool,
    pub set_in: bool,
    pub set_out: bool,
    /// Speed change in tenths (0 for none).
    pub speed_delta_tenths: i64,
    pub toggle_mute: bool,
    pub start_naming_clip: bool,
}

/// No action at all.
pub open spec fn no_actions() -> ControlActions {
    ControlActions {
        mode_change: None,
        seek_frame: None,
        toggle_play: false,
        set_in: false,
        set_out: false,
        speed_delta_tenths: 0,
        toggle_mute: false,
        start_naming_clip: false,
    }
}

impl Default for ControlActions {
    fn default() -> (a: ControlActions)
        ensures
            a == no_actions(),
    {
        ControlActions {
            mode_change: None,
            seek_frame: None,
            toggle_play: false,
            set_in: false,
            set_out: false,
            speed_delta_tenths: 0,
            toggle_mute: false,
            start_naming_clip: false,
        }
    }
}

/// The keys pressed during one frame, and whether a text field has focus.
#[derive(Clone, Copy, Debug, PartialEq, Eq, Structural)]
pub struct KeyInput {
    pub text_focused: bool,
    pub shift: bool,
    pub a: bool,
    pub b: bool,
    pub h: bool,
    pub i: bool,
    pub l: bool,
    pub o: bool,
    pub w: bool,
    pub space: bool,
    pub open_bracket: bool,
    pub close_bracket: bool,
    pub escape: bool,
    pub enter: bool,
    pub arrow_left: bool,
    pub arrow_right: bool,
    pub arrow_up: bool,
    pub arrow_down: bool,
}

/// Normal-mode keys: `i` enters insert mode, Shift+I / Shift+O set the
/// marks, `l` plays or pauses, `w` / `b` change speed by half a step (all of
/// these only when no text field has focus); Space, `]` and `[` always work.
/// For the speed, a later key in that list overrides an earlier one.
pub open spec fn normal_mode_actions(k: KeyInput, skip_letters: bool, a: ControlActions) -> ControlActions {
    let letters = !skip_letters;
    ControlActions {
        mode_change: if letters && k.i && !k.shift {
            Some(Mode::Insert)
        } else {
            a.mode_change
        },
        set_in: a.set_in || (letters && k.i && k.shift),
        set_out: a.set_out || (letters && k.o && k.shift),
        toggle_play: a.toggle_play || (letters && k.l) || k.space,
        speed_delta_tenths: if k.open_bracket {
            -5i64
        } else if k.close_bracket {
            5
        } else if letters && k.b {
            -5i64
        } else if letters && k.w {
            5
        } else {
            a.speed_delta_tenths
        },
        ..a
    }
}

/// The last frame reachable by stepping forward.
pub open spec fn last_frame(s: App) -> u64 {
    match s.total_frames {
        Some(t) => sat_sub(t, 1),
        None => sat_sub(u64::MAX, 1),
    }
}

/// `a` or `b`, whichever is smaller.
pub open spec fn min_u64(a: u64, b: u64) -> u64 {
    if a <= b {
        a
    } else {
        b
    }
}

/// Insert-mode keys: Escape back to normal mode; `h`/Left and `l`/Right
/// step one frame, `b`/Up and `w`/Down one chunk (never past the last
/// frame; a later key in that list wins); `i` sets IN unless it would come
/// after OUT, `o` sets OUT unless it would come before IN; Enter starts
/// naming the clip when both marks are set and otherwise returns to normal
/// mode.
pub open spec fn insert_mode_actions(s: App, k: KeyInput, a: ControlActions) -> ControlActions {
    let cur = s.current_frame;
    let both_marks = s.clip_start is Some && s.clip_end is Some;
    let in_ok = match s.clip_end {
        Some(end) => cur <= end,
        None => true,
    };
    let out_ok = match s.clip_start {
        Some(start) => cur >= start,
        None => true,
    };
    ControlActions {
        mode_change: if k.enter && !both_marks {
            Some(Mode::Normal)
        } else if k.escape {
            Some(Mode::Normal)
        } else {
            a.mode_change
        },
        seek_frame: if k.w || k.arrow_down {
            Some(min_u64(sat_add(cur, s.chunk_frames), last_frame(s)))
        } else if k.b || k.arrow_up {
            Some(sat_sub(cur, s.chunk_frames))
        } else if k.l || k.arrow_right {
            Some(min_u64(sat_add(cur, 1), last_frame(s)))
        } else if k.h || k.arrow_left {
            Some(sat_sub(cur, 1))
        } else {
            a.seek_frame
        },
        set_in: a.set_in || (k.i && in_ok),
        set_out: a.set_out || (k.o && out_ok),
        start_naming_clip: a.start_naming_clip || (k.enter && both_marks),
        ..a
    }
}

/// All actions asked for by one frame's keys.  `a` toggles mute in either
/// mode unless a text field has focus in normal mode.
pub open spec fn keyboard_actions(s: App, k: KeyInput) -> ControlActions {
    let skip_letters = k.text_focused && s.mode == Mode::Normal;
    let a0 = if k.a && !skip_letters {
        ControlActions { toggle_mute: true, ..no_actions() }
    } else {
        no_actions()
    };
    match s.mode {
        Mode::Normal => normal_mode_actions(k, skip_letters, a0),
        Mode::Insert => insert_mode_actions(s, k, a0),
    }
}

/// First part of applying actions: mode change, seek, play/pause.
pub open spec fn apply_moves_step(s: App, a: ControlActions, now_ms: u64) -> (App, Seq<PlayerCommand>) {
    let (s1, c1) = match a.mode_change {
        Some(m) => mode_change_step(s, m),
        None => (s, seq![]),
    };
    let (s2, c2) = match a.seek_frame {
        Some(f) => seek_step(s1, f),
        None => (s1, seq![]),
    };
    let (s3, c3) = if a.toggle_play {
        toggle_play_step(s2, now_ms)
    } else {
        (s2, seq![])
    };
    (s3, c1 + c2 + c3)
}

/// Second part: the IN mark, then the OUT mark.
pub open spec fn apply_marks_step(s: App, a: ControlActions) -> (App, Seq<PlayerCommand>) {
    let s4 = if a.set_in {
        App { clip_start: Some(s.current_frame), ..s }
    } else {
        s
    };
    if a.set_out {
        set_out_step(s4)
    } else {
        (s4, seq![])
    }
}

/// Last part: speed, mute, clip naming.
pub open spec fn apply_settings_step(s: App, a: ControlActions, now_ms: u64) -> (App, Seq<PlayerCommand>) {
    let (s6, c6) = if a.speed_delta_tenths != 0 {
        set_speed_step(s, s.speed_tenths + a.speed_delta_tenths, now_ms)
    } else {
        (s, seq![])
    };
    let (s7, c7) = if a.toggle_mute {
        toggle_mute_step(s6)
    } else {
        (s6, seq![])
    };
    let s8 = if a.start_naming_clip {
        App { naming_clip: true, ..s7 }
    } else {
        s7
    };
    (s8, c6 + c7)
}

/// Applying actions in order: mode change, seek, play/pause, IN mark, OUT
/// mark, speed, mute, clip naming.
pub open spec fn apply_actions_step(s: App, a: ControlActions, now_ms: u64) -> (App, Seq<PlayerCommand>) {
    let (s3, c1) = apply_moves_step(s, a, now_ms);
    let (s5, c2) = apply_marks_step(s3, a);
    let (s8, c3) = apply_settings_step(s5, a, now_ms);
    (s8, c1 + c2 + c3)
}

impl App {
    /// The actions one frame's keys ask for.
    pub fn collect_keyboard_actions(&self, keys: &KeyInput) -> (a: ControlActions)
        ensures
            a == keyboard_actions(*self, *keys),
    {
        let skip_letters: bool = keys.text_focused && self.mode == Mode::Normal;
        let mut actions: ControlActions = ControlActions::default();
        if keys.a && !skip_letters {
            actions.toggle_mute = true;
        }
        match self.mode {
            Mode::Normal => self.collect_normal_mode_actions(keys, skip_letters, &mut actions),
            Mode::Insert => self.collect_insert_mode_actions(keys, &mut actions),
        }
        actions
    }

    /// Normal-mode keys.
    pub fn collect_normal_mode_actions(&self, keys: &KeyInput, skip_letters: bool, actions: &mut ControlActions)
        ensures
            *final(actions) == normal_mode_actions(*keys, skip_letters, *old(actions)),
    {
        if !skip_letters {
            if keys.i && !keys.shift {
                actions.mode_change = Some(Mode::Insert);
            }
            if keys.i && keys.shift {
                actions.set_in = true;
            }
            if keys.o && keys.shift {
                actions.set_out = true;
            }
            if keys.l {
                actions.toggle_play = true;
            }
            if keys.w {
                actions.speed_delta_tenths = 5;
            }
            if keys.b {
                actions.speed_delta_tenths = -5;
            }
        }
        if keys.space {
            actions.toggle_play = true;
        }
        if keys.close_bracket {
            actions.speed_delta_tenths = 5;
        }
        if keys.open_bracket {
            actions.speed_delta_tenths = -5;
        }
    }

    /// The last frame reachable by stepping forward.
    fn last_frame(&self) -> (f: u64)
        ensures
            f == last_frame(*self),
    {
        let total: u64 = match self.total_frames {
            Some(t) => t,
            None => u64::MAX,
        };
        total.saturating_sub(1)
    }

    /// Insert-mode keys.
    pub fn collect_insert_mode_actions(&self, keys: &KeyInput, actions: &mut ControlActions)
        ensures
            *final(actions) == insert_mode_actions(*self, *keys, *old(actions)),
    {
        let cur: u64 = self.current_frame;
        if keys.escape {
            actions.mode_change = Some(Mode::Normal);
        }
        if keys.h || keys.arrow_left {
            actions.seek_frame = Some(cur.saturating_sub(1));
        }
        if keys.l || keys.arrow_right {
            let max: u64 = self.last_frame();
            let f: u64 = cur.saturating_add(1);
            actions.seek_frame = Some(if f <= max { f } else { max });
        }
        if keys.b || keys.arrow_up {
            actions.seek_frame = Some(cur.saturating_sub(self.chunk_frames));
        }
        if keys.w || keys.arrow_down {
            let max: u64 = self.last_frame();
            let f: u64 = cur.saturating_add(self.chunk_frames);
            actions.seek_frame = Some(if f <= max { f } else { max });
        }
        if keys.i {
            let valid: bool = match self.clip_end {
                Some(end) => cur <= end,
                None => true,
            };
            if valid {
                actions.set_in = true;
            }
        }
        if keys.o {
            let valid: bool = match self.clip_start {
                Some(start) => cur >= start,
                None => true,
            };
            if valid {
                actions.set_out = true;
            }
        }
        if keys.enter {
            if self.clip_start.is_some() && self.clip_end.is_some() {
                actions.start_naming_clip = true;
            } else {
                actions.mode_change = Some(Mode::Normal);
            }
        }
    }

    /// Mode change, seek and play/pause of a set of actions.
    fn apply_moves(&mut self, actions: &ControlActions, now_ms: u64) -> (cmds: Vec<PlayerCommand>)
        ensures
            (*final(self), cmds@) == apply_moves_step(*old(self), *actions, now_ms),
    {
        let mut cmds: Vec<PlayerCommand> = match actions.mode_change {
            Some(m) => self.apply_mode_change(m),
            None => Vec::new(),
        };
        let ghost c1 = cmds@;
        let mut c2: Vec<PlayerCommand> = match actions.seek_frame {
            Some(f) => self.seek_to_frame(f),
            None => Vec::new(),
        };
        let ghost c2v = c2@;
        cmds.append(&mut c2);
        if actions.toggle_play {
            let mut c3: Vec<PlayerCommand> = self.toggle_play(now_ms);
            let ghost c3v = c3@;
            cmds.append(&mut c3);
            assert(cmds@ == c1 + c2v + c3v);
        } else {
            assert(cmds@ == c1 + c2v + Seq::<PlayerCommand>::empty());
        }
        cmds
    }

    /// The IN and OUT marks of a set of actions.
    fn apply_marks(&mut self, actions: &ControlActions) -> (cmds: Vec<PlayerCommand>)
        ensures
            (*final(self), cmds@) == apply_marks_step(*old(self), *actions),
    {
        if actions.set_in {
            self.clip_start = Some(self.current_frame);
        }
        if actions.set_out {
            self.set_out_mark()
        } else {
            Vec::new()
        }
    }

    /// Speed, mute and clip naming of a set of actions.
    fn apply_settings(&mut self, actions: &ControlActions, now_ms: u64) -> (cmds: Vec<PlayerCommand>)
        ensures
            (*final(self), cmds@) == apply_settings_step(*old(self), *actions, now_ms),
            old(self).speed_in_range() || actions.speed_delta_tenths != 0 ==> final(self).speed_in_range(),
    {
        let mut cmds: Vec<PlayerCommand> = if actions.speed_delta_tenths != 0 {
            let sp: i64 = self.speed_tenths as i64;
            let requested: i64 = if actions.speed_delta_tenths > i64::MAX - sp {
                i64::MAX
            } else {
                sp + actions.speed_delta_tenths
            };
            assert(clamp_speed(requested as int) == clamp_speed(
                self.speed_tenths + actions.speed_delta_tenths,
            ));
            self.set_speed(requested, now_ms)
        } else {
            Vec::new()
        };
        let ghost c6 = cmds@;
        if actions.toggle_mute {
            let mut c7: Vec<PlayerCommand> = self.toggle_mute();
            let ghost c7v = c7@;
            cmds.append(&mut c7);
            assert(cmds@ == c6 + c7v);
        } else {
            assert(cmds@ == c6 + Seq::<PlayerCommand>::empty());
        }
        if actions.start_naming_clip {
            self.naming_clip = true;
        }
        cmds
    }

    /// Apply actions in order, returning the player commands they cause.
    pub fn apply_actions(&mut self, actions: ControlActions, now_ms: u64) -> (cmds: Vec<PlayerCommand>)
        ensures
            (*final(self), cmds@) == apply_actions_step(*old(self), actions, now_ms),
            old(self).speed_in_range() || actions.speed_delta_tenths != 0 ==> final(self).speed_in_range(),
    {
        let mut cmds: Vec<PlayerCommand> = self.apply_moves(&actions, now_ms);
        proof {
            lemma_moves_keep_speed(*old(self), actions, now_ms);
        }
        let ghost c1 = cmds@;
        let mut c2: Vec<PlayerCommand> = self.apply_marks(&actions);
        let ghost c2v = c2@;
        cmds.append(&mut c2);
        let mut c3: Vec<PlayerCommand> = self.apply_settings(&actions, now_ms);
        let ghost c3v = c3@;
        cmds.append(&mut c3);
        assert(cmds@ == c1 + c2v + c3v);
        cmds
    }

    /// Read one frame's keys and act on them.
    pub fn handle_keyboard(&mut self, keys: &KeyInput, now_ms: u64) -> (cmds: Vec<PlayerCommand>)
        ensures
            (*final(self), cmds@) == apply_actions_step(
                *old(self),
                keyboard_actions(*old(self), *keys),
                now_ms,
            ),
            old(self).speed_in_range() ==> final(self).speed_in_range(),
    {
        let actions: ControlActions = self.collect_keyboard_actions(keys);
        self.apply_actions(actions, now_ms)
    }
}

/// Moves and play/pause leave the speed alone; so do marks.
proof fn lemma_moves_keep_speed(s: App, a: ControlActions, now_ms: u64)
    ensures
        apply_moves_step(s, a, now_ms).0.speed_tenths == s.speed_tenths,
        apply_marks_step(s, a).0.speed_tenths == s.speed_tenths,
{
}

/// The clip the playback loops over: both marks, when looping is on and
/// both are set.
pub open spec fn loop_bounds(s: App) -> Option<(u64, u64)> {
    if s.looping_clip {
        match (s.clip_start, s.clip_end) {
            (Some(start), Some(end)) => Some((start, end)),
            _ => None,
        }
    } else {
        None
    }
}

/// The frame after the current one when stepping playback: back to the IN
/// mark at the OUT mark of a looping clip, back to 0 at the end of the video.
pub open spec fn next_step_frame(s: App) -> u64 {
    let next = sat_add(s.current_frame, 1);
    match loop_bounds(s) {
        Some((start, end)) => if next >= end {
            start
        } else {
            next
        },
        None => {
            let total = match s.total_frames {
                Some(t) => t,
                None => u64::MAX,
            };
            if next >= total {
                0
            } else {
                next
            }
        },
    }
}

/// One update of the playback clock.
///
/// At a non-1x speed, once `step_interval_ms` has passed since the last
/// step, playback moves to `next_step_frame`.  At 1x the frame the player
/// reports (`observed_frame`) becomes current, and a looping clip that ran
/// past its OUT mark starts over at its IN mark.  A status message more than
/// 3 seconds old is cleared.
pub open spec fn tick_step(s: App, now_ms: u64, step_interval_ms: u64, observed_frame: Option<u64>) -> (App, Seq<PlayerCommand>) {
    let (s1, c1) = if s.playing && s.speed_tenths != 10 {
        if elapsed_ms(now_ms, s.last_speed_step_ms) >= step_interval_ms {
            let (t, c) = seek_step(s, next_step_frame(s));
            (App { last_speed_step_ms: now_ms, ..t }, c)
        } else {
            (s, seq![])
        }
    } else if s.playing && s.player_loaded {
        match observed_frame {
            Some(f) => {
                let t = App { current_frame: f, ..s };
                match loop_bounds(t) {
                    Some((start, end)) => if f >= end {
                        seek_step(t, start)
                    } else {
                        (t, seq![])
                    },
                    None => (t, seq![]),
                }
            },
            None => (s, seq![]),
        }
    } else {
        (s, seq![])
    };
    let s2 = match s1.status_time_ms {
        Some(t) => if elapsed_secs(now_ms, t) > 3 {
            App { export_status: None, status_time_ms: None, ..s1 }
        } else {
            s1
        },
        None => s1,
    };
    (App { last_update_ms: now_ms, ..s2 }, c1)
}

/// A click in the editor's control panel.
#[derive(Clone, Copy, Debug, PartialEq, Eq, Structural)]
pub enum PanelAction {
    PlayPause,
    ChunkBack,
    FrameBack,
    FrameForward,
    ChunkForward,
    SlowDown,
    SpeedUp,
    MarkIn,
    MarkOut,
    ClearMarks,
    ToggleLoop,
    /// The timeline slider was moved to a frame.
    SeekTo { frame: u64 },
}

/// What a panel click does.  The buttons step without the insert-mode
/// clamp at the last frame; the OUT button loops the clip when IN is set.
pub open spec fn panel_step(s: App, action: PanelAction, now_ms: u64) -> (App, Seq<PlayerCommand>) {
    match action {
        PanelAction::PlayPause => toggle_play_step(s, now_ms),
        PanelAction::ChunkBack => seek_step(s, sat_sub(s.current_frame, s.chunk_frames)),
        PanelAction::FrameBack => seek_step(s, sat_sub(s.current_frame, 1)),
        PanelAction::FrameForward => seek_step(s, sat_add(s.current_frame, 1)),
        PanelAction::ChunkForward => seek_step(s, sat_add(s.current_frame, s.chunk_frames)),
        PanelAction::SlowDown => set_speed_step(s, s.speed_tenths - 5, now_ms),
        PanelAction::SpeedUp => set_speed_step(s, s.speed_tenths + 5, now_ms),
        PanelAction::MarkIn => (App { clip_start: Some(s.current_frame), ..s }, seq![]),
        PanelAction::MarkOut => {
            let t = App { clip_end: Some(s.current_frame), ..s };
            match t.clip_start {
                Some(start) => seek_step(App { looping_clip: true, ..t }, start),
                None => (t, seq![]),
            }
        },
        PanelAction::ClearMarks => (
            App { clip_start: None, clip_end: None, looping_clip: false, ..s },
            seq![],
        ),
        PanelAction::ToggleLoop => (App { looping_clip: !s.looping_clip, ..s }, seq![]),
        PanelAction::SeekTo { frame } => seek_step(s, frame),
    }
}

/// Why a clip cannot be exported.
#[derive(Clone, Copy, Debug, PartialEq, Eq, Structural)]
pub enum ExportError {
    NoClipStart,
    NoClipEnd,
    NoVideo,
    NoFrameRate,
    NoClipName,
}

/// The message of an export error.
pub open spec fn export_error_text(e: ExportError) -> Seq<char> {
    match e {
        ExportError::NoClipStart => "no clip start"@,
        ExportError::NoClipEnd => "no clip end"@,
        ExportError::NoVideo => "no video"@,
        ExportError::NoFrameRate => "no fps"@,
        ExportError::NoClipName => "no clip name"@,
    }
}

impl ExportError {
    /// The message of the error.
    pub fn message(&self) -> (m: &'static str)
        ensures
            m@ == export_error_text(*self),
    {
        match self {
            ExportError::NoClipStart => "no clip start",
            ExportError::NoClipEnd => "no clip end",
            ExportError::NoVideo => "no video",
            ExportError::NoFrameRate => "no fps",
            ExportError::NoClipName => "no clip name",
        }
    }
}

/// What to cut: from `start_frame`, `frame_count` frames of `source`, into
/// `filename` inside `clips_dir`.
pub struct ExportPlan {
    pub start_frame: u64,
    pub frame_count: u64,
    pub source: String,
    pub clips_dir: String,
    pub filename: String,
}

/// The first missing piece for an export, checked in this order: IN mark,
/// OUT mark, video, frame rate (a loaded player), clip name.
pub open spec fn export_check(s: App) -> Option<ExportError> {
    if s.clip_start is None {
        Some(ExportError::NoClipStart)
    } else if s.clip_end is None {
        Some(ExportError::NoClipEnd)
    } else if s.video_path is None {
        Some(ExportError::NoVideo)
    } else if !s.player_loaded {
        Some(ExportError::NoFrameRate)
    } else if s.clip_name@.len() == 0 {
        Some(ExportError::NoClipName)
    } else {
        None
    }
}

/// The export plan for a state that has everything an export needs.
pub open spec fn export_plan_ok(s: App, p: ExportPlan) -> bool {
    let start = s.clip_start->0;
    let end = s.clip_end->0;
    let video = s.video_path->0;
    &&& p.start_frame == start
    &&& p.frame_count == end - start
    &&& p.source@ == video@
    &&& p.clips_dir@ == clips_dir_name(path_stem(video@))
    &&& p.filename@ == clip_file_name(p.clips_dir@, s.clip_name@, path_has_extension(s.clip_name@))
}

/// Text of "<prefix><detail>".
pub open spec fn status_text(prefix: Seq<char>, detail: Seq<char>) -> Seq<char> {
    prefix + detail
}

impl App {
    /// One update of the playback clock (see `tick_step`).
    pub fn update_state(&mut self, now_ms: u64, step_interval_ms: u64, observed_frame: Option<u64>) -> (cmds: Vec<PlayerCommand>)
        ensures
            (*final(self), cmds@) == tick_step(*old(self), now_ms, step_interval_ms, observed_frame),
    {
        let mut loop_start: Option<u64> = None;
        let mut loop_end: Option<u64> = None;
        if self.looping_clip {
            loop_start = self.clip_start;
            loop_end = self.clip_end;
        }
        let mut cmds: Vec<PlayerCommand> = Vec::new();
        if self.playing && self.speed_tenths != 10 {
            if now_ms.saturating_sub(self.last_speed_step_ms) >= step_interval_ms {
                let total: u64 = match self.total_frames {
                    Some(t) => t,
                    None => u64::MAX,
                };
                let mut next_frame: u64 = self.current_frame.saturating_add(1);
                match (loop_start, loop_end) {
                    (Some(start), Some(end)) => {
                        if next_frame >= end {
                            next_frame = start;
                        }
                    },
                    _ => {
                        if next_frame >= total {
                            next_frame = 0;
                        }
                    },
                }
                cmds = self.seek_to_frame(next_frame);
                self.last_speed_step_ms = now_ms;
            }
        } else if self.playing && self.player_loaded {
            if let Some(f) = observed_frame {
                self.current_frame = f;
                match (loop_start, loop_end) {
                    (Some(start), Some(end)) => {
                        if f >= end {
                            cmds = self.seek_to_frame(start);
                        }
                    },
                    _ => {},
                }
            }
        }
        if let Some(t) = self.status_time_ms {
            if seconds_between(now_ms, t) > 3 {
                self.export_status = None;
                self.status_time_ms = None;
            }
        }
        self.last_update_ms = now_ms;
        cmds
    }

    /// Act on a click in the control panel.
    pub fn panel_action(&mut self, action: PanelAction, now_ms: u64) -> (cmds: Vec<PlayerCommand>)
        ensures
            (*final(self), cmds@) == panel_step(*old(self), action, now_ms),
            old(self).speed_in_range() ==> final(self).speed_in_range(),
    {
        match action {
            PanelAction::PlayPause => self.toggle_play(now_ms),
            PanelAction::ChunkBack => {
                let f: u64 = self.current_frame.saturating_sub(self.chunk_frames);
                self.seek_to_frame(f)
            },
            PanelAction::FrameBack => {
                let f: u64 = self.current_frame.saturating_sub(1);
                self.seek_to_frame(f)
            },
            PanelAction::FrameForward => {
                let f: u64 = self.current_frame.saturating_add(1);
                self.seek_to_frame(f)
            },
            PanelAction::ChunkForward => {
                let f: u64 = self.current_frame.saturating_add(self.chunk_frames);
                self.seek_to_frame(f)
            },
            PanelAction::SlowDown => {
                let requested: i64 = self.speed_tenths as i64 - 5;
                self.set_speed(requested, now_ms)
            },
            PanelAction::SpeedUp => {
                let requested: i64 = self.speed_tenths as i64 + 5;
                self.set_speed(requested, now_ms)
            },
            PanelAction::MarkIn => {
                self.clip_start = Some(self.current_frame);
                Vec::new()
            },
            PanelAction::MarkOut => {
                self.clip_end = Some(self.current_frame);
                match self.clip_start {
                    Some(start) => {
                        self.looping_clip = true;
                        self.seek_to_frame(start)
                    },
                    None => Vec::new(),
                }
            },
            PanelAction::ClearMarks => {
                self.clip_start = None;
                self.clip_end = None;
                self.looping_clip = false;
                Vec::new()
            },
            PanelAction::ToggleLoop => {
                self.looping_clip = !self.looping_clip;
                Vec::new()
            },
            PanelAction::SeekTo { frame } => self.seek_to_frame(frame),
        }
    }

    /// Both marks and a clip name are set, so the export button is enabled.
    pub fn can_export(&self) -> (b: bool)
        ensures
            b == (self.clip_start is Some && self.clip_end is Some && self.clip_name@.len() > 0),
    {
        self.clip_start.is_some() && self.clip_end.is_some() && !self.clip_name.as_str().is_empty()
    }

    /// Plan the export of the marked clip, or say what is missing.
    pub fn export_plan(&self) -> (r: Result<ExportPlan, ExportError>)
        requires
            export_check(*self) is None ==> self.clip_start->0 <= self.clip_end->0,
        ensures
            match r {
                Ok(p) => export_check(*self) is None && export_plan_ok(*self, p),
                Err(e) => export_check(*self) == Some(e),
            },
    {
        let start: u64 = match self.clip_start {
            Some(v) => v,
            None => return Err(ExportError::NoClipStart),
        };
        let end: u64 = match self.clip_end {
            Some(v) => v,
            None => return Err(ExportError::NoClipEnd),
        };
        let video: &String = match &self.video_path {
            Some(v) => v,
            None => return Err(ExportError::NoVideo),
        };
        if !self.player_loaded {
            return Err(ExportError::NoFrameRate);
        }
        if self.clip_name.as_str().is_empty() {
            return Err(ExportError::NoClipName);
        }
        let stem: Option<String> = file_stem(video.as_str());
        let name_ext: bool = has_extension(self.clip_name.as_str());
        let (clips_dir, filename) = clip_paths(stem, self.clip_name.as_str(), name_ext);
        Ok(ExportPlan { start_frame: start, frame_count: end - start, source: video.clone(), clips_dir, filename })
    }

    /// Record the outcome of an export: on success the status shows the
    /// file, and the marks, clip name and looping are cleared (an export
    /// started from the name field also returns to normal mode); on failure
    /// the status shows the error.
    pub fn finish_export(&mut self, outcome: Result<String, String>, from_name_field: bool, now_ms: u64)
        ensures
            final(self).status_time_ms == Some(now_ms),
            match outcome {
                Ok(file) => {
                    &&& final(self).export_status matches Some(m) && m@ == status_text("Saved: "@, file@)
                    &&& final(self).clip_name@ == Seq::<char>::empty()
                    &&& *final(self) == (App {
                        export_status: final(self).export_status,
                        status_time_ms: Some(now_ms),
                        clip_start: None,
                        clip_end: None,
                        clip_name: final(self).clip_name,
                        looping_clip: false,
                        mode: if from_name_field {
                            Mode::Normal
                        } else {
                            old(self).mode
                        },
                        ..*old(self)
                    })
                },
                Err(e) => {
                    &&& *final(self) == (App {
                        export_status: final(self).export_status,
                        status_time_ms: Some(now_ms),
                        ..*old(self)
                    })
                    &&& final(self).export_status matches Some(m) && m@ == status_text(
                        "Export failed: "@,
                        e@,
                    )
                },
            },
    {
        match outcome {
            Ok(file) => {
                let mut status: String = String::from_str("Saved: ");
                status.append(file.as_str());
                self.export_status = Some(status);
                self.status_time_ms = Some(now_ms);
                self.clip_start = None;
                self.clip_end = None;
                self.clip_name = String::new();
                self.looping_clip = false;
                if from_name_field {
                    self.mode = Mode::Normal;
                }
            },
            Err(e) => {
                let mut status: String = String::from_str("Export failed: ");
                status.append(e.as_str());
                self.export_status = Some(status);
                self.status_time_ms = Some(now_ms);
            },
        }
    }

    /// Record that loading a video failed.
    pub fn load_failed(&mut self, message: &str, now_ms: u64)
        ensures
            final(self).export_status matches Some(m) && m@ == status_text("Failed to load video: "@, message@),
            *final(self) == (App {
                export_status: final(self).export_status,
                status_time_ms: Some(now_ms),
                ..*old(self)
            }),
    {
        let mut status: String = String::from_str("Failed to load video: ");
        status.append(message);
        self.export_status = Some(status);
        self.status_time_ms = Some(now_ms);
    }

    /// Take the video waiting to be loaded, if any.
    pub fn take_pending_video(&mut self) -> (p: Option<String>)
        ensures
            p == old(self).pending_video,
            *final(self) == (App { pending_video: None, ..*old(self) }),
    {
        let p: Option<String> = self.pending_video.take();
        p
    }

    /// Files dropped on the window, each with its path when it has one: the
    /// first of them, if it has a path, is the next video to load.
    pub fn drop_files(&mut self, dropped: &Vec<Option<String>>)
        ensures
            *final(self) == (if dropped@.len() > 0 && dropped@[0] is Some {
                App { pending_video: dropped@[0], ..*old(self) }
            } else {
                *old(self)
            }),
    {
        if dropped.len() > 0 {
            if let Some(path) = &dropped[0] {
                self.pending_video = Some(path.clone());
            }
        }
    }

    /// A video was loaded: it becomes current from frame 0.  When the player
    /// has audio and the editor is muted, the player is muted.
    pub fn finish_load(&mut self, path: String, total_frames: u64, has_audio: bool) -> (cmds: Vec<PlayerCommand>)
        ensures
            *final(self) == (App {
                video_path: Some(path),
                total_frames: Some(total_frames),
                current_frame: 0,
                player_loaded: true,
                ..*old(self)
            }),
            cmds@ == (if has_audio && old(self).muted {
                seq![PlayerCommand::SetMuted { muted: true }]
            } else {
                seq![]
            }),
    {
        let mut cmds: Vec<PlayerCommand> = Vec::new();
        if has_audio && self.muted {
            cmds.push(PlayerCommand::SetMuted { muted: true });
        }
        self.video_path = Some(path);
        self.total_frames = Some(total_frames);
        self.current_frame = 0;
        self.player_loaded = true;
        cmds
    }

    /// Whether the clip name field should take focus now; the request is
    /// consumed.
    pub fn take_naming_request(&mut self) -> (b: bool)
        ensures
            b == old(self).naming_clip,
            *final(self) == (App { naming_clip: false, ..*old(self) }),
    {
        let b: bool = self.naming_clip;
        self.naming_clip = false;
        b
    }
}

/// The IN mark is not after the OUT mark (when both are set).
pub open spec fn marks_ordered(s: App) -> bool {
    match (s.clip_start, s.clip_end) {
        (Some(start), Some(end)) => start <= end,
        _ => true,
    }
}

/// Keys that move the current frame in insert mode.
pub open spec fn moves_frame(k: KeyInput) -> bool {
    k.h || k.l || k.b || k.w || k.arrow_left || k.arrow_right || k.arrow_up || k.arrow_down
}

/// In insert mode the IN and OUT keys never put IN after OUT, unless a
/// frame-moving key is pressed in the same frame while a video is loaded
/// (the move is applied before the mark, after the order test).
pub proof fn lemma_insert_marks_stay_ordered(s: App, k: KeyInput, now_ms: u64)
    requires
        s.mode == Mode::Insert,
        marks_ordered(s),
        !(s.player_loaded && moves_frame(k)),
    ensures
        marks_ordered(apply_actions_step(s, keyboard_actions(s, k), now_ms).0),
{
}

/// In insert mode the keyboard keeps the current frame inside a loaded
/// video (provided the IN mark, where a loop may jump, is inside it too).
pub proof fn lemma_insert_keys_stay_in_video(s: App, k: KeyInput, now_ms: u64)
    requires
        s.mode == Mode::Insert,
        s.player_loaded,
        s.total_frames matches Some(t) && 0 < t && s.current_frame < t,
        s.clip_start matches Some(a) ==> a < s.total_frames->0,
    ensures
        apply_actions_step(s, keyboard_actions(s, k), now_ms).0.current_frame < s.total_frames->0,
{
}

/// Toggling play twice gives back the playing state.
pub proof fn lemma_toggle_play_twice(s: App, t1: u64, t2: u64)
    ensures
        toggle_play_step(toggle_play_step(s, t1).0, t2).0 == (App { last_speed_step_ms: t2, ..s }),
{
}

/// Toggling mute twice gives back the state.
pub proof fn lemma_toggle_mute_twice(s: App)
    ensures
        toggle_mute_step(toggle_mute_step(s).0).0 == s,
{
}

/// Stepped playback of a looping clip stays inside the clip.
pub proof fn lemma_loop_stays_in_clip(
    s: App,
    now_ms: u64,
    step_interval_ms: u64,
    observed_frame: Option<u64>,
)
    requires
        s.playing,
        s.speed_tenths != 10,
        loop_bounds(s) matches Some((start, end)) && start < end && start <= s.current_frame < end,
    ensures
        loop_bounds(s) matches Some((start, end)) && start <= tick_step(
            s,
            now_ms,
            step_interval_ms,
            observed_frame,
        ).0.current_frame < end,
{
}

/// The `a` key toggles mute in either mode, except in normal mode while a
/// text field has focus (the letter then goes to the field); nothing else
/// in a frame's keys changes the mute setting.  With a loaded player the
/// frame's last command gives the player the new setting.
pub proof fn lemma_a_key_toggles_mute(s: App, k: KeyInput, now_ms: u64)
    ensures
        keyboard_actions(s, k).toggle_mute == (k.a && !(k.text_focused && s.mode == Mode::Normal)),
        ({
            let pressed = k.a && !(k.text_focused && s.mode == Mode::Normal);
            let (t, cmds) = apply_actions_step(s, keyboard_actions(s, k), now_ms);
            &&& t.muted == (s.muted != pressed)
            &&& (pressed && s.player_loaded) ==> cmds.len() > 0 && cmds.last()
                == (PlayerCommand::SetMuted { muted: !s.muted })
        }),
{
}

/// A speed change sets the speed to the request clamped to `1..=100`
/// tenths and leaves the position, play state and mute alone.  Playing a
/// loaded video, going back to 1x resumes the player from the current frame,
/// and any other speed pauses the player (frames are then stepped);
/// otherwise no command is given.
pub proof fn lemma_set_speed(s: App, requested: int, now_ms: u64)
    ensures
        ({
            let (t, cmds) = set_speed_step(s, requested, now_ms);
            &&& 1 <= t.speed_tenths <= 100
            &&& (1 <= requested <= 100 ==> t.speed_tenths == requested)
            &&& (requested < 1 ==> t.speed_tenths == 1)
            &&& (requested > 100 ==> t.speed_tenths == 100)
            &&& t.current_frame == s.current_frame
            &&& t.playing == s.playing
            &&& t.muted == s.muted
            &&& (s.player_loaded && s.playing && s.speed_tenths != 10 && t.speed_tenths == 10 ==> cmds
                == seq![
                PlayerCommand::Seek { frame: s.current_frame },
                PlayerCommand::Start,
            ])
            &&& (s.player_loaded && s.playing && t.speed_tenths != 10 ==> cmds == seq![
                PlayerCommand::Pause,
            ])
            &&& (!(s.player_loaded && s.playing) ==> cmds.len() == 0)
        }),
{
}

/// The keys of normal mode.  Space, `]` and `[` always act; the letters act
/// only when no text field has focus: `i` enters insert mode, Shift+I and
/// Shift+O set the IN and OUT marks, `l` plays or pauses, `w` and `b` speed
/// up or slow down by half a step (`[` and `]` win over the letters, and
/// `[` over `]`, `b` over `w`).  Normal mode never seeks nor names a clip.
pub proof fn lemma_normal_mode_keys(s: App, k: KeyInput)
    requires
        s.mode == Mode::Normal,
    ensures
        ({
            let a = keyboard_actions(s, k);
            let letters = !k.text_focused;
            &&& a.mode_change == (if letters && k.i && !k.shift {
                Some(Mode::Insert)
            } else {
                None
            })
            &&& a.set_in == (letters && k.i && k.shift)
            &&& a.set_out == (letters && k.o && k.shift)
            &&& a.toggle_play == (k.space || (letters && k.l))
            &&& a.speed_delta_tenths == (if k.open_bracket || (!k.close_bracket && letters && k.b) {
                -5int
            } else if k.close_bracket || (letters && k.w) {
                5int
            } else {
                0int
            })
            &&& a.seek_frame is None
            &&& !a.start_naming_clip
        }),
{
}

/// The keys of insert mode (letters act even while a text field has
/// focus).  Escape leaves insert mode, and so does Enter without both
/// marks; Enter with both marks starts naming the clip.  `w`/Down and
/// `b`/Up move a chunk forward or back, `l`/Right and `h`/Left one frame
/// (in that order of precedence), never before frame 0 nor past the last
/// frame.  `i` sets IN unless that would come after OUT, `o` sets OUT
/// unless that would come before IN.  Insert mode neither plays nor
/// changes speed.
pub proof fn lemma_insert_mode_keys(s: App, k: KeyInput)
    requires
        s.mode == Mode::Insert,
    ensures
        ({
            let a = keyboard_actions(s, k);
            let cur = s.current_frame as int;
            let last = last_frame(s) as int;
            let both = s.clip_start is Some && s.clip_end is Some;
            &&& a.mode_change == (if k.escape || (k.enter && !both) {
                Some(Mode::Normal)
            } else {
                None
            })
            &&& a.start_naming_clip == (k.enter && both)
            &&& (k.w || k.arrow_down) ==> a.seek_frame == Some(
                (if cur + s.chunk_frames <= last {
                    cur + s.chunk_frames
                } else {
                    last
                }) as u64,
            )
            &&& (!(k.w || k.arrow_down) && (k.b || k.arrow_up)) ==> a.seek_frame == Some(
                (if cur >= s.chunk_frames {
                    cur - s.chunk_frames
                } else {
                    0
                }) as u64,
            )
            &&& (!(k.w || k.arrow_down || k.b || k.arrow_up) && (k.l || k.arrow_right))
                ==> a.seek_frame == Some(
                (if cur + 1 <= last {
                    cur + 1
                } else {
                    last
                }) as u64,
            )
            &&& (!(k.w || k.arrow_down || k.b || k.arrow_up || k.l || k.arrow_right) && (k.h
                || k.arrow_left)) ==> a.seek_frame == Some(
                (if cur >= 1 {
                    cur - 1
                } else {
                    0
                }) as u64,
            )
            &&& !(k.w || k.arrow_down || k.b || k.arrow_up || k.l || k.arrow_right || k.h
                || k.arrow_left) ==> a.seek_frame is None
            &&& a.set_in == (k.i && (s.clip_end matches Some(end) ==> s.current_frame <= end))
            &&& a.set_out == (k.o && (s.clip_start matches Some(start) ==> s.current_frame
                >= start))
            &&& !a.toggle_play
            &&& a.speed_delta_tenths == 0
            &&& a.toggle_mute == k.a
        }),
{
}

/// Entering insert mode pauses playback (a loaded player is told to pause);
/// leaving insert mode for normal mode resumes it (a loaded player is told
/// to start); staying in normal mode changes nothing but the mode.
pub proof fn lemma_mode_change(s: App, new_mode: Mode)
    ensures
        ({
            let (t, cmds) = mode_change_step(s, new_mode);
            &&& t.mode == new_mode
            &&& t.current_frame == s.current_frame
            &&& t.muted == s.muted
            &&& t.speed_tenths == s.speed_tenths
            &&& (new_mode == Mode::Insert ==> !t.playing && cmds == (if s.player_loaded {
                seq![PlayerCommand::Pause]
            } else {
                Seq::<PlayerCommand>::empty()
            }))
            &&& (new_mode == Mode::Normal && s.mode == Mode::Insert ==> t.playing && cmds == (
            if s.player_loaded {
                seq![PlayerCommand::Start]
            } else {
                Seq::<PlayerCommand>::empty()
            }))
            &&& (new_mode == Mode::Normal && s.mode == Mode::Normal ==> t == s && cmds.len() == 0)
        }),
{
}

} // verus!
