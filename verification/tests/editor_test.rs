use zeditor::editor::{ControlActions, ExportError, KeyInput, PanelAction};
use zeditor::player::PlayerCommand;
use zeditor::{App, Mode};

fn keys() -> KeyInput {
    KeyInput {
        text_focused: false,
        shift: false,
        a: false,
        b: false,
        h: false,
        i: false,
        l: false,
        o: false,
        w: false,
        space: false,
        open_bracket: false,
        close_bracket: false,
        escape: false,
        enter: false,
        arrow_left: false,
        arrow_right: false,
        arrow_up: false,
        arrow_down: false,
    }
}

fn loaded(total: u64) -> App {
    let mut app = App::new(Some("movies/holiday.mov".to_string()), 0);
    let path = app.take_pending_video().unwrap();
    assert_eq!(path, "movies/holiday.mov");
    let cmds = app.finish_load(path, total, true);
    assert_eq!(cmds, vec![PlayerCommand::SetMuted { muted: true }]);
    app
}

#[test]
fn new_editor_defaults() {
    let app = App::new(None, 5);
    assert_eq!(app.speed_tenths, 10);
    assert_eq!(app.chunk_frames, 30);
    assert!(app.muted);
    assert!(!app.playing);
    assert_eq!(app.mode, Mode::Normal);
    assert!(app.clip_name.is_empty());
    assert_eq!(app.last_speed_step_ms, 5);
    assert!(app.pending_video.is_none());
}

#[test]
fn mode_labels() {
    assert_eq!(Mode::Normal.label(), "NORMAL");
    assert_eq!(Mode::Insert.label(), "INSERT");
    assert!(Mode::Insert.help().starts_with("[Esc/Enter] Exit"));
}

#[test]
fn default_actions_do_nothing() {
    let a = ControlActions::default();
    assert_eq!(a.mode_change, None);
    assert_eq!(a.speed_delta_tenths, 0);
    assert!(!a.toggle_play && !a.set_in && !a.set_out && !a.toggle_mute && !a.start_naming_clip);
}

#[test]
fn space_plays_at_normal_speed() {
    let mut app = loaded(300);
    let mut k = keys();
    k.space = true;
    let cmds = app.handle_keyboard(&k, 100);
    assert_eq!(cmds, vec![PlayerCommand::Start]);
    assert!(app.playing);
    let cmds = app.handle_keyboard(&k, 200);
    assert_eq!(cmds, vec![PlayerCommand::Pause]);
    assert!(!app.playing);
}

#[test]
fn letters_are_skipped_while_typing_in_normal_mode() {
    let mut app = loaded(300);
    let mut k = keys();
    k.text_focused = true;
    k.i = true;
    k.a = true;
    k.l = true;
    let a = app.collect_keyboard_actions(&k);
    assert_eq!(a.mode_change, None);
    assert!(!a.toggle_mute);
    assert!(!a.toggle_play);
    k.close_bracket = true;
    let a = app.collect_keyboard_actions(&k);
    assert_eq!(a.speed_delta_tenths, 5);
    let cmds = app.handle_keyboard(&k, 1);
    assert!(cmds.is_empty());
    assert_eq!(app.speed_tenths, 15);
}

#[test]
fn insert_mode_pauses_and_escape_resumes() {
    let mut app = loaded(300);
    app.playing = true;
    let mut k = keys();
    k.i = true;
    let cmds = app.handle_keyboard(&k, 1);
    assert_eq!(cmds, vec![PlayerCommand::Pause]);
    assert_eq!(app.mode, Mode::Insert);
    assert!(!app.playing);
    let mut k = keys();
    k.escape = true;
    let cmds = app.handle_keyboard(&k, 2);
    assert_eq!(cmds, vec![PlayerCommand::Start]);
    assert_eq!(app.mode, Mode::Normal);
    assert!(app.playing);
}

#[test]
fn insert_mode_frame_steps_are_clamped() {
    let mut app = loaded(100);
    app.mode = Mode::Insert;
    app.current_frame = 98;
    let mut k = keys();
    k.w = true;
    assert_eq!(app.handle_keyboard(&k, 1), vec![PlayerCommand::Seek { frame: 99 }]);
    assert_eq!(app.current_frame, 99);
    let mut k = keys();
    k.arrow_right = true;
    app.handle_keyboard(&k, 2);
    assert_eq!(app.current_frame, 99);
    let mut k = keys();
    k.b = true;
    app.handle_keyboard(&k, 3);
    assert_eq!(app.current_frame, 69);
    let mut k = keys();
    k.h = true;
    app.handle_keyboard(&k, 4);
    assert_eq!(app.current_frame, 68);
    app.current_frame = 10;
    let mut k = keys();
    k.arrow_up = true;
    app.handle_keyboard(&k, 5);
    assert_eq!(app.current_frame, 0);
}

#[test]
fn insert_marks_respect_order() {
    let mut app = loaded(100);
    app.mode = Mode::Insert;
    app.current_frame = 50;
    let mut k = keys();
    k.o = true;
    app.handle_keyboard(&k, 1);
    assert_eq!(app.clip_end, Some(50));
    // In insert mode setting OUT does not loop.
    assert!(!app.looping_clip);
    app.current_frame = 60;
    let mut k = keys();
    k.i = true;
    app.handle_keyboard(&k, 2);
    assert_eq!(app.clip_start, None);
    app.current_frame = 20;
    app.handle_keyboard(&k, 3);
    assert_eq!(app.clip_start, Some(20));
    app.current_frame = 10;
    let mut k = keys();
    k.o = true;
    app.handle_keyboard(&k, 4);
    assert_eq!(app.clip_end, Some(50));
}

#[test]
fn enter_names_clip_or_leaves_insert_mode() {
    let mut app = loaded(100);
    app.mode = Mode::Insert;
    let mut k = keys();
    k.enter = true;
    app.handle_keyboard(&k, 1);
    assert_eq!(app.mode, Mode::Normal);
    app.mode = Mode::Insert;
    app.clip_start = Some(1);
    app.clip_end = Some(5);
    app.handle_keyboard(&k, 2);
    assert_eq!(app.mode, Mode::Insert);
    assert!(app.naming_clip);
    assert!(app.take_naming_request());
    assert!(!app.take_naming_request());
}

#[test]
fn normal_mode_out_mark_loops_from_in_mark() {
    let mut app = loaded(100);
    app.current_frame = 10;
    let mut k = keys();
    k.i = true;
    k.shift = true;
    app.handle_keyboard(&k, 1);
    assert_eq!(app.clip_start, Some(10));
    app.current_frame = 40;
    let mut k = keys();
    k.o = true;
    k.shift = true;
    let cmds = app.handle_keyboard(&k, 2);
    assert_eq!(app.clip_end, Some(40));
    assert!(app.looping_clip);
    assert_eq!(cmds, vec![PlayerCommand::Seek { frame: 10 }]);
    assert_eq!(app.current_frame, 10);
}

#[test]
fn speed_keys_and_clamping() {
    let mut app = loaded(100);
    app.playing = true;
    let mut k = keys();
    k.w = true;
    let cmds = app.handle_keyboard(&k, 1);
    assert_eq!(app.speed_tenths, 15);
    assert_eq!(cmds, vec![PlayerCommand::Pause]);
    let mut k = keys();
    k.b = true;
    let cmds = app.handle_keyboard(&k, 2);
    assert_eq!(app.speed_tenths, 10);
    assert_eq!(cmds, vec![PlayerCommand::Seek { frame: 0 }, PlayerCommand::Start]);
    app.set_speed(-40, 3);
    assert_eq!(app.speed_tenths, 1);
    app.set_speed(1000, 4);
    assert_eq!(app.speed_tenths, 100);
    assert_eq!(app.last_speed_step_ms, 4);
}

#[test]
fn mute_key_toggles_volume() {
    let mut app = loaded(100);
    let mut k = keys();
    k.a = true;
    assert_eq!(app.handle_keyboard(&k, 1), vec![PlayerCommand::SetMuted { muted: false }]);
    assert_eq!(app.handle_keyboard(&k, 2), vec![PlayerCommand::SetMuted { muted: true }]);
    assert!(app.muted);
}

#[test]
fn nothing_reaches_a_missing_player() {
    let mut app = App::new(None, 0);
    assert!(app.seek_to_frame(40).is_empty());
    assert_eq!(app.current_frame, 0);
    assert!(app.toggle_play(1).is_empty());
    assert!(app.playing);
}

#[test]
fn stepping_at_other_speeds_wraps_and_loops() {
    let mut app = loaded(50);
    app.playing = true;
    app.speed_tenths = 20;
    app.last_speed_step_ms = 0;
    app.current_frame = 48;
    // Not yet time for a step.
    assert!(app.update_state(10, 16, None).is_empty());
    assert_eq!(app.current_frame, 48);
    assert_eq!(app.update_state(20, 16, None), vec![PlayerCommand::Seek { frame: 49 }]);
    assert_eq!(app.last_speed_step_ms, 20);
    assert_eq!(app.update_state(40, 16, None), vec![PlayerCommand::Seek { frame: 0 }]);
    app.clip_start = Some(5);
    app.clip_end = Some(7);
    app.looping_clip = true;
    app.current_frame = 6;
    assert_eq!(app.update_state(60, 16, None), vec![PlayerCommand::Seek { frame: 5 }]);
    assert_eq!(app.update_state(80, 16, None), vec![PlayerCommand::Seek { frame: 6 }]);
    assert_eq!(app.last_update_ms, 80);
}

#[test]
fn normal_speed_follows_player_and_loops() {
    let mut app = loaded(500);
    app.playing = true;
    assert!(app.update_state(10, 33, Some(42)).is_empty());
    assert_eq!(app.current_frame, 42);
    app.clip_start = Some(10);
    app.clip_end = Some(40);
    app.looping_clip = true;
    assert_eq!(app.update_state(20, 33, Some(45)), vec![PlayerCommand::Seek { frame: 10 }]);
    assert_eq!(app.current_frame, 10);
}

#[test]
fn status_clears_after_three_seconds() {
    let mut app = loaded(500);
    app.load_failed("no streams", 1000);
    assert_eq!(app.export_status.as_deref(), Some("Failed to load video: no streams"));
    app.update_state(4000, 33, None);
    assert!(app.export_status.is_some());
    app.update_state(4999, 33, None);
    assert!(app.export_status.is_some());
    app.update_state(5000, 33, None);
    assert!(app.export_status.is_none());
    assert!(app.status_time_ms.is_none());
}

#[test]
fn panel_buttons() {
    let mut app = loaded(100);
    app.current_frame = 40;
    assert_eq!(app.panel_action(PanelAction::ChunkBack, 0), vec![PlayerCommand::Seek { frame: 10 }]);
    app.panel_action(PanelAction::FrameForward, 0);
    assert_eq!(app.current_frame, 11);
    app.panel_action(PanelAction::FrameBack, 0);
    app.panel_action(PanelAction::FrameBack, 0);
    assert_eq!(app.current_frame, 9);
    app.panel_action(PanelAction::ChunkForward, 0);
    assert_eq!(app.current_frame, 39);
    app.panel_action(PanelAction::SeekTo { frame: 120 }, 0);
    assert_eq!(app.current_frame, 120);
    app.panel_action(PanelAction::SpeedUp, 0);
    assert_eq!(app.speed_tenths, 15);
    app.panel_action(PanelAction::SlowDown, 0);
    app.panel_action(PanelAction::SlowDown, 0);
    assert_eq!(app.speed_tenths, 5);
    app.panel_action(PanelAction::MarkOut, 0);
    assert_eq!(app.clip_end, Some(120));
    assert!(!app.looping_clip);
    app.current_frame = 30;
    app.panel_action(PanelAction::MarkIn, 0);
    app.current_frame = 60;
    assert_eq!(app.panel_action(PanelAction::MarkOut, 0), vec![PlayerCommand::Seek { frame: 30 }]);
    assert!(app.looping_clip);
    app.panel_action(PanelAction::ToggleLoop, 0);
    assert!(!app.looping_clip);
    app.panel_action(PanelAction::ClearMarks, 0);
    assert_eq!((app.clip_start, app.clip_end), (None, None));
    assert_eq!(app.panel_action(PanelAction::PlayPause, 0), vec![]);
    assert!(app.playing);
}

#[test]
fn export_errors_in_order() {
    let mut app = App::new(None, 0);
    assert_eq!(app.export_plan().err(), Some(ExportError::NoClipStart));
    app.clip_start = Some(1);
    assert_eq!(app.export_plan().err(), Some(ExportError::NoClipEnd));
    app.clip_end = Some(5);
    assert_eq!(app.export_plan().err(), Some(ExportError::NoVideo));
    app.video_path = Some("a.mp4".to_string());
    assert_eq!(app.export_plan().err(), Some(ExportError::NoFrameRate));
    app.player_loaded = true;
    assert_eq!(app.export_plan().err(), Some(ExportError::NoClipName));
    assert!(!app.can_export());
    assert_eq!(ExportError::NoClipStart.message(), "no clip start");
    assert_eq!(ExportError::NoClipEnd.message(), "no clip end");
    assert_eq!(ExportError::NoVideo.message(), "no video");
    assert_eq!(ExportError::NoFrameRate.message(), "no fps");
    assert_eq!(ExportError::NoClipName.message(), "no clip name");
}

#[test]
fn export_plan_names_files() {
    let mut app = loaded(1000);
    app.clip_start = Some(30);
    app.clip_end = Some(90);
    app.clip_name = "jump".to_string();
    assert!(app.can_export());
    let plan = app.export_plan().ok().unwrap();
    assert_eq!(plan.start_frame, 30);
    assert_eq!(plan.frame_count, 60);
    assert_eq!(plan.source, "movies/holiday.mov");
    assert_eq!(plan.clips_dir, "holiday_clips");
    assert_eq!(plan.filename, "holiday_clips/jump.mp4");
    app.clip_name = "jump.mkv".to_string();
    let plan = app.export_plan().ok().unwrap();
    assert_eq!(plan.filename, "holiday_clips/jump.mkv");
    app.video_path = Some("/".to_string());
    let plan = app.export_plan().ok().unwrap();
    assert_eq!(plan.clips_dir, "clips_clips");
}

#[test]
fn export_outcomes() {
    let mut app = loaded(1000);
    app.mode = Mode::Insert;
    app.clip_start = Some(30);
    app.clip_end = Some(90);
    app.clip_name = "jump".to_string();
    app.looping_clip = true;
    app.finish_export(Err("ffmpeg failed".to_string()), false, 7);
    assert_eq!(app.export_status.as_deref(), Some("Export failed: ffmpeg failed"));
    assert_eq!(app.status_time_ms, Some(7));
    assert_eq!(app.clip_start, Some(30));
    app.finish_export(Ok("holiday_clips/jump.mp4".to_string()), true, 9);
    assert_eq!(app.export_status.as_deref(), Some("Saved: holiday_clips/jump.mp4"));
    assert_eq!((app.clip_start, app.clip_end), (None, None));
    assert!(app.clip_name.is_empty());
    assert!(!app.looping_clip);
    assert_eq!(app.mode, Mode::Normal);
}

#[test]
fn first_dropped_file_with_a_path_is_loaded() {
    let mut app = App::new(None, 0);
    app.drop_files(&vec![Some("clips/one.mp4".to_string()), Some("clips/two.mp4".to_string())]);
    assert_eq!(app.pending_video, Some("clips/one.mp4".to_string()));
    let mut app = App::new(Some("keep.mp4".to_string()), 0);
    app.drop_files(&vec![None, Some("clips/two.mp4".to_string())]);
    assert_eq!(app.pending_video, Some("keep.mp4".to_string()));
    app.drop_files(&Vec::new());
    assert_eq!(app.pending_video, Some("keep.mp4".to_string()));
}
