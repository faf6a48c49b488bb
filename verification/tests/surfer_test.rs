use zeditor::effects::VideoEffect;
use zeditor::image::{Color, Image};
use zeditor::order::sort_channels;
use zeditor::player::PlayerCommand;
use zeditor::surfer::{accepts_scanned_file, ChannelSurfer, SurferInput};
use zeditor::timefmt::format_time_pair;

fn input(now_ms: u64) -> SurferInput {
    SurferInput {
        now_ms,
        mouse_moved: false,
        next_channel: false,
        prev_channel: false,
        toggle_play: false,
        toggle_mute: false,
        toggle_glitch: false,
        cycle_effect: false,
        scroll_up: false,
        scroll_down: false,
        show_info: false,
        dropped: Vec::new(),
    }
}

fn three() -> ChannelSurfer {
    ChannelSurfer::new(
        vec!["tv/a.mp4".to_string(), "tv/b.mkv".to_string(), "tv/c.webm".to_string()],
        0,
    )
}

#[test]
fn new_surfer_starts_on_first_channel() {
    let s = three();
    assert_eq!(s.pending_video.as_deref(), Some("tv/a.mp4"));
    assert!(s.playing && s.muted && s.show_channel_info);
    assert_eq!(s.channel_info_since_ms, Some(0));
    assert_eq!(s.active_effect, VideoEffect::Passthrough);
    let empty = ChannelSurfer::new(Vec::new(), 3);
    assert!(empty.pending_video.is_none());
    assert_eq!(empty.get_channel_name(), "No channels");
}

#[test]
fn channels_wrap_both_ways() {
    let mut s = three();
    s.prev_channel();
    assert_eq!(s.current_channel, 2);
    assert_eq!(s.pending_video.as_deref(), Some("tv/c.webm"));
    s.next_channel();
    assert_eq!(s.current_channel, 0);
    s.next_channel();
    s.next_channel();
    s.next_channel();
    assert_eq!(s.current_channel, 0);
    let mut empty = ChannelSurfer::new(Vec::new(), 0);
    empty.next_channel();
    empty.prev_channel();
    assert_eq!(empty.current_channel, 0);
    assert!(empty.pending_video.is_none());
}

#[test]
fn channel_names_are_stems() {
    let mut s = three();
    assert_eq!(s.get_channel_name(), "a");
    s.next_channel();
    assert_eq!(s.get_channel_name(), "b");
    let odd = ChannelSurfer::new(vec!["..".to_string()], 0);
    assert_eq!(odd.get_channel_name(), "Unknown");
}

#[test]
fn keys_drive_player_and_log() {
    let mut s = three();
    let loaded = s.finish_load(true, 100);
    assert_eq!(loaded, vec![PlayerCommand::SetMuted { muted: true }, PlayerCommand::Start]);
    let mut i = input(200);
    i.toggle_play = true;
    i.toggle_mute = true;
    i.toggle_glitch = true;
    i.cycle_effect = true;
    let out = s.handle_input(&i);
    assert_eq!(out.commands, vec![PlayerCommand::Pause, PlayerCommand::SetMuted { muted: false }]);
    assert_eq!(out.messages, vec!["Glitch mode: ON".to_string(), "Effect: PIXELATE".to_string()]);
    assert!(s.glitch_mode);
    assert_eq!(s.active_effect, VideoEffect::Pixelate { block_size: 16 });
    let mut i = input(300);
    i.scroll_up = true;
    i.scroll_down = true;
    let out = s.handle_input(&i);
    assert_eq!(out.messages, vec!["Effect: PIXELATE".to_string()]);
    assert_eq!(s.active_effect, VideoEffect::Pixelate { block_size: 8 });
    let mut i = input(400);
    i.scroll_down = true;
    i.toggle_glitch = true;
    let out = s.handle_input(&i);
    assert_eq!(out.messages, vec!["Glitch mode: OFF".to_string(), "Effect: PIXELATE".to_string()]);
    assert_eq!(s.active_effect, VideoEffect::Pixelate { block_size: 16 });
}

#[test]
fn arrows_change_channel() {
    let mut s = three();
    let mut i = input(10);
    i.next_channel = true;
    s.handle_input(&i);
    assert_eq!(s.current_channel, 1);
    let mut i = input(20);
    i.prev_channel = true;
    i.next_channel = true;
    s.handle_input(&i);
    assert_eq!(s.current_channel, 1);
    s.video_click(true, false);
    assert_eq!(s.current_channel, 2);
    s.video_click(false, true);
    assert_eq!(s.current_channel, 1);
}

#[test]
fn dropped_files_are_added_once() {
    let mut s = three();
    let mut i = input(10);
    i.dropped = vec!["tv/d.mp4".to_string(), "tv/a.mp4".to_string(), "tv/d.mp4".to_string()];
    s.handle_input(&i);
    assert_eq!(
        s.channels,
        vec![
            "tv/a.mp4".to_string(),
            "tv/b.mkv".to_string(),
            "tv/c.webm".to_string(),
            "tv/d.mp4".to_string()
        ]
    );
}

#[test]
fn badge_hides_after_two_seconds() {
    let mut s = three();
    s.glitch_mode = true;
    let info = s.overlay(2999).unwrap();
    assert_eq!(info.channel_number, 1);
    assert_eq!(info.channel_count, 3);
    assert_eq!(info.name, "a");
    assert!(info.glitch_mode);
    assert_eq!(info.effect_name, None);
    assert!(s.overlay(3000).is_none());
    assert!(!s.show_channel_info);
    let mut i = input(5000);
    i.show_info = true;
    s.handle_input(&i);
    s.active_effect = VideoEffect::Invert;
    let info = s.overlay(6000).unwrap();
    assert_eq!(info.effect_name, Some("INVERT"));
}

#[test]
fn controls_show_after_mouse_activity() {
    let mut s = three();
    assert!(s.controls_visible(2999));
    assert!(!s.controls_visible(3000));
    let mut i = input(10_000);
    i.mouse_moved = true;
    s.handle_input(&i);
    assert!(s.controls_visible(12_000));
}

#[test]
fn effect_frames_are_cached() {
    let mut s = three();
    let black = s.choose_frame(None);
    assert_eq!((black.width, black.height), (1, 1));
    assert_eq!(black.pixels, vec![Color { r: 0, g: 0, b: 0, a: 255 }]);
    let frame = Image { width: 1, height: 1, pixels: vec![Color { r: 9, g: 8, b: 7, a: 255 }] };
    let shown = s.choose_frame(Some(frame));
    assert_eq!(shown.pixels[0].r, 9);
    let again = s.choose_frame(None);
    assert_eq!(again.pixels[0].r, 9);
    s.cycle_effect();
    assert!(s.last_processed_frame.is_none());
}

#[test]
fn effect_name_only_when_active() {
    let mut s = three();
    assert_eq!(s.get_effect_name(), None);
    s.back_effect();
    assert_eq!(s.get_effect_name(), Some("DATAMOSH"));
}

#[test]
fn time_pairs() {
    assert_eq!(format_time_pair(5, 42), ("5".to_string(), "42".to_string()));
    assert_eq!(format_time_pair(65, 125), ("01:05".to_string(), "02:05".to_string()));
    assert_eq!(format_time_pair(3725, 7384), ("01:02:05".to_string(), "02:03:04".to_string()));
    assert_eq!(format_time_pair(0, 0), ("0".to_string(), "0".to_string()));
    assert_eq!(format_time_pair(0, 360_000), ("00:00:00".to_string(), "100:00:00".to_string()));
}

#[test]
fn scanned_files() {
    assert!(accepts_scanned_file(Some("a.mp4"), Some("mp4")));
    assert!(accepts_scanned_file(Some("A.MKV"), Some("MKV")));
    assert!(!accepts_scanned_file(Some(".hidden.mp4"), Some("mp4")));
    assert!(!accepts_scanned_file(Some("song.mp3"), Some("mp3")));
    assert!(!accepts_scanned_file(Some("README"), None));
    assert!(accepts_scanned_file(None, Some("ogv")));
}

#[test]
fn channels_sort_alphabetically() {
    let sorted = sort_channels(vec![
        "tv/b.mkv".to_string(),
        "tv/a.mp4".to_string(),
        "tv/é.mp4".to_string(),
        "tv/z.mp4".to_string(),
        "tv/a".to_string(),
        "Tv/c.mp4".to_string(),
        "tv/a.mp4".to_string(),
    ]);
    assert_eq!(
        sorted,
        vec![
            "Tv/c.mp4".to_string(),
            "tv/a".to_string(),
            "tv/a.mp4".to_string(),
            "tv/a.mp4".to_string(),
            "tv/b.mkv".to_string(),
            "tv/z.mp4".to_string(),
            "tv/é.mp4".to_string(),
        ]
    );
    let mut by_std = sorted.clone();
    by_std.sort();
    assert_eq!(by_std, sorted);
    assert!(sort_channels(Vec::new()).is_empty());
}

#[test]
fn badge_without_channels_keeps_any_index() {
    let mut s = ChannelSurfer::new(Vec::new(), 0);
    s.current_channel = 5;
    let info = s.overlay(100).unwrap();
    assert_eq!(info.channel_number, 6);
    assert_eq!(info.channel_count, 0);
    assert_eq!(info.name, "No channels");
    let mut i = input(200);
    i.next_channel = true;
    s.handle_input(&i);
    assert_eq!(s.current_channel, 5);
}
