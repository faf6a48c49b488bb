use zeditor::probe::{probe_duration_text, probe_frame_rate_parts, video_stream_index, ProbeError, ProbeInfo, ProbeStream};

fn stream(kind: Option<&str>, rate: Option<&str>) -> ProbeStream {
    ProbeStream { codec_type: kind.map(|s| s.to_string()), r_frame_rate: rate.map(|s| s.to_string()) }
}

#[test]
fn finds_first_video_stream() {
    let streams = vec![stream(Some("audio"), Some("0/0")), stream(Some("video"), Some("30/1")), stream(Some("video"), Some("25/1"))];
    assert_eq!(video_stream_index(&streams), Some(1));
    assert_eq!(video_stream_index(&vec![stream(None, None)]), None);
}

#[test]
fn duration_and_rate() {
    let info = ProbeInfo {
        streams: Some(vec![stream(Some("audio"), None), stream(Some("video"), Some("30000/1001"))]),
        format_duration: Some("12.5".to_string()),
    };
    assert_eq!(probe_duration_text(&info).ok(), Some("12.5".to_string()));
    assert_eq!(probe_frame_rate_parts(&info).ok(), Some(("30000".to_string(), "1001".to_string())));
    let odd = ProbeInfo { streams: Some(vec![stream(Some("video"), Some("1/2/3"))]), format_duration: None };
    assert_eq!(probe_frame_rate_parts(&odd).ok(), Some(("1".to_string(), "2".to_string())));
    assert_eq!(probe_duration_text(&odd).err(), Some(ProbeError::NoDuration));
}

#[test]
fn probe_errors() {
    let none = ProbeInfo { streams: None, format_duration: Some("1".to_string()) };
    assert_eq!(probe_duration_text(&none).err(), Some(ProbeError::NoStreams));
    assert_eq!(probe_frame_rate_parts(&none).err(), Some(ProbeError::NoStreams));
    let audio = ProbeInfo { streams: Some(vec![stream(Some("audio"), Some("1/1"))]), format_duration: Some("1".to_string()) };
    assert_eq!(probe_duration_text(&audio).err(), Some(ProbeError::NoVideoStream));
    assert_eq!(probe_frame_rate_parts(&audio).err(), Some(ProbeError::NoVideoStream));
    let no_rate = ProbeInfo { streams: Some(vec![stream(Some("video"), None)]), format_duration: Some("1".to_string()) };
    assert_eq!(probe_frame_rate_parts(&no_rate).err(), Some(ProbeError::NoFrameRate));
    assert_eq!(ProbeError::NoStreams.message(), "no streams");
    assert_eq!(ProbeError::NoVideoStream.message(), "no video stream");
    assert_eq!(ProbeError::NoDuration.message(), "no duration");
    assert_eq!(ProbeError::NoFrameRate.message(), "no frame rate");
}
