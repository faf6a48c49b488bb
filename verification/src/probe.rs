//! Reading the stream summary that a media probe reports for a video: the
//! video stream, the duration text and the two parts of the frame-rate
//! fraction.  Turning those texts into numbers is left to the caller.
use vstd::prelude::*;
use vstd::string::*;

verus! {

/// One stream of the probe report.
pub struct ProbeStream {
    /// The stream kind ("video", "audio", ...), when reported as text.
    pub codec_type: Option<String>,
    /// The frame rate as a fraction such as "30000/1001".
    pub r_frame_rate: Option<String>,
}

/// The parts of a probe report that the editor reads.
pub struct ProbeInfo {
    /// The list of streams, when there is one.
    pub streams: Option<Vec<ProbeStream>>,
    /// The container duration in seconds, as text.
    pub format_duration: Option<String>,
}

/// What is missing from a probe report.
#[derive(Clone, Copy, Debug, PartialEq, Eq, Structural)]
pub enum ProbeError {
    NoStreams,
    NoVideoStream,
    NoDuration,
    NoFrameRate,
}

/// The message of a probe error.
pub open spec fn probe_error_text(e: ProbeError) -> Seq<char> {
    match e {
        ProbeError::NoStreams => "no streams"@,
        ProbeError::NoVideoStream => "no video stream"@,
        ProbeError::NoDuration => "no duration"@,
        ProbeError::NoFrameRate => "no frame rate"@,
    }
}

impl ProbeError {
    /// The message of the error.
    pub fn message(&self) -> (m: &'static str)
        ensures
            m@ == probe_error_text(*self),
    {
        match self {
            ProbeError::NoStreams => "no streams",
            ProbeError::NoVideoStream => "no video stream",
            ProbeError::NoDuration => "no duration",
            ProbeError::NoFrameRate => "no frame rate",
        }
    }
}

/// A stream is the video stream when its kind is the text "video".
pub open spec fn is_video(st: ProbeStream) -> bool {
    st.codec_type matches Some(t) && t@ == "video"@
}

/// `i` is the first video stream.
pub open spec fn first_video_at(streams: Seq<ProbeStream>, i: int) -> bool {
    &&& 0 <= i < streams.len()
    &&& is_video(streams[i])
    &&& forall|j: int| 0 <= j < i ==> !is_video(#[trigger] streams[j])
}

/// There is a video stream.
pub open spec fn has_video(streams: Seq<ProbeStream>) -> bool {
    exists|i: int| 0 <= i < streams.len() && is_video(#[trigger] streams[i])
}

/// The duration text, or what is missing first: the stream list, a video
/// stream, the duration.
pub open spec fn duration_outcome(info: ProbeInfo) -> Result<Seq<char>, ProbeError> {
    match info.streams {
        None => Err(ProbeError::NoStreams),
        Some(v) => if !has_video(v@) {
            Err(ProbeError::NoVideoStream)
        } else {
            match info.format_duration {
                Some(d) => Ok(d@),
                None => Err(ProbeError::NoDuration),
            }
        },
    }
}

/// Index of the first `c` in `s` at or after `from`, or the length.
pub open spec fn find_char(s: Seq<char>, c: char, from: int) -> int
    decreases s.len() - from,
{
    if from >= s.len() {
        s.len() as int
    } else if s[from] == c {
        from
    } else {
        find_char(s, c, from + 1)
    }
}

/// The first two pieces of `s` split at `/`: the text before the first
/// slash, and the text between the first and the second (or the end).
pub open spec fn rate_parts(s: Seq<char>) -> (Seq<char>, Seq<char>) {
    let first = find_char(s, '/', 0);
    let second = find_char(s, '/', first + 1);
    (s.subrange(0, first), s.subrange(first + 1, second))
}

/// Text equality, character by character.
pub fn same_text(a: &str, b: &str) -> (r: bool)
    ensures
        r == (a@ == b@),
{
    let n: usize = a.unicode_len();
    if n != b.unicode_len() {
        return false;
    }
    let mut i: usize = 0;
    while i < n
        invariant
            n == a@.len(),
            n == b@.len(),
            i <= n,
            forall|k: int| 0 <= k < i ==> a@[k] == b@[k],
        decreases n - i,
    {
        if a.get_char(i) != b.get_char(i) {
            return false;
        }
        i = i + 1;
    }
    assert(a@ =~= b@);
    true
}

/// Index of the first `/` in `s` at or after `from`, or the length.
fn find_slash(s: &str, from: usize) -> (r: usize)
    requires
        from <= s@.len(),
    ensures
        r == find_char(s@, '/', from as int),
        from <= r <= s@.len(),
    decreases s@.len() - from,
{
    let n: usize = s.unicode_len();
    if from >= n {
        n
    } else if s.get_char(from) == '/' {
        from
    } else {
        find_slash(s, from + 1)
    }
}

/// The first video stream, if any.
pub fn video_stream_index(streams: &Vec<ProbeStream>) -> (r: Option<usize>)
    ensures
        match r {
            Some(i) => first_video_at(streams@, i as int),
            None => !has_video(streams@),
        },
{
    let n: usize = streams.len();
    let mut i: usize = 0;
    while i < n
        invariant
            n == streams@.len(),
            i <= n,
            forall|j: int| 0 <= j < i ==> !is_video(#[trigger] streams@[j]),
        decreases n - i,
    {
        let found: bool = match &streams[i].codec_type {
            Some(t) => same_text(t.as_str(), "video"),
            None => false,
        };
        if found {
            return Some(i);
        }
        i = i + 1;
    }
    None
}

/// The duration text of the report, checking first that there is a stream
/// list with a video stream.
pub fn probe_duration_text(info: &ProbeInfo) -> (r: Result<String, ProbeError>)
    ensures
        match r {
            Ok(d) => duration_outcome(*info) == Ok::<Seq<char>, ProbeError>(d@),
            Err(e) => duration_outcome(*info) == Err::<Seq<char>, ProbeError>(e),
        },
{
    let streams: &Vec<ProbeStream> = match &info.streams {
        Some(v) => v,
        None => return Err(ProbeError::NoStreams),
    };
    if video_stream_index(streams).is_none() {
        return Err(ProbeError::NoVideoStream);
    }
    match &info.format_duration {
        Some(d) => Ok(d.clone()),
        None => Err(ProbeError::NoDuration),
    }
}

/// The first video stream's index (meaningful when there is one).
pub open spec fn first_video(streams: Seq<ProbeStream>) -> int {
    choose|i: int| first_video_at(streams, i)
}

/// The frame-rate texts, or what is missing first: the stream list, a video
/// stream, the frame rate of the first video stream.
pub open spec fn rate_outcome(info: ProbeInfo) -> Result<(Seq<char>, Seq<char>), ProbeError> {
    match info.streams {
        None => Err(ProbeError::NoStreams),
        Some(v) => if !has_video(v@) {
            Err(ProbeError::NoVideoStream)
        } else {
            match v@[first_video(v@)].r_frame_rate {
                Some(t) => Ok(rate_parts(t@)),
                None => Err(ProbeError::NoFrameRate),
            }
        },
    }
}

/// The frame rate of the first video stream, when there is one, is a
/// fraction with a `/`.
pub open spec fn rate_has_slash(info: ProbeInfo) -> bool {
    match info.streams {
        Some(v) => has_video(v@) ==> match v@[first_video(v@)].r_frame_rate {
            Some(t) => t@.contains('/'),
            None => true,
        },
        None => true,
    }
}

/// There is only one first video stream.
proof fn lemma_first_video_unique(streams: Seq<ProbeStream>, i: int)
    requires
        first_video_at(streams, i),
    ensures
        first_video(streams) == i,
{
    let j = first_video(streams);
    assert(first_video_at(streams, j));
    if j < i {
        assert(!is_video(streams[j]));
    } else if i < j {
        assert(!is_video(streams[i]));
    }
}

/// The frame-rate text of the first video stream, split at `/` into
/// numerator and denominator texts (the rest after a second `/` is
/// dropped).  A rate text without any `/` is not accepted.
pub fn probe_frame_rate_parts(info: &ProbeInfo) -> (r: Result<(String, String), ProbeError>)
    requires
        rate_has_slash(*info),
    ensures
        match r {
            Ok((num, den)) => rate_outcome(*info) == Ok::<(Seq<char>, Seq<char>), ProbeError>((num@, den@)),
            Err(e) => rate_outcome(*info) == Err::<(Seq<char>, Seq<char>), ProbeError>(e),
        },
{
    let streams: &Vec<ProbeStream> = match &info.streams {
        Some(v) => v,
        None => return Err(ProbeError::NoStreams),
    };
    let idx: usize = match video_stream_index(streams) {
        Some(i) => i,
        None => return Err(ProbeError::NoVideoStream),
    };
    proof {
        lemma_first_video_unique(streams@, idx as int);
    }
    let rate: &String = match &streams[idx].r_frame_rate {
        Some(t) => t,
        None => return Err(ProbeError::NoFrameRate),
    };
    let text: &str = rate.as_str();
    let ghost t = text@;
    let n: usize = text.unicode_len();
    let first: usize = find_slash(text, 0);
    if first >= n {
        proof {
            let k = choose|k: int| 0 <= k < t.len() && t[k] == '/';
            lemma_find_not_past(t, '/', 0, k);
        }
        return Err(ProbeError::NoFrameRate);
    }
    let second: usize = find_slash(text, first + 1);
    let num: &str = text.substring_char(0, first);
    let den: &str = text.substring_char(first + 1, second);
    Ok((num.to_string(), den.to_string()))
}

/// `find_char` stops no later than any occurrence at or after `from`.
proof fn lemma_find_not_past(s: Seq<char>, c: char, from: int, k: int)
    requires
        0 <= from <= k < s.len(),
        s[k] == c,
    ensures
        find_char(s, c, from) <= k,
    decreases k - from,
{
    if s[from] != c {
        lemma_find_not_past(s, c, from + 1, k);
    }
}

} // verus!
