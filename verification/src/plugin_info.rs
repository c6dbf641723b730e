use crate::export_settings::{EXPORTER_CLASS, FILE_TYPE_AV1, FILE_TYPE_VP8, FILE_TYPE_VP9, VideoCodec};
use crate::timing::{Rational, TICKS_PER_SECOND};
use vstd::prelude::*;

verus! {

/// What the host learns about one of the exporters at start-up.
#[derive(Clone, Copy, Debug, PartialEq, Eq)]
pub struct ExporterEntry {
    pub file_type: u32,
    pub class_id: u32,
    pub name: &'static str,
    pub extension: &'static str,
}

/// The answer to the host's start-up request for one exporter index.
#[derive(Clone, Copy, Debug, PartialEq, Eq)]
pub enum StartupReply {
    /// Described; ask for the next exporter.
    Iterate,
    /// Described; this is the last exporter.
    Last,
    /// There is no exporter with this index.
    NoMore,
}

/// The exporter with a start-up index: AV1 (written to MP4), VP8 and VP9
/// (written to WebM), in that order; none for other indices.
pub fn exporter_entry(index: i32) -> (r: Option<ExporterEntry>)
    ensures
        match r {
            Some(e) => {
                &&& 0 <= index <= 2
                &&& e.class_id == EXPORTER_CLASS
                &&& index == 0 ==> e.file_type == FILE_TYPE_AV1 && e.name@ == "AV1 (Nuke)"@
                    && e.extension@ == "mp4"@
                &&& index == 1 ==> e.file_type == FILE_TYPE_VP8 && e.name@ == "VP8 (Nuke)"@
                    && e.extension@ == "webm"@
                &&& index == 2 ==> e.file_type == FILE_TYPE_VP9 && e.name@ == "VP9 (Nuke)"@
                    && e.extension@ == "webm"@
            },
            None => !(0 <= index <= 2),
        },
{
    if index == 0 {
        Some(
            ExporterEntry {
                file_type: FILE_TYPE_AV1,
                class_id: EXPORTER_CLASS,
                name: "AV1 (Nuke)",
                extension: "mp4",
            },
        )
    } else if index == 1 {
        Some(
            ExporterEntry {
                file_type: FILE_TYPE_VP8,
                class_id: EXPORTER_CLASS,
                name: "VP8 (Nuke)",
                extension: "webm",
            },
        )
    } else if index == 2 {
        Some(
            ExporterEntry {
                file_type: FILE_TYPE_VP9,
                class_id: EXPORTER_CLASS,
                name: "VP9 (Nuke)",
                extension: "webm",
            },
        )
    } else {
        None
    }
}

/// The start-up answer for an exporter index: the first two ask for more, the
/// third is the last, any other index has no exporter.
pub fn startup_reply(index: i32) -> (r: StartupReply)
    ensures
        r == (if index == 0 || index == 1 {
            StartupReply::Iterate
        } else if index == 2 {
            StartupReply::Last
        } else {
            StartupReply::NoMore
        }),
{
    if index == 0 || index == 1 {
        StartupReply::Iterate
    } else if index == 2 {
        StartupReply::Last
    } else {
        StartupReply::NoMore
    }
}

/// A file format the importer announces.
#[derive(Clone, Copy, Debug, PartialEq, Eq)]
pub struct ImportFormat {
    pub file_type: i32,
    pub name: &'static str,
    pub short_name: &'static str,
    pub extension: &'static str,
}

/// The four-character code `MKV `.
pub const FILE_TYPE_MKV: i32 = 0x4D4B_5620;

/// The four-character code `WEBM`.
pub const FILE_TYPE_WEBM: i32 = 0x5745_424D;

/// The four-character code `MP4 `.
pub const FILE_TYPE_MP4: i32 = 0x4D50_3420;

/// The four-character code `MOV `.
pub const FILE_TYPE_MOV: i32 = 0x4D4F_5620;

/// The file format with an index: Matroska, WebM, MPEG-4 and QuickTime, in
/// that order; none for other indices.
pub fn import_format(index: usize) -> (r: Option<ImportFormat>)
    ensures
        match r {
            Some(f) => {
                &&& index <= 3
                &&& index == 0 ==> f.file_type == FILE_TYPE_MKV && f.name@
                    == "Matroska Video (Nuke)"@ && f.short_name@ == "mkv"@ && f.extension@ == "mkv"@
                &&& index == 1 ==> f.file_type == FILE_TYPE_WEBM && f.name@ == "WebM Video (Nuke)"@
                    && f.short_name@ == "webm"@ && f.extension@ == "webm"@
                &&& index == 2 ==> f.file_type == FILE_TYPE_MP4 && f.name@
                    == "MPEG-4 Video (Nuke)"@ && f.short_name@ == "mp4"@ && f.extension@ == "mp4"@
                &&& index == 3 ==> f.file_type == FILE_TYPE_MOV && f.name@
                    == "QuickTime Movie (Nuke)"@ && f.short_name@ == "mov"@ && f.extension@
                    == "mov"@
            },
            None => index > 3,
        },
{
    if index == 0 {
        Some(
            ImportFormat {
                file_type: FILE_TYPE_MKV,
                name: "Matroska Video (Nuke)",
                short_name: "mkv",
                extension: "mkv",
            },
        )
    } else if index == 1 {
        Some(
            ImportFormat {
                file_type: FILE_TYPE_WEBM,
                name: "WebM Video (Nuke)",
                short_name: "webm",
                extension: "webm",
            },
        )
    } else if index == 2 {
        Some(
            ImportFormat {
                file_type: FILE_TYPE_MP4,
                name: "MPEG-4 Video (Nuke)",
                short_name: "mp4",
                extension: "mp4",
            },
        )
    } else if index == 3 {
        Some(
            ImportFormat {
                file_type: FILE_TYPE_MOV,
                name: "QuickTime Movie (Nuke)",
                short_name: "mov",
                extension: "mov",
            },
        )
    } else {
        None
    }
}

/// The host's pixel layouts that matter here.
#[derive(Clone, Copy, Debug, PartialEq, Eq, Structural)]
pub enum PixelFormat {
    /// Blue, green, red, alpha, 8 bits each.
    Bgra8u,
    /// Blue, green, red, alpha, 16 bits each (15 used).
    Bgra16u,
    /// Blue, green, red, alpha, 32-bit floats.
    Bgra32f,
    /// Any other layout.
    Other,
}

/// The pixel layout the importer offers with an index: 8 bits, 16 bits and
/// float, in that order; none for other indices.
pub fn import_pixel_format(index: usize) -> (r: Option<PixelFormat>)
    ensures
        r == (if index == 0 {
            Some(PixelFormat::Bgra8u)
        } else if index == 1 {
            Some(PixelFormat::Bgra16u)
        } else if index == 2 {
            Some(PixelFormat::Bgra32f)
        } else {
            None
        }),
{
    if index == 0 {
        Some(PixelFormat::Bgra8u)
    } else if index == 1 {
        Some(PixelFormat::Bgra16u)
    } else if index == 2 {
        Some(PixelFormat::Bgra32f)
    } else {
        None
    }
}

/// One layout and size in which the host would take a frame.
#[derive(Clone, Copy, Debug, PartialEq, Eq)]
pub struct FrameRequest {
    pub pixel_format: PixelFormat,
    pub width: i32,
    pub height: i32,
}

/// The layout and size in which a frame is delivered.
#[derive(Clone, Copy, Debug, PartialEq, Eq)]
pub struct FrameChoice {
    pub pixel_format: PixelFormat,
    pub width: i32,
    pub height: i32,
}

/// The request the chosen layout is taken from: the first float one, else the
/// last 8-bit one, else the first request.
pub open spec fn chosen_request(reqs: Seq<FrameRequest>) -> int {
    if exists|i: int| 0 <= i < reqs.len() && #[trigger] reqs[i].pixel_format == PixelFormat::Bgra32f {
        choose|i: int|
            0 <= i < reqs.len() && reqs[i].pixel_format == PixelFormat::Bgra32f && forall|j: int|
                0 <= j < i ==> #[trigger] reqs[j].pixel_format != PixelFormat::Bgra32f
    } else if exists|i: int| 0 <= i < reqs.len() && #[trigger] reqs[i].pixel_format == PixelFormat::Bgra8u {
        choose|i: int|
            0 <= i < reqs.len() && reqs[i].pixel_format == PixelFormat::Bgra8u && forall|j: int|
                i < j < reqs.len() ==> #[trigger] reqs[j].pixel_format != PixelFormat::Bgra8u
    } else {
        0
    }
}

/// The first request for float pixels.
fn first_float_request(requests: &[FrameRequest]) -> (r: Option<usize>)
    ensures
        match r {
            Some(i) => i < requests@.len() && requests@[i as int].pixel_format == PixelFormat::Bgra32f
                && forall|j: int| 0 <= j < i ==> #[trigger] requests@[j].pixel_format
                    != PixelFormat::Bgra32f,
            None => forall|j: int| 0 <= j < requests@.len() ==> #[trigger] requests@[j].pixel_format
                != PixelFormat::Bgra32f,
        },
{
    let mut i: usize = 0;
    while i < requests.len()
        invariant
            i <= requests@.len(),
            forall|j: int| 0 <= j < i ==> #[trigger] requests@[j].pixel_format != PixelFormat::Bgra32f,
        decreases requests@.len() - i,
    {
        if requests[i].pixel_format == PixelFormat::Bgra32f {
            return Some(i);
        }
        i = i + 1;
    }
    None
}

/// The last request for 8-bit pixels.
fn last_byte_request(requests: &[FrameRequest]) -> (r: Option<usize>)
    ensures
        match r {
            Some(i) => i < requests@.len() && requests@[i as int].pixel_format == PixelFormat::Bgra8u
                && forall|j: int| i < j < requests@.len() ==> #[trigger] requests@[j].pixel_format
                    != PixelFormat::Bgra8u,
            None => forall|j: int| 0 <= j < requests@.len() ==> #[trigger] requests@[j].pixel_format
                != PixelFormat::Bgra8u,
        },
{
    let mut i: usize = requests.len();
    while i > 0
        invariant
            i <= requests@.len(),
            forall|j: int| i <= j < requests@.len() ==> #[trigger] requests@[j].pixel_format
                != PixelFormat::Bgra8u,
        decreases i,
    {
        if requests[i - 1].pixel_format == PixelFormat::Bgra8u {
            return Some(i - 1);
        }
        i = i - 1;
    }
    None
}

/// How a frame is delivered for the host's list of acceptable layouts and
/// sizes: float when offered, else 8 bits (also when neither is offered); the
/// size of the request the layout is taken from when both its sides are
/// positive, else the default size.
pub fn choose_frame_format(requests: &[FrameRequest], default_width: i32, default_height: i32) -> (r:
    FrameChoice)
    ensures
        requests@.len() == 0 ==> r == (FrameChoice {
            pixel_format: PixelFormat::Bgra8u,
            width: default_width,
            height: default_height,
        }),
        requests@.len() > 0 ==> ({
            let k = chosen_request(requests@);
            let q = requests@[k];
            &&& 0 <= k < requests@.len()
            &&& r.pixel_format == (if q.pixel_format == PixelFormat::Bgra32f {
                PixelFormat::Bgra32f
            } else {
                PixelFormat::Bgra8u
            })
            &&& (r.width, r.height) == (if q.width > 0 && q.height > 0 {
                (q.width, q.height)
            } else {
                (default_width, default_height)
            })
        }),
{
    if requests.len() == 0 {
        return FrameChoice { pixel_format: PixelFormat::Bgra8u, width: default_width, height: default_height };
    }
    let (chosen, k): (PixelFormat, usize) = match first_float_request(requests) {
        Some(j) => (PixelFormat::Bgra32f, j),
        None => match last_byte_request(requests) {
            Some(j) => (PixelFormat::Bgra8u, j),
            None => (PixelFormat::Bgra8u, 0),
        },
    };
    proof {
        let reqs = requests@;
        let c = chosen_request(reqs);
        if chosen == PixelFormat::Bgra32f {
            assert(reqs[k as int].pixel_format == PixelFormat::Bgra32f);
            assert(0 <= c < reqs.len() && reqs[c].pixel_format == PixelFormat::Bgra32f
                && forall|j: int| 0 <= j < c ==> #[trigger] reqs[j].pixel_format != PixelFormat::Bgra32f);
            if c < k {
                assert(reqs[c].pixel_format != PixelFormat::Bgra32f);
            }
            if k < c {
                assert(reqs[k as int].pixel_format != PixelFormat::Bgra32f);
            }
        } else if exists|j: int| 0 <= j < reqs.len() && #[trigger] reqs[j].pixel_format
            == PixelFormat::Bgra8u {
            assert(reqs[k as int].pixel_format == PixelFormat::Bgra8u);
            assert(0 <= c < reqs.len() && reqs[c].pixel_format == PixelFormat::Bgra8u
                && forall|j: int| c < j < reqs.len() ==> #[trigger] reqs[j].pixel_format
                    != PixelFormat::Bgra8u);
            if c < k {
                assert(reqs[k as int].pixel_format != PixelFormat::Bgra8u);
            }
            if k < c {
                assert(reqs[c].pixel_format != PixelFormat::Bgra8u);
            }
        }
    }
    let w = requests[k].width;
    let h = requests[k].height;
    if w > 0 && h > 0 {
        FrameChoice { pixel_format: chosen, width: w, height: h }
    } else {
        FrameChoice { pixel_format: chosen, width: default_width, height: default_height }
    }
}

/// The duration of one frame in host ticks for a stream's frame rate: one
/// second's ticks times the denominator, divided by the numerator and rounded
/// down; a twenty-fourth of a second when the rate is not positive.
pub fn frame_duration_ticks(rate: Rational) -> (r: i64)
    requires
        rate.num > 0 && rate.den > 0 ==> TICKS_PER_SECOND * rate.den <= i64::MAX,
    ensures
        r == (if rate.num > 0 && rate.den > 0 {
            (TICKS_PER_SECOND * rate.den) / (rate.num as int)
        } else {
            TICKS_PER_SECOND / 24
        }),
{
    if rate.den > 0 && rate.num > 0 {
        let n: i64 = 254016000000i64 * (rate.den as i64);
        let q: i64 = n / (rate.num as i64);
        q
    } else {
        254016000000 / 24
    }
}

/// The bit depth the host is told for a stream whose samples have `bits` bits:
/// 40 above 8 bits, 32 otherwise.
pub fn video_depth(bits: i32) -> (r: i32)
    ensures
        r == (if bits > 8 {
            40i32
        } else {
            32i32
        }),
{
    if bits > 8 {
        40
    } else {
        32
    }
}

/// The kind of a stream in a media file.
#[derive(Clone, Copy, Debug, PartialEq, Eq, Structural)]
pub enum StreamKind {
    Video,
    Audio,
    Other,
}

/// The streams an imported file is read from.
#[derive(Clone, Copy, Debug, PartialEq, Eq)]
pub struct StreamSelection {
    pub video: Option<usize>,
    pub audio: Option<usize>,
}

/// The first stream of `kind` in `kinds`, if there is one.
pub open spec fn first_of_kind(kinds: Seq<StreamKind>, kind: StreamKind, i: int) -> bool {
    0 <= i < kinds.len() && kinds[i] == kind && forall|j: int| 0 <= j < i ==> #[trigger] kinds[j] != kind
}

/// The streams to read: the first video stream and the first audio stream.
pub fn select_streams(kinds: &[StreamKind]) -> (r: StreamSelection)
    ensures
        match r.video {
            Some(i) => first_of_kind(kinds@, StreamKind::Video, i as int),
            None => forall|j: int| 0 <= j < kinds@.len() ==> #[trigger] kinds@[j] != StreamKind::Video,
        },
        match r.audio {
            Some(i) => first_of_kind(kinds@, StreamKind::Audio, i as int),
            None => forall|j: int| 0 <= j < kinds@.len() ==> #[trigger] kinds@[j] != StreamKind::Audio,
        },
{
    let mut video: Option<usize> = None;
    let mut audio: Option<usize> = None;
    let mut i: usize = 0;
    while i < kinds.len()
        invariant
            i <= kinds@.len(),
            match video {
                Some(v) => first_of_kind(kinds@, StreamKind::Video, v as int) && v < i,
                None => forall|j: int| 0 <= j < i ==> #[trigger] kinds@[j] != StreamKind::Video,
            },
            match audio {
                Some(a) => first_of_kind(kinds@, StreamKind::Audio, a as int) && a < i,
                None => forall|j: int| 0 <= j < i ==> #[trigger] kinds@[j] != StreamKind::Audio,
            },
        decreases kinds@.len() - i,
    {
        if kinds[i] == StreamKind::Video && video.is_none() {
            video = Some(i);
        } else if kinds[i] == StreamKind::Audio && audio.is_none() {
            audio = Some(i);
        }
        i = i + 1;
    }
    StreamSelection { video, audio }
}

/// The pixel format the decoder works in, given the formats it offers (by
/// whether each is a hardware one) and whether a hardware device is attached:
/// the first hardware format when a device is attached and one is offered,
/// otherwise the first offered format. `None` stands for the end of an empty
/// list.
pub fn choose_decoder_format(hardware: &[bool], has_device: bool) -> (r: Option<usize>)
    ensures
        hardware@.len() == 0 ==> r is None,
        hardware@.len() > 0 ==> r is Some,
        has_device && hardware@.contains(true) ==> ({
            let i = r->0 as int;
            0 <= i < hardware@.len() && hardware@[i] && forall|j: int|
                0 <= j < i ==> !#[trigger] hardware@[j]
        }),
        hardware@.len() > 0 && !(has_device && hardware@.contains(true)) ==> r == Some(0usize),
{
    if hardware.len() == 0 {
        return None;
    }
    if has_device {
        let mut i: usize = 0;
        while i < hardware.len()
            invariant
                has_device,
                i <= hardware@.len(),
                forall|j: int| 0 <= j < i ==> !#[trigger] hardware@[j],
            decreases hardware@.len() - i,
        {
            if hardware[i] {
                assert(hardware@[i as int]);
                return Some(i);
            }
            i = i + 1;
        }
    }
    Some(0)
}

/// The hardware decoding devices the importer can attach.
#[derive(Clone, Copy, Debug, PartialEq, Eq)]
pub enum DecoderDevice {
    D3d11va,
    Cuda,
}

/// The hardware decoding devices to try, in order, when a file is opened:
/// Direct3D 11 video acceleration, then CUDA, when the host uses graphics
/// acceleration; none when the host renders in software only, so that the
/// decoder works in software.
pub fn decoder_device_order(gpu_acceleration: bool) -> (r: Vec<DecoderDevice>)
    ensures
        r@ == (if gpu_acceleration {
            seq![DecoderDevice::D3d11va, DecoderDevice::Cuda]
        } else {
            Seq::<DecoderDevice>::empty()
        }),
{
    let mut r: Vec<DecoderDevice> = Vec::new();
    if gpu_acceleration {
        r.push(DecoderDevice::D3d11va);
        r.push(DecoderDevice::Cuda);
    }
    assert(gpu_acceleration ==> r@ =~= seq![DecoderDevice::D3d11va, DecoderDevice::Cuda]);
    r
}

/// The "Multiplexer" choice that writes no container.
pub const MULTIPLEXER_NONE: i32 = 2;

/// Whether the encoder writes an audio stream: only when the host's audio
/// renderer is ready and a container is written (the "None" multiplexer
/// silences audio).
pub fn encoder_audio_enabled(audio_renderer_ready: bool, multiplexer: i32) -> (r: bool)
    ensures
        r == (audio_renderer_ready && multiplexer != MULTIPLEXER_NONE),
{
    audio_renderer_ready && multiplexer != MULTIPLEXER_NONE
}

/// A duration in whole seconds as hours, minutes and seconds.
pub fn clock_fields(total_seconds: u64) -> (r: (u64, u64, u64))
    ensures
        r.0 == total_seconds / 3600,
        r.1 == (total_seconds % 3600) / 60,
        r.2 == total_seconds % 60,
        r.0 * 3600 + r.1 * 60 + r.2 == total_seconds,
{
    let h = total_seconds / 3600;
    let m = (total_seconds % 3600) / 60;
    let s = total_seconds % 60;
    assert(h * 3600 + m * 60 + s == total_seconds) by (nonlinear_arith)
        requires
            h == total_seconds / 3600,
            m == (total_seconds % 3600) / 60,
            s == total_seconds % 60,
    ;
    (h, m, s)
}

/// The codec of a file's video stream, as the demuxer reports it.
#[derive(Clone, Copy, Debug, PartialEq, Eq)]
pub enum StreamCodec {
    Av1,
    Vp8,
    Vp9,
    Other,
}

/// The importer's verdict on a file: decode its video with the codec, or
/// answer the host that the file is bad.
#[derive(Clone, Copy, Debug, PartialEq, Eq)]
pub enum OpenVerdict {
    Decode(VideoCodec),
    BadFile,
}

/// Only AV1, VP8 and VP9 video is imported; a file with any other video codec
/// is a bad file.
pub fn check_video_codec(codec: StreamCodec) -> (r: OpenVerdict)
    ensures
        r == (match codec {
            StreamCodec::Av1 => OpenVerdict::Decode(VideoCodec::Av1),
            StreamCodec::Vp8 => OpenVerdict::Decode(VideoCodec::Vp8),
            StreamCodec::Vp9 => OpenVerdict::Decode(VideoCodec::Vp9),
            StreamCodec::Other => OpenVerdict::BadFile,
        }),
{
    match codec {
        StreamCodec::Av1 => OpenVerdict::Decode(VideoCodec::Av1),
        StreamCodec::Vp8 => OpenVerdict::Decode(VideoCodec::Vp8),
        StreamCodec::Vp9 => OpenVerdict::Decode(VideoCodec::Vp9),
        StreamCodec::Other => OpenVerdict::BadFile,
    }
}

} // verus!
