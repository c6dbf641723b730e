use crate::prefs::{chars_of, contains_seq, find_first};
use crate::timing::TICKS_PER_SECOND;
use crate::text::{c_string_bytes, to_c_string};
use vstd::string::StringSliceAdditionalSpecFns;
use vstd::prelude::*;

verus! {

/// The four-character code `NukA` of the AV1 exporter.
pub const FILE_TYPE_AV1: u32 = 0x4E75_6B41;

/// The four-character code `Nuk8` of the VP8 exporter.
pub const FILE_TYPE_VP8: u32 = 0x4E75_6B38;

/// The four-character code `Nuk9` of the VP9 exporter.
pub const FILE_TYPE_VP9: u32 = 0x4E75_6B39;

/// The four-character code `NukE` of the exporter class.
pub const EXPORTER_CLASS: u32 = 0x4E75_6B45;

/// The value of four bytes read as a big-endian number.
pub open spec fn spec_fourcc(b: [u8; 4]) -> int {
    b[0] * 0x100_0000 + b[1] * 0x1_0000 + b[2] * 0x100 + b[3]
}

/// Four bytes read as a big-endian number, as four-character codes are.
pub fn fourcc(b: [u8; 4]) -> (r: u32)
    ensures
        r == spec_fourcc(b),
{
    (b[0] as u32) * 0x100_0000 + (b[1] as u32) * 0x1_0000 + (b[2] as u32) * 0x100 + (b[3] as u32)
}

/// The video codecs the exporter writes.
#[derive(Clone, Copy, Debug, PartialEq, Eq)]
pub enum VideoCodec {
    Av1,
    Vp9,
    Vp8,
}

/// The codec of an exporter file type: `NukA` is AV1, `Nuk9` is VP9, any other
/// VP8.
pub fn codec_for_file_type(file_type: u32) -> (r: VideoCodec)
    ensures
        r == (if file_type == FILE_TYPE_AV1 {
            VideoCodec::Av1
        } else if file_type == FILE_TYPE_VP9 {
            VideoCodec::Vp9
        } else {
            VideoCodec::Vp8
        }),
{
    if file_type == FILE_TYPE_AV1 {
        VideoCodec::Av1
    } else if file_type == FILE_TYPE_VP9 {
        VideoCodec::Vp9
    } else {
        VideoCodec::Vp8
    }
}

/// Which hardware encoders the codec library offers.
#[derive(Clone, Copy, Debug, PartialEq, Eq)]
pub struct HardwareEncoders {
    pub av1_nvenc: bool,
    pub av1_amf: bool,
    pub av1_qsv: bool,
    pub vp9_nvenc: bool,
    pub vp9_qsv: bool,
}

/// The encoder for a codec and the "Performance" choice (0 automatic, 1 CPU,
/// 2 NVIDIA, 3 AMD, 4 Intel). Automatic AV1 takes the first available of
/// NVENC, AMF, QSV, else the CPU encoder; automatic VP9 the first of NVENC,
/// QSV, else the CPU encoder. VP9 has no AMD encoder and falls back to the CPU
/// one; VP8 always uses the CPU encoder; unknown choices give the AV1 CPU
/// encoder.
pub fn select_video_encoder(codec: VideoCodec, choice: i32, hw: HardwareEncoders) -> (r:
    &'static str)
    ensures
        r@ == (match codec {
            VideoCodec::Av1 => if choice == 0 {
                if hw.av1_nvenc {
                    "av1_nvenc"@
                } else if hw.av1_amf {
                    "av1_amf"@
                } else if hw.av1_qsv {
                    "av1_qsv"@
                } else {
                    "libaom_av1"@
                }
            } else if choice == 1 {
                "libaom_av1"@
            } else if choice == 2 {
                "av1_nvenc"@
            } else if choice == 3 {
                "av1_amf"@
            } else if choice == 4 {
                "av1_qsv"@
            } else {
                "libaom_av1"@
            },
            VideoCodec::Vp9 => if choice == 0 {
                if hw.vp9_nvenc {
                    "vp9_nvenc"@
                } else if hw.vp9_qsv {
                    "vp9_qsv"@
                } else {
                    "libvpx-vp9"@
                }
            } else if choice == 1 || choice == 3 {
                "libvpx-vp9"@
            } else if choice == 2 {
                "vp9_nvenc"@
            } else if choice == 4 {
                "vp9_qsv"@
            } else {
                "libaom_av1"@
            },
            VideoCodec::Vp8 => "libvpx"@,
        }),
{
    match codec {
        VideoCodec::Av1 => {
            if choice == 0 {
                if hw.av1_nvenc {
                    "av1_nvenc"
                } else if hw.av1_amf {
                    "av1_amf"
                } else if hw.av1_qsv {
                    "av1_qsv"
                } else {
                    "libaom_av1"
                }
            } else if choice == 1 {
                "libaom_av1"
            } else if choice == 2 {
                "av1_nvenc"
            } else if choice == 3 {
                "av1_amf"
            } else if choice == 4 {
                "av1_qsv"
            } else {
                "libaom_av1"
            }
        },
        VideoCodec::Vp9 => {
            if choice == 0 {
                if hw.vp9_nvenc {
                    "vp9_nvenc"
                } else if hw.vp9_qsv {
                    "vp9_qsv"
                } else {
                    "libvpx-vp9"
                }
            } else if choice == 1 || choice == 3 {
                "libvpx-vp9"
            } else if choice == 2 {
                "vp9_nvenc"
            } else if choice == 4 {
                "vp9_qsv"
            } else {
                "libaom_av1"
            }
        },
        VideoCodec::Vp8 => "libvpx",
    }
}

/// The audio bit rate in bits per second of an "Audio Bitrate" choice: 96,
/// 128, 160, 192, 256 or 320 kbps for choices 0 to 5, 128 kbps otherwise.
pub open spec fn spec_audio_bitrate(choice: i32) -> i32 {
    if choice == 0 {
        96000
    } else if choice == 2 {
        160000
    } else if choice == 3 {
        192000
    } else if choice == 4 {
        256000
    } else if choice == 5 {
        320000
    } else {
        128000
    }
}

/// The audio bit rate in bits per second of an "Audio Bitrate" choice (see
/// `spec_audio_bitrate`).
pub fn audio_bitrate_bps(choice: i32) -> (r: i32)
    ensures
        r == spec_audio_bitrate(choice),
{
    if choice == 0 {
        96000
    } else if choice == 2 {
        160000
    } else if choice == 3 {
        192000
    } else if choice == 4 {
        256000
    } else if choice == 5 {
        320000
    } else {
        128000
    }
}

/// The audio encoder for a container choice: Opus in Matroska (choice 0), AAC
/// otherwise.
pub fn audio_codec_for_container(container: i32) -> (r: &'static str)
    ensures
        r@ == (if container == 0 {
            "opus"@
        } else {
            "aac"@
        }),
{
    if container == 0 {
        "opus"
    } else {
        "aac"
    }
}

/// The file extension that a container choice gives an export of the given
/// file type (see `container_extension`).
pub open spec fn container_extension_of(container: i32, file_type: u32) -> Seq<char> {
    if container == 0 {
        "mkv"@
    } else if 1 <= container <= 3 {
        "mp4"@
    } else if 4 <= container <= 6 {
        "mov"@
    } else if file_type == FILE_TYPE_VP8 || file_type == FILE_TYPE_VP9 {
        "webm"@
    } else {
        "mp4"@
    }
}

/// The file extension of an export: by the container choice (0 Matroska, 1 to
/// 3 MPEG-4, 4 to 6 QuickTime), and for other choices by the file type (WebM
/// for VP8 and VP9, MPEG-4 otherwise).
pub fn container_extension(container: i32, file_type: u32) -> (r: &'static str)
    ensures
        r@ == container_extension_of(container, file_type),
{
    if container == 0 {
        "mkv"
    } else if 1 <= container && container <= 3 {
        "mp4"
    } else if 4 <= container && container <= 6 {
        "mov"
    } else if file_type == FILE_TYPE_AV1 {
        "mp4"
    } else if file_type == FILE_TYPE_VP8 || file_type == FILE_TYPE_VP9 {
        "webm"
    } else {
        "mp4"
    }
}

/// The file extension of an export whose container setting may not have been
/// readable: a setting that could not be read counts as choice 0 (Matroska),
/// and the extension is then as `container_extension` says.
pub fn export_file_extension(container: Option<i32>, file_type: u32) -> (r: &'static str)
    ensures
        r@ == (match container {
            Some(c) => (if c == 0 {
                "mkv"@
            } else if 1 <= c <= 3 {
                "mp4"@
            } else if 4 <= c <= 6 {
                "mov"@
            } else if file_type == FILE_TYPE_VP8 || file_type == FILE_TYPE_VP9 {
                "webm"@
            } else {
                "mp4"@
            }),
            None => "mkv"@,
        }),
{
    match container {
        Some(c) => container_extension(c, file_type),
        None => container_extension(0, file_type),
    }
}

/// The output path as a C string for the muxer: its bytes followed by a NUL;
/// the error "Invalid path" when the path holds a NUL byte.
pub fn output_path_c_string(path: &str) -> (r: Result<Vec<u8>, &'static str>)
    ensures
        match r {
            Ok(b) => b@ == c_string_bytes(path) && !path.spec_bytes().contains(0u8),
            Err(e) => e@ == "Invalid path"@ && path.spec_bytes().contains(0u8),
        },
{
    match to_c_string(path) {
        Some(b) => Ok(b),
        None => Err("Invalid path"),
    }
}

/// The muxer flags of a container choice: fragmented files with an empty
/// index for choices 2, 3, 5 and 6, the index moved to the front for choices
/// 1 and 4, none otherwise.
pub fn container_movflags(container: i32) -> (r: Option<&'static str>)
    ensures
        match r {
            Some(f) => ((container == 2 || container == 3 || container == 5 || container == 6)
                && f@ == "empty_moov+default_base_moof+frag_keyframe"@) || ((container == 1
                || container == 4) && f@ == "faststart"@),
            None => !(1 <= container <= 6),
        },
{
    if container == 2 || container == 3 || container == 5 || container == 6 {
        Some("empty_moov+default_base_moof+frag_keyframe")
    } else if container == 1 || container == 4 {
        Some("faststart")
    } else {
        None
    }
}

/// The colour description written for a "Color Space" choice, as code points
/// of ITU-T H.273 (which the codec library's colour enumerations use too).
#[derive(Clone, Copy, Debug, PartialEq, Eq)]
pub struct ColorSpaceCodes {
    pub primaries: i32,
    pub transfer: i32,
    pub matrix: i32,
    pub bit_depth: i32,
}

/// The colour description of a choice: 1 is Rec.2020 with PQ, 2 Rec.2020 with
/// HLG (both 10 bits), anything else Rec.709 with 8 bits.
pub fn color_space_codes(choice: i32) -> (r: ColorSpaceCodes)
    ensures
        r == (if choice == 1 {
            ColorSpaceCodes { primaries: 9, transfer: 16, matrix: 9, bit_depth: 10 }
        } else if choice == 2 {
            ColorSpaceCodes { primaries: 9, transfer: 18, matrix: 9, bit_depth: 10 }
        } else {
            ColorSpaceCodes { primaries: 1, transfer: 1, matrix: 1, bit_depth: 8 }
        }),
{
    let mut r = ColorSpaceCodes { primaries: 1, transfer: 1, matrix: 1, bit_depth: 8 };
    if choice == 1 {
        r = ColorSpaceCodes { primaries: 9, transfer: 16, matrix: 9, bit_depth: 10 };
    } else if choice == 2 {
        r = ColorSpaceCodes { primaries: 9, transfer: 18, matrix: 9, bit_depth: 10 };
    }
    r
}

/// Whether a "Color Space" choice is a high dynamic range one (10 bits).
pub fn is_hdr(choice: i32) -> (r: bool)
    ensures
        r == (choice == 1 || choice == 2),
{
    choice == 1 || choice == 2
}

/// The channel positions announced to the host's audio renderer.
#[derive(Clone, Copy, Debug, PartialEq, Eq)]
pub enum ChannelLabel {
    FrontLeft,
    FrontRight,
    FrontCenter,
    LowFrequency,
    BackLeft,
    BackRight,
    Discrete,
}

/// The channel positions for a channel count: centre for mono, left and right
/// for stereo, the 5.1 layout for six channels, and unnamed channels for any
/// other count.
pub fn channel_labels(channels: i32) -> (r: Vec<ChannelLabel>)
    requires
        channels >= 0,
    ensures
        r@ == (if channels == 1 {
            seq![ChannelLabel::FrontCenter]
        } else if channels == 2 {
            seq![ChannelLabel::FrontLeft, ChannelLabel::FrontRight]
        } else if channels == 6 {
            seq![
                ChannelLabel::FrontLeft,
                ChannelLabel::FrontRight,
                ChannelLabel::FrontCenter,
                ChannelLabel::LowFrequency,
                ChannelLabel::BackLeft,
                ChannelLabel::BackRight,
            ]
        } else {
            Seq::new(channels as nat, |i: int| ChannelLabel::Discrete)
        }),
{
    let mut r: Vec<ChannelLabel> = Vec::new();
    if channels == 1 {
        r.push(ChannelLabel::FrontCenter);
    } else if channels == 2 {
        r.push(ChannelLabel::FrontLeft);
        r.push(ChannelLabel::FrontRight);
    } else if channels == 6 {
        r.push(ChannelLabel::FrontLeft);
        r.push(ChannelLabel::FrontRight);
        r.push(ChannelLabel::FrontCenter);
        r.push(ChannelLabel::LowFrequency);
        r.push(ChannelLabel::BackLeft);
        r.push(ChannelLabel::BackRight);
    } else {
        let n: usize = channels as usize;
        let mut i: usize = 0;
        while i < n
            invariant
                i <= n,
                r@ == Seq::new(i as nat, |k: int| ChannelLabel::Discrete),
            decreases n - i,
        {
            r.push(ChannelLabel::Discrete);
            i = i + 1;
            assert(r@ =~= Seq::new(i as nat, |k: int| ChannelLabel::Discrete));
        }
    }
    assert(channels == 1 ==> r@ =~= seq![ChannelLabel::FrontCenter]);
    assert(channels == 2 ==> r@ =~= seq![ChannelLabel::FrontLeft, ChannelLabel::FrontRight]);
    r
}

/// The channel wording of the export summary: mono for one channel, 5.1 for
/// choice 3, stereo otherwise.
pub fn channel_summary(channels: i32) -> (r: &'static str)
    ensures
        r@ == (if channels == 1 {
            "Mono"@
        } else if channels == 3 {
            "5.1"@
        } else {
            "Stereo"@
        }),
{
    if channels == 1 {
        "Mono"
    } else if channels == 3 {
        "5.1"
    } else {
        "Stereo"
    }
}

/// A dimension of the export: the chosen value, or the sequence's when the
/// choice is not positive ("Custom").
pub fn resolve_dimension(chosen: i32, timeline: i32) -> (r: i32)
    ensures
        r == (if chosen <= 0 {
            timeline
        } else {
            chosen
        }),
{
    if chosen <= 0 {
        timeline
    } else {
        chosen
    }
}

/// The whole-number frame rate given to the encoder for a frame duration in
/// host ticks: the number of whole frames per second (saturated to `i32`), 30
/// when the duration is not positive.
pub fn encoder_frame_rate(ticks_per_frame: i64) -> (r: i32)
    ensures
        r == (if ticks_per_frame > 0 {
            if TICKS_PER_SECOND / ticks_per_frame > i32::MAX {
                i32::MAX as int
            } else {
                TICKS_PER_SECOND / ticks_per_frame
            }
        } else {
            30
        }),
{
    if ticks_per_frame > 0 {
        let q: i64 = 254016000000 / ticks_per_frame;
        if q > 0x7fff_ffff {
            i32::MAX
        } else {
            q as i32
        }
    } else {
        30
    }
}

/// The keyframe distance given to the encoder: a positive setting of at most 5
/// counts seconds (multiplied by the frame rate), a larger one counts frames,
/// and a setting that is not positive gives 250 frames.
pub fn keyframe_interval(setting: i32, fps: i32) -> (r: i32)
    requires
        0 < setting <= 5 ==> i32::MIN <= setting * fps <= i32::MAX,
    ensures
        r == (if setting > 0 {
            if setting <= 5 {
                setting * fps
            } else {
                setting as int
            }
        } else {
            250
        }),
{
    if setting > 0 {
        if setting <= 5 {
            setting * fps
        } else {
            setting
        }
    } else {
        250
    }
}

/// Whether `needle` occurs in `hay`.
pub fn str_contains(hay: &str, needle: &str) -> (r: bool)
    ensures
        r == contains_seq(hay@, needle@),
{
    let h = chars_of(hay);
    let n = chars_of(needle);
    find_first(&h, &n).is_some()
}

/// The rate-control mode of an NVIDIA encoder for a "Rate Control" choice
/// (0 constant bit rate, 1 constant QP, 2 and 3 variable bit rate; constant
/// bit rate otherwise).
pub fn nvenc_rate_control(mode: i32) -> (r: &'static str)
    ensures
        r@ == (if mode == 1 {
            "constqp"@
        } else if mode == 2 || mode == 3 {
            "vbr"@
        } else {
            "cbr"@
        }),
{
    if mode == 1 {
        "constqp"
    } else if mode == 2 || mode == 3 {
        "vbr"
    } else {
        "cbr"
    }
}

/// The rate settings of the video encoder: the bit rates to set (when set) and
/// an encoder option as a name and a value (when one is set).
#[derive(Clone, Copy, Debug, PartialEq, Eq)]
pub struct RatePlan {
    pub bit_rate: Option<i64>,
    pub max_rate: Option<i64>,
    pub buffer_size: Option<i32>,
    pub option: Option<(&'static str, &'static str)>,
}

/// The buffer size of a constrained rate: twice the rate, cut to 32 bits.
pub open spec fn buffer_of(rate: i64) -> i32 {
    (rate * 2) as i32
}

/// The rate settings of a "Rate Control" choice for an encoder. NVIDIA
/// encoders: constant bit rate caps the rate at the target with a buffer of
/// twice the target, constant QP sets `qp` to 20, variable bit rate caps at the
/// maximum with a buffer of twice the maximum, target quality sets the target
/// and `cq` to 20, other choices set nothing. Other encoders: constant and
/// variable bit rate set the target and cap it (at the target, resp. the
/// maximum); the other choices set `crf` to 26 for AV1 encoders and 28
/// otherwise.
pub fn rate_plan(encoder: &str, mode: i32, bitrate: i64, max_bitrate: i64) -> (r: RatePlan)
    requires
        contains_seq(encoder@, "nvenc"@) && mode == 0 ==> i64::MIN <= bitrate * 2 <= i64::MAX,
        contains_seq(encoder@, "nvenc"@) && mode == 2 ==> i64::MIN <= max_bitrate * 2 <= i64::MAX,
    ensures
        contains_seq(encoder@, "nvenc"@) ==> r == (if mode == 0 {
            RatePlan {
                bit_rate: Some(bitrate),
                max_rate: Some(bitrate),
                buffer_size: Some(buffer_of(bitrate)),
                option: None,
            }
        } else if mode == 1 {
            RatePlan { bit_rate: None, max_rate: None, buffer_size: None, option: Some(("qp", "20")) }
        } else if mode == 2 {
            RatePlan {
                bit_rate: Some(bitrate),
                max_rate: Some(max_bitrate),
                buffer_size: Some(buffer_of(max_bitrate)),
                option: None,
            }
        } else if mode == 3 {
            RatePlan {
                bit_rate: Some(bitrate),
                max_rate: None,
                buffer_size: None,
                option: Some(("cq", "20")),
            }
        } else {
            RatePlan { bit_rate: None, max_rate: None, buffer_size: None, option: None }
        }),
        !contains_seq(encoder@, "nvenc"@) ==> r == (if mode == 0 || mode == 2 {
            RatePlan {
                bit_rate: Some(bitrate),
                max_rate: Some(
                    if mode == 0 {
                        bitrate
                    } else {
                        max_bitrate
                    },
                ),
                buffer_size: None,
                option: None,
            }
        } else if contains_seq(encoder@, "av1"@) {
            RatePlan {
                bit_rate: None,
                max_rate: None,
                buffer_size: None,
                option: Some(("crf", "26")),
            }
        } else {
            RatePlan {
                bit_rate: None,
                max_rate: None,
                buffer_size: None,
                option: Some(("crf", "28")),
            }
        }),
{
    let none = RatePlan { bit_rate: None, max_rate: None, buffer_size: None, option: None };
    if str_contains(encoder, "nvenc") {
        if mode == 0 {
            RatePlan {
                bit_rate: Some(bitrate),
                max_rate: Some(bitrate),
                buffer_size: Some((bitrate * 2) as i32),
                option: None,
            }
        } else if mode == 1 {
            RatePlan { option: Some(("qp", "20")), ..none }
        } else if mode == 2 {
            RatePlan {
                bit_rate: Some(bitrate),
                max_rate: Some(max_bitrate),
                buffer_size: Some((max_bitrate * 2) as i32),
                option: None,
            }
        } else if mode == 3 {
            RatePlan { bit_rate: Some(bitrate), option: Some(("cq", "20")), ..none }
        } else {
            none
        }
    } else if mode == 0 || mode == 2 {
        let cap = if mode == 0 {
            bitrate
        } else {
            max_bitrate
        };
        RatePlan { bit_rate: Some(bitrate), max_rate: Some(cap), ..none }
    } else if str_contains(encoder, "av1") {
        RatePlan { option: Some(("crf", "26")), ..none }
    } else {
        RatePlan { option: Some(("crf", "28")), ..none }
    }
}

/// The NVIDIA multipass mode of a "Multipass Mode" choice (0 disabled, 2 full
/// resolution, quarter resolution otherwise).
pub fn nvenc_multipass(choice: i32) -> (r: &'static str)
    ensures
        r@ == (if choice == 0 {
            "disabled"@
        } else if choice == 2 {
            "fullres"@
        } else {
            "qres"@
        }),
{
    if choice == 0 {
        "disabled"
    } else if choice == 2 {
        "fullres"
    } else {
        "qres"
    }
}

/// The NVIDIA B-frame reference mode of a choice (1 each, 2 middle, disabled
/// otherwise).
pub fn nvenc_b_ref_mode(choice: i32) -> (r: &'static str)
    ensures
        r@ == (if choice == 1 {
            "each"@
        } else if choice == 2 {
            "middle"@
        } else {
            "disabled"@
        }),
{
    if choice == 1 {
        "each"
    } else if choice == 2 {
        "middle"
    } else {
        "disabled"
    }
}

/// The value of an on/off encoder option.
pub fn switch_value(on: bool) -> (r: &'static str)
    ensures
        r@ == (if on {
            "1"@
        } else {
            "0"@
        }),
{
    if on {
        "1"
    } else {
        "0"
    }
}

/// The NVIDIA preset of a "Preset" choice: `p1` to `p7` for choices 0 to 6,
/// `p4` otherwise.
pub fn nvenc_preset(choice: i32) -> (r: &'static str)
    ensures
        r@ == (if choice == 0 {
            "p1"@
        } else if choice == 1 {
            "p2"@
        } else if choice == 2 {
            "p3"@
        } else if choice == 4 {
            "p5"@
        } else if choice == 5 {
            "p6"@
        } else if choice == 6 {
            "p7"@
        } else {
            "p4"@
        }),
{
    if choice == 0 {
        "p1"
    } else if choice == 1 {
        "p2"
    } else if choice == 2 {
        "p3"
    } else if choice == 4 {
        "p5"
    } else if choice == 5 {
        "p6"
    } else if choice == 6 {
        "p7"
    } else {
        "p4"
    }
}

/// The NVIDIA tuning of a "Tuning" choice (1 low latency, 2 ultra low latency,
/// high quality otherwise).
pub fn nvenc_tune(choice: i32) -> (r: &'static str)
    ensures
        r@ == (if choice == 1 {
            "ll"@
        } else if choice == 2 {
            "ull"@
        } else {
            "hq"@
        }),
{
    if choice == 1 {
        "ll"
    } else if choice == 2 {
        "ull"
    } else {
        "hq"
    }
}

/// The CPU speed of a software encoder for a "Preset" choice: 8 for the fastest
/// preset (0) down to 2 for the slowest (6), 4 otherwise. Only the libaom and
/// libvpx encoders take it.
pub fn cpu_used(encoder: &str, preset: i32) -> (r: Option<&'static str>)
    ensures
        (contains_seq(encoder@, "libaom"@) || contains_seq(encoder@, "libvpx"@)) ==> r is Some && r->0@
            == (if preset == 0 {
            "8"@
        } else if preset == 1 {
            "7"@
        } else if preset == 2 {
            "6"@
        } else if preset == 3 {
            "5"@
        } else if preset == 5 {
            "3"@
        } else if preset == 6 {
            "2"@
        } else {
            "4"@
        }),
        !(contains_seq(encoder@, "libaom"@) || contains_seq(encoder@, "libvpx"@)) ==> r is None,
{
    if str_contains(encoder, "libaom") || str_contains(encoder, "libvpx") {
        let v = if preset == 0 {
            "8"
        } else if preset == 1 {
            "7"
        } else if preset == 2 {
            "6"
        } else if preset == 3 {
            "5"
        } else if preset == 5 {
            "3"
        } else if preset == 6 {
            "2"
        } else {
            "4"
        };
        Some(v)
    } else {
        None
    }
}

/// The encoder profile of a "Profile" choice: for AV1 encoders main, high or
/// professional (0 to 2), for VP9 encoders the profile number (0 to 3);
/// nothing for other choices and encoders.
pub fn encoder_profile(encoder: &str, profile: i32) -> (r: Option<&'static str>)
    ensures
        r == (if profile < 0 {
            None
        } else if contains_seq(encoder@, "av1"@) {
            if profile == 0 {
                Some("main")
            } else if profile == 1 {
                Some("high")
            } else if profile == 2 {
                Some("professional")
            } else {
                None
            }
        } else if contains_seq(encoder@, "vp9"@) {
            if profile == 0 {
                Some("0")
            } else if profile == 1 {
                Some("1")
            } else if profile == 2 {
                Some("2")
            } else if profile == 3 {
                Some("3")
            } else {
                None
            }
        } else {
            None
        }),
{
    if profile < 0 {
        None
    } else if str_contains(encoder, "av1") {
        if profile == 0 {
            Some("main")
        } else if profile == 1 {
            Some("high")
        } else if profile == 2 {
            Some("professional")
        } else {
            None
        }
    } else if str_contains(encoder, "vp9") {
        if profile == 0 {
            Some("0")
        } else if profile == 1 {
            Some("1")
        } else if profile == 2 {
            Some("2")
        } else if profile == 3 {
            Some("3")
        } else {
            None
        }
    } else {
        None
    }
}

/// The AV1 level of a "Level" choice (5.0, 5.1, 5.2, 6.0 for 0 to 3); nothing
/// for other choices and for encoders that are not AV1 ones.
pub fn encoder_level(encoder: &str, level: i32) -> (r: Option<&'static str>)
    ensures
        r == (if level >= 0 && contains_seq(encoder@, "av1"@) {
            if level == 0 {
                Some("5.0")
            } else if level == 1 {
                Some("5.1")
            } else if level == 2 {
                Some("5.2")
            } else if level == 3 {
                Some("6.0")
            } else {
                None
            }
        } else {
            None
        }),
{
    if level >= 0 && str_contains(encoder, "av1") {
        if level == 0 {
            Some("5.0")
        } else if level == 1 {
            Some("5.1")
        } else if level == 2 {
            Some("5.2")
        } else if level == 3 {
            Some("6.0")
        } else {
            None
        }
    } else {
        None
    }
}

/// The AV1 tier of a "Tier" choice (0 main, 1 high); nothing for other choices
/// and for encoders that are not AV1 ones.
pub fn encoder_tier(encoder: &str, tier: i32) -> (r: Option<&'static str>)
    ensures
        r == (if tier >= 0 && contains_seq(encoder@, "av1"@) {
            if tier == 0 {
                Some("main")
            } else if tier == 1 {
                Some("high")
            } else {
                None
            }
        } else {
            None
        }),
{
    if tier >= 0 && str_contains(encoder, "av1") {
        if tier == 0 {
            Some("main")
        } else if tier == 1 {
            Some("high")
        } else {
            None
        }
    } else {
        None
    }
}

/// The sample rate the audio encoder runs at, given the requested rate and the
/// rates the encoder supports, when it lists them (without the list's closing
/// 0): the requested rate when no list is given, the list is empty or holds
/// it, else 48 kHz when listed, else the first listed rate.
pub fn choose_sample_rate(requested: i32, supported: Option<&[i32]>) -> (r: i32)
    requires
        match supported {
            Some(l) => forall|i: int| 0 <= i < l@.len() ==> #[trigger] l@[i] != 0,
            None => true,
        },
    ensures
        r == (match supported {
            None => requested,
            Some(l) => listed_sample_rate(requested, l@),
        }),
{
    match supported {
        None => requested,
        Some(l) => choose_listed_sample_rate(requested, l),
    }
}

/// The rate chosen from a list of supported rates (see `choose_sample_rate`).
pub open spec fn listed_sample_rate(requested: i32, supported: Seq<i32>) -> i32 {
    if supported.len() == 0 {
        requested
    } else if supported.contains(requested) {
        requested
    } else if supported.contains(48000) {
        48000
    } else {
        supported[0]
    }
}

fn choose_listed_sample_rate(requested: i32, supported: &[i32]) -> (r: i32)
    requires
        forall|i: int| 0 <= i < supported@.len() ==> #[trigger] supported@[i] != 0,
    ensures
        r == (if supported@.len() == 0 {
            requested
        } else if supported@.contains(requested) {
            requested
        } else if supported@.contains(48000) {
            48000
        } else {
            supported@[0]
        }),
{
    let mut best: i32 = 0;
    let mut i: usize = 0;
    while i < supported.len()
        invariant
            i <= supported@.len(),
            forall|k: int| 0 <= k < supported@.len() ==> #[trigger] supported@[k] != 0,
            forall|k: int| 0 <= k < i ==> #[trigger] supported@[k] != requested,
            best == (if i == 0 {
                0
            } else if supported@.take(i as int).contains(48000) {
                48000
            } else {
                supported@[0]
            }),
        decreases supported@.len() - i,
    {
        let rate = supported[i];
        if rate == requested {
            proof {
                assert(supported@[i as int] == requested);
            }
            return requested;
        }
        proof {
            assert(supported@.take(i as int + 1) =~= supported@.take(i as int).push(rate));
            if supported@.take(i as int).contains(48000) {
                let k = choose|k: int| 0 <= k < i && supported@.take(i as int)[k] == 48000;
                assert(supported@.take(i as int + 1)[k] == 48000);
            }
            if rate == 48000 {
                assert(supported@.take(i as int + 1)[i as int] == 48000);
            }
        }
        if best == 0 || rate == 48000 {
            best = rate;
        }
        i = i + 1;
    }
    proof {
        assert(supported@.take(supported@.len() as int) =~= supported@);
        if supported@.contains(requested) {
            let k = choose|k: int| 0 <= k < supported@.len() && supported@[k] == requested;
            assert(supported@[k] != requested);
        }
    }
    if best != 0 {
        best
    } else {
        requested
    }
}

/// The sample format the audio encoder runs at, given the formats it lists
/// (without the list's closing `list_end` marker), when it lists any: planar
/// float when no list is given or the list holds it, otherwise the list's
/// first entry, which for an empty list is the closing marker itself.
pub fn choose_sample_format(supported: Option<&[i32]>, planar_float: i32, list_end: i32) -> (r: i32)
    requires
        match supported {
            Some(l) => forall|i: int| 0 <= i < l@.len() ==> #[trigger] l@[i] != list_end,
            None => true,
        },
    ensures
        r == (match supported {
            None => planar_float,
            Some(l) => if l@.contains(planar_float) {
                planar_float
            } else if l@.len() == 0 {
                list_end
            } else {
                l@[0]
            },
        }),
{
    match supported {
        None => planar_float,
        Some(l) => choose_listed_format(l, planar_float, list_end),
    }
}

fn choose_listed_format(l: &[i32], planar_float: i32, list_end: i32) -> (r: i32)
    ensures
        r == (if l@.contains(planar_float) {
            planar_float
        } else if l@.len() == 0 {
            list_end
        } else {
            l@[0]
        }),
{
    let mut i: usize = 0;
    while i < l.len()
        invariant
            i <= l@.len(),
            forall|k: int| 0 <= k < i ==> #[trigger] l@[k] != planar_float,
        decreases l@.len() - i,
    {
        if l[i] == planar_float {
            proof {
                assert(l@[i as int] == planar_float);
            }
            return planar_float;
        }
        i = i + 1;
    }
    if l.len() == 0 {
        list_end
    } else {
        l[0]
    }
}

/// What the export's render loop does next.
#[derive(Clone, Copy, Debug, PartialEq, Eq)]
pub enum RenderStep {
    /// Render, encode and report the frame at this host time.
    RenderAt(i64),
    /// Leave the loop, finish the encoder and answer the host: "abort" when
    /// the user cancelled, success otherwise.
    Finish { aborted: bool },
}

/// The render loop's position: the host time of the next frame, the end of the
/// exported span, the frame duration, whether the user cancelled, and (for the
/// proofs) how many frames were handled so far.
pub struct RenderClock {
    pub start_time: i64,
    pub current_time: i64,
    pub end_time: i64,
    pub ticks_per_frame: i64,
    pub aborted: bool,
    pub handled: Ghost<nat>,
}

impl RenderClock {
    /// The time of the next frame is the start time plus one frame duration
    /// per frame handled so far.
    pub open spec fn wf(&self) -> bool {
        self.current_time == self.start_time + self.handled@ * self.ticks_per_frame
    }

    /// A loop that starts at `start` and renders frames of `ticks_per_frame`
    /// ticks while their time lies before `end`.
    pub fn new(start: i64, end: i64, ticks_per_frame: i64) -> (r: Self)
        ensures
            r.wf(),
            r.start_time == start,
            r.current_time == start,
            r.end_time == end,
            r.ticks_per_frame == ticks_per_frame,
            !r.aborted,
            r.handled@ == 0,
    {
        let r = RenderClock {
            start_time: start,
            current_time: start,
            end_time: end,
            ticks_per_frame,
            aborted: false,
            handled: Ghost(0),
        };
        assert(r.handled@ * ticks_per_frame == 0) by (nonlinear_arith)
            requires
                r.handled@ == 0,
        ;
        r
    }

    /// The next step: the frame at the current time while that time lies
    /// before the end and the user has not cancelled, otherwise the end of the
    /// loop, reporting whether the user cancelled.
    pub fn next(&self) -> (r: RenderStep)
        ensures
            r == (if !self.aborted && self.current_time < self.end_time {
                RenderStep::RenderAt(self.current_time)
            } else {
                RenderStep::Finish { aborted: self.aborted }
            }),
    {
        if !self.aborted && self.current_time < self.end_time {
            RenderStep::RenderAt(self.current_time)
        } else {
            RenderStep::Finish { aborted: self.aborted }
        }
    }

    /// Takes note that the frame at the current time was handled, and whether
    /// the host reported that the user cancelled while it was. Without a
    /// cancellation the time moves on by one frame duration; with one it stays
    /// and the loop ends.
    pub fn frame_done(&mut self, cancelled: bool)
        requires
            old(self).wf(),
            !cancelled ==> i64::MIN <= old(self).current_time + old(self).ticks_per_frame
                <= i64::MAX,
        ensures
            final(self).start_time == old(self).start_time,
            final(self).end_time == old(self).end_time,
            final(self).ticks_per_frame == old(self).ticks_per_frame,
            final(self).aborted == cancelled,
            cancelled ==> final(self).current_time == old(self).current_time,
            !cancelled ==> {
                &&& final(self).wf()
                &&& final(self).handled@ == old(self).handled@ + 1
                &&& final(self).current_time == old(self).current_time + old(self).ticks_per_frame
            },
    {
        self.aborted = cancelled;
        if !cancelled {
            let ghost h = self.handled@;
            self.current_time = self.current_time + self.ticks_per_frame;
            self.handled = Ghost(h + 1);
            assert((h + 1) * self.ticks_per_frame == h * self.ticks_per_frame + self.ticks_per_frame)
                by (nonlinear_arith);
        }
    }
}

} // verus!
