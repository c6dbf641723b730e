use crate::export_settings::{container_extension_of, FILE_TYPE_AV1, FILE_TYPE_VP8, FILE_TYPE_VP9};
use crate::params::{
    aspect_and_format_layout, audio_layout, av1_layout, av1_names, codec_layout, codec_names,
    default_layout, encoder_layout, encoder_tuning_layout, frame_rate_layout, frame_size_layout,
    general_names, post_process_layout, tuning_names, vp8_layout, vp8_names, vp9_layout, vp9_names,
    ParamOp, ParamValue,
};
use vstd::prelude::*;

verus! {

/// `name` ends with the extension `ext` written as in "MPEG-4 (.mp4)".
pub open spec fn name_ends_with_extension(name: Seq<char>, ext: Seq<char>) -> bool {
    let tail = seq!['(', '.'] + ext + seq![')'];
    name.len() >= tail.len() && name.subrange(name.len() - tail.len(), name.len() as int) == tail
}

/// When `op` offers a choice of the container parameter, the choice is an
/// integer whose file extension (for exports of `file_type`) is the one its
/// name shows.
pub open spec fn container_choice_named_right(op: ParamOp, file_type: u32) -> bool {
    match op {
        ParamOp::AddItem { param, value, name } => param@ == "ADBEVideoContainer"@ ==> match value {
            ParamValue::Int(v) => name_ends_with_extension(name@, container_extension_of(v, file_type)),
            _ => false,
        },
        _ => true,
    }
}

/// Every container choice in `ops` is named after the extension it gives.
pub open spec fn container_choices_named_right(ops: Seq<ParamOp>, file_type: u32) -> bool {
    forall|k: int| 0 <= k < ops.len() ==> #[trigger] container_choice_named_right(ops[k], file_type)
}

proof fn lemma_containers_concat(a: Seq<ParamOp>, b: Seq<ParamOp>, file_type: u32)
    requires
        container_choices_named_right(a, file_type),
        container_choices_named_right(b, file_type),
    ensures
        container_choices_named_right(a + b, file_type),
{
    let c = a + b;
    assert forall|k: int| 0 <= k < c.len() implies #[trigger] container_choice_named_right(
        c[k],
        file_type,
    ) by {
        if k < a.len() {
            assert(c[k] == a[k]);
        } else {
            assert(c[k] == b[k - a.len()]);
        }
    }
}

/// The group or parameter `op` declares, with the display name it declares it
/// under.
pub open spec fn declared_name_of(op: ParamOp) -> Option<(&'static str, &'static str)> {
    match op {
        ParamOp::AddGroup { id, name, .. } => Some((id, name)),
        ParamOp::AddParam { id, name, .. } => Some((id, name)),
        _ => None,
    }
}

/// `ops` declares the group or parameter `id` under the display name `name`.
pub open spec fn declares_named(ops: Seq<ParamOp>, id: &'static str, name: &'static str) -> bool {
    exists|k: int| 0 <= k < ops.len() && #[trigger] declared_name_of(ops[k]) == Some((id, name))
}

/// A renaming `op` gives a group or parameter the display name under which
/// `defaults` declared it; the host's top group (which the defaults do not
/// declare) and the two bit rate parameters (named after the rate control) are
/// the exceptions.
pub open spec fn keeps_declared_name(op: ParamOp, defaults: Seq<ParamOp>) -> bool {
    match op {
        ParamOp::SetName { id, name } => id == "ADBETopParamGroup" || id == "ADBEVideoTargetBitrate"
            || id == "ADBEVideoMaxBitrate" || declares_named(defaults, id, name),
        _ => true,
    }
}

/// Every renaming in `ops` keeps the names `defaults` declared.
pub open spec fn keeps_declared_names(ops: Seq<ParamOp>, defaults: Seq<ParamOp>) -> bool {
    forall|j: int| 0 <= j < ops.len() ==> #[trigger] keeps_declared_name(ops[j], defaults)
}

proof fn lemma_keeps_concat(a: Seq<ParamOp>, b: Seq<ParamOp>, defaults: Seq<ParamOp>)
    requires
        keeps_declared_names(a, defaults),
        keeps_declared_names(b, defaults),
    ensures
        keeps_declared_names(a + b, defaults),
{
    let c = a + b;
    assert forall|j: int| 0 <= j < c.len() implies #[trigger] keeps_declared_name(c[j], defaults) by {
        if j < a.len() {
            assert(c[j] == a[j]);
        } else {
            assert(c[j] == b[j - a.len()]);
        }
    }
}

/// A declaration in either part of a list is a declaration in the list.
proof fn lemma_declares_concat(a: Seq<ParamOp>, b: Seq<ParamOp>)
    ensures
        forall|id: &'static str, name: &'static str|
            declares_named(a, id, name) ==> #[trigger] declares_named(a + b, id, name),
        forall|id: &'static str, name: &'static str|
            declares_named(b, id, name) ==> #[trigger] declares_named(a + b, id, name),
{
    let c = a + b;
    assert forall|id: &'static str, name: &'static str|
        declares_named(a, id, name) implies #[trigger] declares_named(c, id, name) by {
        let k = choose|k: int| 0 <= k < a.len() && #[trigger] declared_name_of(a[k]) == Some((id, name));
        assert(c[k] == a[k]);
    }
    assert forall|id: &'static str, name: &'static str|
        declares_named(b, id, name) implies #[trigger] declares_named(c, id, name) by {
        let k = choose|k: int| 0 <= k < b.len() && #[trigger] declared_name_of(b[k]) == Some((id, name));
        assert(c[a.len() + k] == b[k]);
    }
}

/// Every container choice of `frame_size_layout` is named after the extension its value gives.
#[verifier::spinoff_prover]
proof fn lemma_frame_size_containers(width: i32, height: i32, file_type: u32)
    ensures
        container_choices_named_right(frame_size_layout(width, height), file_type),
{
    reveal_strlit("ADBEVideoContainer");
    reveal_strlit("ADBEVideoHeight");
    reveal_strlit("ADBEVideoWidth");
    assert("ADBEVideoHeight"@ != "ADBEVideoContainer"@) by {
        if "ADBEVideoHeight"@.len() == "ADBEVideoContainer"@.len() {
        }
    }
    assert("ADBEVideoWidth"@ != "ADBEVideoContainer"@) by {
        if "ADBEVideoWidth"@.len() == "ADBEVideoContainer"@.len() {
        }
    }
    let s = frame_size_layout(width, height);
    assert forall|k: int| 0 <= k < s.len() implies #[trigger] container_choice_named_right(s[k], file_type) by {
        if k == 0 {
        } else if k == 1 {
        } else if k == 2 {
        } else if k == 3 {
        } else if k == 4 {
        } else if k == 5 {
        } else if k == 6 {
        } else if k == 7 {
        } else if k == 8 {
        } else if k == 9 {
        } else if k == 10 {
        } else if k == 11 {
        } else if k == 12 {
        } else if k == 13 {
        } else if k == 14 {
        } else if k == 15 {
        } else if k == 16 {
        } else if k == 17 {
        }
    }
}

/// Every container choice of `frame_rate_layout` is named after the extension its value gives.
#[verifier::spinoff_prover]
proof fn lemma_frame_rate_containers(frame_ticks: i64, file_type: u32)
    ensures
        container_choices_named_right(frame_rate_layout(frame_ticks), file_type),
{
    reveal_strlit("ADBEVideoContainer");
    reveal_strlit("ADBEVideoFPS");
    assert("ADBEVideoFPS"@ != "ADBEVideoContainer"@) by {
        if "ADBEVideoFPS"@.len() == "ADBEVideoContainer"@.len() {
        }
    }
    let s = frame_rate_layout(frame_ticks);
    assert forall|k: int| 0 <= k < s.len() implies #[trigger] container_choice_named_right(s[k], file_type) by {
        if k == 0 {
        } else if k == 1 {
        } else if k == 2 {
        } else if k == 3 {
        } else if k == 4 {
        } else if k == 5 {
        } else if k == 6 {
        } else if k == 7 {
        } else if k == 8 {
        } else if k == 9 {
        } else if k == 10 {
        } else if k == 11 {
        } else if k == 12 {
        } else if k == 13 {
        } else if k == 14 {
        } else if k == 15 {
        } else if k == 16 {
        }
    }
}

/// Every container choice of `aspect_and_format_layout` is named after the extension its value gives.
#[verifier::spinoff_prover]
proof fn lemma_aspect_and_format_containers(file_type: u32)
    ensures
        container_choices_named_right(aspect_and_format_layout(), file_type),
{
    reveal_strlit("ADBEVideoContainer");
    reveal_strlit("ADBEVideoAspect");
    reveal_strlit("ADBEVideoFieldType");
    reveal_strlit("NukeVideoColorSpace");
    reveal_strlit("mkv");
    reveal_strlit("mp4");
    reveal_strlit("mov");
    reveal_strlit("webm");
    reveal_strlit("Matroska Video (.mkv)");
    reveal_strlit("MPEG-4 (.mp4)");
    reveal_strlit("Hybrid MP4 (.mp4)");
    reveal_strlit("Fragmented MP4 (.mp4)");
    reveal_strlit("QuickTime (.mov)");
    reveal_strlit("Hybrid MOV (.mov)");
    reveal_strlit("Fragmented MOV (.mov)");
    assert("ADBEVideoAspect"@ != "ADBEVideoContainer"@) by {
        if "ADBEVideoAspect"@.len() == "ADBEVideoContainer"@.len() {
        }
    }
    assert("ADBEVideoFieldType"@ != "ADBEVideoContainer"@) by {
        if "ADBEVideoFieldType"@.len() == "ADBEVideoContainer"@.len() {
            assert("ADBEVideoFieldType"@[9] != "ADBEVideoContainer"@[9]);
        }
    }
    assert("NukeVideoColorSpace"@ != "ADBEVideoContainer"@) by {
        if "NukeVideoColorSpace"@.len() == "ADBEVideoContainer"@.len() {
        }
    }
    let s = aspect_and_format_layout();
    assert forall|k: int| 0 <= k < s.len() implies #[trigger] container_choice_named_right(s[k], file_type) by {
        if k == 0 {
        } else if k == 1 {
        } else if k == 2 {
        } else if k == 3 {
        } else if k == 4 {
        } else if k == 5 {
        } else if k == 6 {
        } else if k == 7 {
        } else if k == 8 {
        } else if k == 9 {
        } else if k == 10 {
        } else if k == 11 {
        } else if k == 12 {
        } else if k == 13 {
            assert(container_extension_of(0i32, file_type) == "mkv"@);
            assert("Matroska Video (.mkv)"@.subrange("Matroska Video (.mkv)"@.len() - 6, "Matroska Video (.mkv)"@.len() as int) =~= seq!['(', '.'] + "mkv"@ + seq![')']);
        } else if k == 14 {
            assert(container_extension_of(1i32, file_type) == "mp4"@);
            assert("MPEG-4 (.mp4)"@.subrange("MPEG-4 (.mp4)"@.len() - 6, "MPEG-4 (.mp4)"@.len() as int) =~= seq!['(', '.'] + "mp4"@ + seq![')']);
        } else if k == 15 {
            assert(container_extension_of(2i32, file_type) == "mp4"@);
            assert("Hybrid MP4 (.mp4)"@.subrange("Hybrid MP4 (.mp4)"@.len() - 6, "Hybrid MP4 (.mp4)"@.len() as int) =~= seq!['(', '.'] + "mp4"@ + seq![')']);
        } else if k == 16 {
            assert(container_extension_of(3i32, file_type) == "mp4"@);
            assert("Fragmented MP4 (.mp4)"@.subrange("Fragmented MP4 (.mp4)"@.len() - 6, "Fragmented MP4 (.mp4)"@.len() as int) =~= seq!['(', '.'] + "mp4"@ + seq![')']);
        } else if k == 17 {
            assert(container_extension_of(4i32, file_type) == "mov"@);
            assert("QuickTime (.mov)"@.subrange("QuickTime (.mov)"@.len() - 6, "QuickTime (.mov)"@.len() as int) =~= seq!['(', '.'] + "mov"@ + seq![')']);
        } else if k == 18 {
            assert(container_extension_of(5i32, file_type) == "mov"@);
            assert("Hybrid MOV (.mov)"@.subrange("Hybrid MOV (.mov)"@.len() - 6, "Hybrid MOV (.mov)"@.len() as int) =~= seq!['(', '.'] + "mov"@ + seq![')']);
        } else if k == 19 {
            assert(container_extension_of(6i32, file_type) == "mov"@);
            assert("Fragmented MOV (.mov)"@.subrange("Fragmented MOV (.mov)"@.len() - 6, "Fragmented MOV (.mov)"@.len() as int) =~= seq!['(', '.'] + "mov"@ + seq![')']);
        } else if k == 20 {
        } else if k == 21 {
        } else if k == 22 {
        } else if k == 23 {
        }
    }
}

/// Every container choice of `audio_layout` is named after the extension its value gives.
#[verifier::spinoff_prover]
proof fn lemma_audio_containers(file_type: u32)
    ensures
        container_choices_named_right(audio_layout(), file_type),
{
    reveal_strlit("ADBEVideoContainer");
    reveal_strlit("ADBEAudioBitrate");
    reveal_strlit("ADBEAudioNumChannels");
    reveal_strlit("ADBEAudioRatePerSecond");
    assert("ADBEAudioBitrate"@ != "ADBEVideoContainer"@) by {
        if "ADBEAudioBitrate"@.len() == "ADBEVideoContainer"@.len() {
        }
    }
    assert("ADBEAudioNumChannels"@ != "ADBEVideoContainer"@) by {
        if "ADBEAudioNumChannels"@.len() == "ADBEVideoContainer"@.len() {
        }
    }
    assert("ADBEAudioRatePerSecond"@ != "ADBEVideoContainer"@) by {
        if "ADBEAudioRatePerSecond"@.len() == "ADBEVideoContainer"@.len() {
        }
    }
    let s = audio_layout();
    assert forall|k: int| 0 <= k < s.len() implies #[trigger] container_choice_named_right(s[k], file_type) by {
        if k == 0 {
        } else if k == 1 {
        } else if k == 2 {
        } else if k == 3 {
        } else if k == 4 {
        } else if k == 5 {
        } else if k == 6 {
        } else if k == 7 {
        } else if k == 8 {
        } else if k == 9 {
        } else if k == 10 {
        } else if k == 11 {
        } else if k == 12 {
        } else if k == 13 {
        } else if k == 14 {
        } else if k == 15 {
        } else if k == 16 {
        } else if k == 17 {
        } else if k == 18 {
        }
    }
}

/// Every container choice of `encoder_layout` is named after the extension its value gives.
#[verifier::spinoff_prover]
proof fn lemma_encoder_containers(file_type: u32)
    ensures
        container_choices_named_right(encoder_layout(), file_type),
{
    reveal_strlit("ADBEVideoContainer");
    reveal_strlit("ADBEVideoBitrateEncoding");
    reveal_strlit("NukePreset");
    assert("ADBEVideoBitrateEncoding"@ != "ADBEVideoContainer"@) by {
        if "ADBEVideoBitrateEncoding"@.len() == "ADBEVideoContainer"@.len() {
        }
    }
    assert("NukePreset"@ != "ADBEVideoContainer"@) by {
        if "NukePreset"@.len() == "ADBEVideoContainer"@.len() {
        }
    }
    let s = encoder_layout();
    assert forall|k: int| 0 <= k < s.len() implies #[trigger] container_choice_named_right(s[k], file_type) by {
        if k == 0 {
        } else if k == 1 {
        } else if k == 2 {
        } else if k == 3 {
        } else if k == 4 {
        } else if k == 5 {
        } else if k == 6 {
        } else if k == 7 {
        } else if k == 8 {
        } else if k == 9 {
        } else if k == 10 {
        } else if k == 11 {
        } else if k == 12 {
        } else if k == 13 {
        } else if k == 14 {
        } else if k == 15 {
        }
    }
}

/// Every container choice of `encoder_tuning_layout` is named after the extension its value gives.
#[verifier::spinoff_prover]
proof fn lemma_encoder_tuning_containers(file_type: u32)
    ensures
        container_choices_named_right(encoder_tuning_layout(), file_type),
{
    reveal_strlit("ADBEVideoContainer");
    reveal_strlit("NukeBFrameRef");
    reveal_strlit("NukeMultipass");
    reveal_strlit("NukeTuning");
    assert("NukeBFrameRef"@ != "ADBEVideoContainer"@) by {
        if "NukeBFrameRef"@.len() == "ADBEVideoContainer"@.len() {
        }
    }
    assert("NukeMultipass"@ != "ADBEVideoContainer"@) by {
        if "NukeMultipass"@.len() == "ADBEVideoContainer"@.len() {
        }
    }
    assert("NukeTuning"@ != "ADBEVideoContainer"@) by {
        if "NukeTuning"@.len() == "ADBEVideoContainer"@.len() {
        }
    }
    let s = encoder_tuning_layout();
    assert forall|k: int| 0 <= k < s.len() implies #[trigger] container_choice_named_right(s[k], file_type) by {
        if k == 0 {
        } else if k == 1 {
        } else if k == 2 {
        } else if k == 3 {
        } else if k == 4 {
        } else if k == 5 {
        } else if k == 6 {
        } else if k == 7 {
        } else if k == 8 {
        } else if k == 9 {
        } else if k == 10 {
        } else if k == 11 {
        } else if k == 12 {
        } else if k == 13 {
        } else if k == 14 {
        }
    }
}

/// Every container choice of `av1_layout` is named after the extension its value gives.
#[verifier::spinoff_prover]
proof fn lemma_av1_containers(file_type: u32)
    ensures
        container_choices_named_right(av1_layout(), file_type),
{
    reveal_strlit("ADBEVideoContainer");
    reveal_strlit("NukeAV1Encoder");
    reveal_strlit("NukeAV1Level");
    reveal_strlit("NukeAV1Profile");
    reveal_strlit("NukeAV1Tier");
    assert("NukeAV1Encoder"@ != "ADBEVideoContainer"@) by {
        if "NukeAV1Encoder"@.len() == "ADBEVideoContainer"@.len() {
        }
    }
    assert("NukeAV1Level"@ != "ADBEVideoContainer"@) by {
        if "NukeAV1Level"@.len() == "ADBEVideoContainer"@.len() {
        }
    }
    assert("NukeAV1Profile"@ != "ADBEVideoContainer"@) by {
        if "NukeAV1Profile"@.len() == "ADBEVideoContainer"@.len() {
        }
    }
    assert("NukeAV1Tier"@ != "ADBEVideoContainer"@) by {
        if "NukeAV1Tier"@.len() == "ADBEVideoContainer"@.len() {
        }
    }
    let s = av1_layout();
    assert forall|k: int| 0 <= k < s.len() implies #[trigger] container_choice_named_right(s[k], file_type) by {
        if k == 0 {
        } else if k == 1 {
        } else if k == 2 {
        } else if k == 3 {
        } else if k == 4 {
        } else if k == 5 {
        } else if k == 6 {
        } else if k == 7 {
        } else if k == 8 {
        } else if k == 9 {
        } else if k == 10 {
        } else if k == 11 {
        } else if k == 12 {
        } else if k == 13 {
        } else if k == 14 {
        } else if k == 15 {
        } else if k == 16 {
        } else if k == 17 {
        } else if k == 18 {
        } else if k == 19 {
        } else if k == 20 {
        }
    }
}

/// Every container choice of `vp8_layout` is named after the extension its value gives.
#[verifier::spinoff_prover]
proof fn lemma_vp8_containers(file_type: u32)
    ensures
        container_choices_named_right(vp8_layout(), file_type),
{
    reveal_strlit("ADBEVideoContainer");
    let s = vp8_layout();
    assert forall|k: int| 0 <= k < s.len() implies #[trigger] container_choice_named_right(s[k], file_type) by {
        if k == 0 {
        } else if k == 1 {
        } else if k == 2 {
        }
    }
}

/// Every container choice of `vp9_layout` is named after the extension its value gives.
#[verifier::spinoff_prover]
proof fn lemma_vp9_containers(file_type: u32)
    ensures
        container_choices_named_right(vp9_layout(), file_type),
{
    reveal_strlit("ADBEVideoContainer");
    reveal_strlit("NukeVP9Profile");
    assert("NukeVP9Profile"@ != "ADBEVideoContainer"@) by {
        if "NukeVP9Profile"@.len() == "ADBEVideoContainer"@.len() {
        }
    }
    let s = vp9_layout();
    assert forall|k: int| 0 <= k < s.len() implies #[trigger] container_choice_named_right(s[k], file_type) by {
        if k == 0 {
        } else if k == 1 {
        } else if k == 2 {
        } else if k == 3 {
        } else if k == 4 {
        } else if k == 5 {
        } else if k == 6 {
        } else if k == 7 {
        }
    }
}

#[verifier::spinoff_prover]
proof fn lemma_general_names_kept(file_type: u32, width: i32, height: i32, frame_ticks: i64)
    ensures
        keeps_declared_names(general_names(), default_layout(file_type, width, height, frame_ticks)),
{
    lemma_default_declares(file_type, width, height, frame_ticks);
    let d = default_layout(file_type, width, height, frame_ticks);
    let s = general_names();
    assert forall|j: int| 0 <= j < s.len() implies #[trigger] keeps_declared_name(s[j], d) by {
        if j == 0 {
        } else if j == 1 {
            assert(declared_name_of(frame_size_layout(width, height)[0]) == Some(("ADBEVideoTabGroup", "Video")));
        } else if j == 2 {
            assert(declared_name_of(frame_size_layout(width, height)[1]) == Some(("ADBEBasicVideoGroup", "Basic Video Settings")));
        } else if j == 3 {
            assert(declared_name_of(frame_size_layout(width, height)[2]) == Some(("ADBEVideoWidth", "Frame Width")));
        } else if j == 4 {
            assert(declared_name_of(frame_size_layout(width, height)[11]) == Some(("ADBEVideoHeight", "Frame Height")));
        } else if j == 5 {
            assert(declared_name_of(frame_rate_layout(frame_ticks)[0]) == Some(("ADBEVideoFPS", "Frame Rate")));
        } else if j == 6 {
            assert(declared_name_of(aspect_and_format_layout()[0]) == Some(("ADBEVideoAspect", "Pixel Aspect Ratio")));
        } else if j == 7 {
            assert(declared_name_of(aspect_and_format_layout()[10]) == Some(("ADBEVideoFieldType", "Field Order")));
        } else if j == 8 {
            assert(declared_name_of(aspect_and_format_layout()[12]) == Some(("ADBEVideoContainer", "File Extension")));
        } else if j == 9 {
            assert(declared_name_of(aspect_and_format_layout()[20]) == Some(("NukeVideoColorSpace", "Color Space & Bit Depth")));
        } else if j == 10 {
            assert(declared_name_of(audio_layout()[0]) == Some(("ADBEAudioTabGroup", "Audio")));
        } else if j == 11 {
            assert(declared_name_of(audio_layout()[1]) == Some(("ADBEBasicAudioGroup", "Basic Audio Settings")));
        } else if j == 12 {
            assert(declared_name_of(audio_layout()[2]) == Some(("ADBEAudioRatePerSecond", "Sample Rate")));
        } else if j == 13 {
            assert(declared_name_of(audio_layout()[8]) == Some(("ADBEAudioNumChannels", "Channels")));
        } else if j == 14 {
            assert(declared_name_of(audio_layout()[12]) == Some(("ADBEAudioBitrate", "Audio Bitrate")));
        } else if j == 15 {
            assert(declared_name_of(encoder_layout()[0]) == Some(("NukeBitrateGroup", "Encoder Settings")));
        } else if j == 16 {
            assert(declared_name_of(encoder_layout()[1]) == Some(("ADBEVideoBitrateEncoding", "Rate Control")));
        }
    }
}

#[verifier::spinoff_prover]
proof fn lemma_tuning_names_kept(file_type: u32, width: i32, height: i32, frame_ticks: i64)
    ensures
        keeps_declared_names(tuning_names(), default_layout(file_type, width, height, frame_ticks)),
{
    lemma_default_declares(file_type, width, height, frame_ticks);
    let d = default_layout(file_type, width, height, frame_ticks);
    let s = tuning_names();
    assert forall|j: int| 0 <= j < s.len() implies #[trigger] keeps_declared_name(s[j], d) by {
        if j == 0 {
            assert(declared_name_of(encoder_layout()[8]) == Some(("NukePreset", "Preset")));
        } else if j == 1 {
            assert(declared_name_of(encoder_tuning_layout()[0]) == Some(("NukeTuning", "Tuning")));
        } else if j == 2 {
            assert(declared_name_of(encoder_tuning_layout()[4]) == Some(("NukeMultipass", "Multipass Mode")));
        } else if j == 3 {
            assert(declared_name_of(encoder_tuning_layout()[8]) == Some(("NukeLookAhead", "Look-ahead")));
        } else if j == 4 {
            assert(declared_name_of(encoder_tuning_layout()[9]) == Some(("NukeAdaptiveQuant", "Adaptive Quantisation")));
        } else if j == 5 {
            assert(declared_name_of(encoder_tuning_layout()[10]) == Some(("NukeBFrames", "B-Frames")));
        } else if j == 6 {
            assert(declared_name_of(encoder_tuning_layout()[11]) == Some(("NukeBFrameRef", "B-Frame as Reference")));
        }
    }
}

#[verifier::spinoff_prover]
proof fn lemma_av1_names_kept(file_type: u32, width: i32, height: i32, frame_ticks: i64)
    requires
        file_type == FILE_TYPE_AV1,
    ensures
        keeps_declared_names(av1_names(), default_layout(file_type, width, height, frame_ticks)),
{
    lemma_default_declares(file_type, width, height, frame_ticks);
    let d = default_layout(file_type, width, height, frame_ticks);
    let s = av1_names();
    assert forall|j: int| 0 <= j < s.len() implies #[trigger] keeps_declared_name(s[j], d) by {
        if j == 0 {
            assert(declared_name_of(av1_layout()[0]) == Some(("NukeAV1EncodingGroup", "Encoding Settings")));
        } else if j == 1 {
            assert(declared_name_of(av1_layout()[1]) == Some(("NukeAV1Encoder", "Performance")));
        } else if j == 2 {
            assert(declared_name_of(av1_layout()[7]) == Some(("NukeAV1Profile", "Profile")));
        } else if j == 3 {
            assert(declared_name_of(av1_layout()[11]) == Some(("NukeAV1Level", "Level")));
        } else if j == 4 {
            assert(declared_name_of(av1_layout()[16]) == Some(("NukeAV1Tier", "Tier")));
        } else if j == 5 {
            assert(declared_name_of(av1_layout()[19]) == Some(("NukeAdvancedGroup", "Advanced Settings")));
        } else if j == 6 {
            assert(declared_name_of(av1_layout()[20]) == Some(("NukeAV1KeyFrame", "Key Frame Distance")));
        }
    }
}

#[verifier::spinoff_prover]
proof fn lemma_vp8_names_kept(file_type: u32, width: i32, height: i32, frame_ticks: i64)
    requires
        file_type == FILE_TYPE_VP8,
    ensures
        keeps_declared_names(vp8_names(), default_layout(file_type, width, height, frame_ticks)),
{
    lemma_default_declares(file_type, width, height, frame_ticks);
    let d = default_layout(file_type, width, height, frame_ticks);
    let s = vp8_names();
    assert forall|j: int| 0 <= j < s.len() implies #[trigger] keeps_declared_name(s[j], d) by {
        if j == 0 {
            assert(declared_name_of(vp8_layout()[0]) == Some(("NukeVP8EncodingGroup", "Encoding Settings")));
        } else if j == 1 {
            assert(declared_name_of(vp8_layout()[1]) == Some(("NukeAdvancedGroup", "Advanced Settings")));
        } else if j == 2 {
            assert(declared_name_of(vp8_layout()[2]) == Some(("NukeVP8KeyFrame", "Key Frame Distance")));
        }
    }
}

#[verifier::spinoff_prover]
proof fn lemma_vp9_names_kept(file_type: u32, width: i32, height: i32, frame_ticks: i64)
    requires
        file_type == FILE_TYPE_VP9,
    ensures
        keeps_declared_names(vp9_names(), default_layout(file_type, width, height, frame_ticks)),
{
    lemma_default_declares(file_type, width, height, frame_ticks);
    let d = default_layout(file_type, width, height, frame_ticks);
    let s = vp9_names();
    assert forall|j: int| 0 <= j < s.len() implies #[trigger] keeps_declared_name(s[j], d) by {
        if j == 0 {
            assert(declared_name_of(vp9_layout()[0]) == Some(("NukeVP9EncodingGroup", "Encoding Settings")));
        } else if j == 1 {
            assert(declared_name_of(vp9_layout()[1]) == Some(("NukeVP9Profile", "Profile")));
        } else if j == 2 {
            assert(declared_name_of(vp9_layout()[6]) == Some(("NukeAdvancedGroup", "Advanced Settings")));
        } else if j == 3 {
            assert(declared_name_of(vp9_layout()[7]) == Some(("NukeVP9KeyFrame", "Key Frame Distance")));
        }
    }
}
/// Whatever the default parameter set's sections declare, the whole set
/// declares.
proof fn lemma_default_declares(file_type: u32, width: i32, height: i32, frame_ticks: i64)
    ensures
        forall|id: &'static str, name: &'static str|
            (declares_named(frame_size_layout(width, height), id, name) || declares_named(
                frame_rate_layout(frame_ticks),
                id,
                name,
            ) || declares_named(aspect_and_format_layout(), id, name) || declares_named(
                audio_layout(),
                id,
                name,
            ) || declares_named(encoder_layout(), id, name) || declares_named(
                encoder_tuning_layout(),
                id,
                name,
            ) || declares_named(codec_layout(file_type), id, name)) ==> #[trigger] declares_named(
                default_layout(file_type, width, height, frame_ticks),
                id,
                name,
            ),
{
    let s1 = frame_size_layout(width, height);
    let s2 = s1 + frame_rate_layout(frame_ticks);
    let s3 = s2 + aspect_and_format_layout();
    let s4 = s3 + audio_layout();
    let s5 = s4 + encoder_layout();
    let s6 = s5 + encoder_tuning_layout();
    let s7 = s6 + codec_layout(file_type);
    let last = seq![ParamOp::SetVersion(1)];
    lemma_declares_concat(s1, frame_rate_layout(frame_ticks));
    lemma_declares_concat(s2, aspect_and_format_layout());
    lemma_declares_concat(s3, audio_layout());
    lemma_declares_concat(s4, encoder_layout());
    lemma_declares_concat(s5, encoder_tuning_layout());
    lemma_declares_concat(s6, codec_layout(file_type));
    lemma_declares_concat(s7, last);
    assert(default_layout(file_type, width, height, frame_ticks) =~= s7 + last);
}

/// Refreshing the parameter interface after a change keeps every group's and
/// parameter's own display name: each name given is the one under which the
/// default parameter set (of the same file type, for any sequence) declared
/// that group or parameter. Only the two bit rate parameters take names that
/// follow the rate control, and the host's top group is named "Video".
pub proof fn law_renaming_keeps_declared_names(
    file_type: u32,
    width: i32,
    height: i32,
    frame_ticks: i64,
    target: &'static str,
    max: &'static str,
    hide_max: bool,
)
    ensures
        keeps_declared_names(
            post_process_layout(file_type, target, max, hide_max),
            default_layout(file_type, width, height, frame_ticks),
        ),
{
    let d = default_layout(file_type, width, height, frame_ticks);
    lemma_general_names_kept(file_type, width, height, frame_ticks);
    lemma_tuning_names_kept(file_type, width, height, frame_ticks);
    let rates = seq![
        ParamOp::SetName { id: "ADBEVideoTargetBitrate", name: target },
        ParamOp::SetName { id: "ADBEVideoMaxBitrate", name: max },
        ParamOp::SetHidden { id: "ADBEVideoMaxBitrate", hidden: hide_max },
    ];
    assert(keeps_declared_names(rates, d)) by {
        assert forall|j: int| 0 <= j < rates.len() implies #[trigger] keeps_declared_name(rates[j], d) by {
        }
    }
    let codec = codec_names(file_type);
    if file_type == FILE_TYPE_AV1 {
        lemma_av1_names_kept(file_type, width, height, frame_ticks);
    } else if file_type == FILE_TYPE_VP8 {
        lemma_vp8_names_kept(file_type, width, height, frame_ticks);
    } else if file_type == FILE_TYPE_VP9 {
        lemma_vp9_names_kept(file_type, width, height, frame_ticks);
    } else {
        assert(keeps_declared_names(codec, d)) by {
            assert(codec =~= Seq::<ParamOp>::empty());
        }
    }
    lemma_keeps_concat(general_names(), rates, d);
    lemma_keeps_concat(general_names() + rates, tuning_names(), d);
    lemma_keeps_concat(general_names() + rates + tuning_names(), codec, d);
}

/// Every choice the default parameter set offers for the file extension
/// (container) parameter gives exports the extension that its name shows:
/// the ".mkv" choice gives .mkv files, the ".mp4" choices .mp4 files and the
/// ".mov" choices .mov files, whatever the file type and the sequence.
pub proof fn law_container_choices_match_extensions(
    file_type: u32,
    width: i32,
    height: i32,
    frame_ticks: i64,
)
    ensures
        container_choices_named_right(
            default_layout(file_type, width, height, frame_ticks),
            file_type,
        ),
{
    lemma_frame_size_containers(width, height, file_type);
    lemma_frame_rate_containers(frame_ticks, file_type);
    lemma_aspect_and_format_containers(file_type);
    lemma_audio_containers(file_type);
    lemma_encoder_containers(file_type);
    lemma_encoder_tuning_containers(file_type);
    let s1 = frame_size_layout(width, height);
    lemma_containers_concat(s1, frame_rate_layout(frame_ticks), file_type);
    let s2 = s1 + frame_rate_layout(frame_ticks);
    lemma_containers_concat(s2, aspect_and_format_layout(), file_type);
    let s3 = s2 + aspect_and_format_layout();
    lemma_containers_concat(s3, audio_layout(), file_type);
    let s4 = s3 + audio_layout();
    lemma_containers_concat(s4, encoder_layout(), file_type);
    let s5 = s4 + encoder_layout();
    lemma_containers_concat(s5, encoder_tuning_layout(), file_type);
    let s6 = s5 + encoder_tuning_layout();
    let codec = codec_layout(file_type);
    if file_type == FILE_TYPE_AV1 {
        lemma_av1_containers(file_type);
    } else if file_type == FILE_TYPE_VP8 {
        lemma_vp8_containers(file_type);
    } else if file_type == FILE_TYPE_VP9 {
        lemma_vp9_containers(file_type);
    } else {
        assert(container_choices_named_right(codec, file_type)) by {
            assert(codec =~= Seq::<ParamOp>::empty());
        }
    }
    lemma_containers_concat(s6, codec, file_type);
    let last = seq![ParamOp::SetVersion(1)];
    assert(container_choices_named_right(last, file_type)) by {
        assert forall|k: int| 0 <= k < last.len() implies #[trigger] container_choice_named_right(
            last[k],
            file_type,
        ) by {
            assert(last[k] == ParamOp::SetVersion(1));
        }
    }
    lemma_containers_concat(s6 + codec, last, file_type);
    assert(default_layout(file_type, width, height, frame_ticks) =~= s6 + codec + last);
}

} // verus!
