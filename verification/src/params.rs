use crate::export_settings::{FILE_TYPE_AV1, FILE_TYPE_VP8, FILE_TYPE_VP9};
use vstd::prelude::*;

verus! {

/// The value of an export parameter. Floating-point values are given in
/// thousandths.
#[derive(Clone, Copy, Debug, PartialEq, Eq)]
pub enum ParamValue {
    Int(i32),
    Time(i64),
    Ratio(i32, i32),
    Float(i64),
    Bool(bool),
}

/// One declaration made to the host's export parameter interface.
#[derive(Clone, Copy, Debug, PartialEq, Eq)]
pub enum ParamOp {
    /// A group `id` named `name` inside group `parent`.
    AddGroup { parent: &'static str, id: &'static str, name: &'static str },
    /// A parameter `id` named `name` inside group `parent`, with its default
    /// value and, for ranged parameters, its least and greatest values.
    AddParam {
        parent: &'static str,
        id: &'static str,
        name: &'static str,
        value: ParamValue,
        range: Option<(ParamValue, ParamValue)>,
    },
    /// A choice `name` with value `value` for parameter `param`.
    AddItem { param: &'static str, value: ParamValue, name: &'static str },
    /// A new display name for the group or parameter `id`.
    SetName { id: &'static str, name: &'static str },
    /// Hides the parameter `id` from the user (`hidden`) or shows it again.
    SetHidden { id: &'static str, hidden: bool },
    /// The version of the parameter set.
    SetVersion(i32),
}

/// Collects the declarations of an exporter's parameters, in order, for the
/// parameter group `group_index` of the exporter `plugin_id`.
pub struct UIBuilder {
    pub plugin_id: u32,
    pub group_index: i32,
    pub ops: Vec<ParamOp>,
}

impl UIBuilder {
    /// A builder for the parameter group that the host created for the
    /// exporter; none when the host created no group.
    pub fn new(plugin_id: u32, created_group: Option<i32>) -> (r: Option<Self>)
        ensures
            match created_group {
                Some(g) => r is Some && r->0.plugin_id == plugin_id && r->0.group_index == g
                    && r->0.ops@ == Seq::<ParamOp>::empty(),
                None => r is None,
            },
    {
        match created_group {
            Some(g) => Some(UIBuilder { plugin_id, group_index: g, ops: Vec::new() }),
            None => None,
        }
    }

    /// Records one declaration.
    pub fn push_op(&mut self, op: ParamOp)
        ensures
            final(self).plugin_id == old(self).plugin_id,
            final(self).group_index == old(self).group_index,
            final(self).ops@ == old(self).ops@.push(op),
    {
        self.ops.push(op);
    }

    /// Declares a group.
    pub fn add_group(&mut self, parent: &'static str, id: &'static str, name: &'static str)
        ensures
            final(self).plugin_id == old(self).plugin_id,
            final(self).group_index == old(self).group_index,
            final(self).ops@ == old(self).ops@.push(ParamOp::AddGroup { parent, id, name }),
    {
        self.push_op(ParamOp::AddGroup { parent, id, name });
    }

    /// Gives a group or parameter a new display name.
    pub fn set_param_name(&mut self, id: &'static str, name: &'static str)
        ensures
            final(self).plugin_id == old(self).plugin_id,
            final(self).group_index == old(self).group_index,
            final(self).ops@ == old(self).ops@.push(ParamOp::SetName { id, name }),
    {
        self.push_op(ParamOp::SetName { id, name });
    }

    /// Hides a parameter from the user or shows it again.
    pub fn set_param_hidden(&mut self, id: &'static str, hidden: bool)
        ensures
            final(self).plugin_id == old(self).plugin_id,
            final(self).group_index == old(self).group_index,
            final(self).ops@ == old(self).ops@.push(ParamOp::SetHidden { id, hidden }),
    {
        self.push_op(ParamOp::SetHidden { id, hidden });
    }

    /// Declares an integer choice parameter with its default.
    pub fn add_dropdown(
        &mut self,
        parent: &'static str,
        id: &'static str,
        name: &'static str,
        default_val: i32,
    )
        ensures
            final(self).plugin_id == old(self).plugin_id,
            final(self).group_index == old(self).group_index,
            final(self).ops@ == old(self).ops@.push(
                ParamOp::AddParam { parent, id, name, value: ParamValue::Int(default_val), range: None },
            ),
    {
        self.push_op(
            ParamOp::AddParam { parent, id, name, value: ParamValue::Int(default_val), range: None },
        );
    }

    /// Declares an integer parameter with its default and range.
    pub fn add_int_param(
        &mut self,
        parent: &'static str,
        id: &'static str,
        name: &'static str,
        default_val: i32,
        min_val: i32,
        max_val: i32,
    )
        ensures
            final(self).plugin_id == old(self).plugin_id,
            final(self).group_index == old(self).group_index,
            final(self).ops@ == old(self).ops@.push(
                ParamOp::AddParam {
                    parent,
                    id,
                    name,
                    value: ParamValue::Int(default_val),
                    range: Some((ParamValue::Int(min_val), ParamValue::Int(max_val))),
                },
            ),
    {
        self.push_op(
            ParamOp::AddParam {
                parent,
                id,
                name,
                value: ParamValue::Int(default_val),
                range: Some((ParamValue::Int(min_val), ParamValue::Int(max_val))),
            },
        );
    }

    /// Declares a frame-duration parameter with its default and range.
    pub fn add_time_param(
        &mut self,
        parent: &'static str,
        id: &'static str,
        name: &'static str,
        default_val: i64,
        min_val: i64,
        max_val: i64,
    )
        ensures
            final(self).plugin_id == old(self).plugin_id,
            final(self).group_index == old(self).group_index,
            final(self).ops@ == old(self).ops@.push(
                ParamOp::AddParam {
                    parent,
                    id,
                    name,
                    value: ParamValue::Time(default_val),
                    range: Some((ParamValue::Time(min_val), ParamValue::Time(max_val))),
                },
            ),
    {
        self.push_op(
            ParamOp::AddParam {
                parent,
                id,
                name,
                value: ParamValue::Time(default_val),
                range: Some((ParamValue::Time(min_val), ParamValue::Time(max_val))),
            },
        );
    }

    /// Declares a ratio parameter with its default; its range is 1/100 to
    /// 100/1.
    pub fn add_ratio_param(
        &mut self,
        parent: &'static str,
        id: &'static str,
        name: &'static str,
        num: i32,
        den: i32,
    )
        ensures
            final(self).plugin_id == old(self).plugin_id,
            final(self).group_index == old(self).group_index,
            final(self).ops@ == old(self).ops@.push(
                ParamOp::AddParam {
                    parent,
                    id,
                    name,
                    value: ParamValue::Ratio(num, den),
                    range: Some((ParamValue::Ratio(1, 100), ParamValue::Ratio(100, 1))),
                },
            ),
    {
        self.push_op(
            ParamOp::AddParam {
                parent,
                id,
                name,
                value: ParamValue::Ratio(num, den),
                range: Some((ParamValue::Ratio(1, 100), ParamValue::Ratio(100, 1))),
            },
        );
    }

    /// Declares a floating-point parameter with its default and range, all in
    /// thousandths.
    pub fn add_float_param(
        &mut self,
        parent: &'static str,
        id: &'static str,
        name: &'static str,
        default_val: i64,
        min_val: i64,
        max_val: i64,
    )
        ensures
            final(self).plugin_id == old(self).plugin_id,
            final(self).group_index == old(self).group_index,
            final(self).ops@ == old(self).ops@.push(
                ParamOp::AddParam {
                    parent,
                    id,
                    name,
                    value: ParamValue::Float(default_val),
                    range: Some((ParamValue::Float(min_val), ParamValue::Float(max_val))),
                },
            ),
    {
        self.push_op(
            ParamOp::AddParam {
                parent,
                id,
                name,
                value: ParamValue::Float(default_val),
                range: Some((ParamValue::Float(min_val), ParamValue::Float(max_val))),
            },
        );
    }

    /// Adds an integer choice to a parameter.
    pub fn add_dropdown_item(&mut self, param: &'static str, value: i32, name: &'static str)
        ensures
            final(self).plugin_id == old(self).plugin_id,
            final(self).group_index == old(self).group_index,
            final(self).ops@ == old(self).ops@.push(
                ParamOp::AddItem { param, value: ParamValue::Int(value), name },
            ),
    {
        self.push_op(ParamOp::AddItem { param, value: ParamValue::Int(value), name });
    }

    /// Adds a frame-duration choice to a parameter.
    pub fn add_dropdown_item_time(&mut self, param: &'static str, value: i64, name: &'static str)
        ensures
            final(self).plugin_id == old(self).plugin_id,
            final(self).group_index == old(self).group_index,
            final(self).ops@ == old(self).ops@.push(
                ParamOp::AddItem { param, value: ParamValue::Time(value), name },
            ),
    {
        self.push_op(ParamOp::AddItem { param, value: ParamValue::Time(value), name });
    }

    /// Adds a ratio choice to a parameter.
    pub fn add_dropdown_item_ratio(
        &mut self,
        param: &'static str,
        num: i32,
        den: i32,
        name: &'static str,
    )
        ensures
            final(self).plugin_id == old(self).plugin_id,
            final(self).group_index == old(self).group_index,
            final(self).ops@ == old(self).ops@.push(
                ParamOp::AddItem { param, value: ParamValue::Ratio(num, den), name },
            ),
    {
        self.push_op(ParamOp::AddItem { param, value: ParamValue::Ratio(num, den), name });
    }

    /// Declares a floating-point choice parameter with its default, in
    /// thousandths.
    pub fn add_float_dropdown(
        &mut self,
        parent: &'static str,
        id: &'static str,
        name: &'static str,
        default_val: i64,
    )
        ensures
            final(self).plugin_id == old(self).plugin_id,
            final(self).group_index == old(self).group_index,
            final(self).ops@ == old(self).ops@.push(
                ParamOp::AddParam { parent, id, name, value: ParamValue::Float(default_val), range: None },
            ),
    {
        self.push_op(
            ParamOp::AddParam { parent, id, name, value: ParamValue::Float(default_val), range: None },
        );
    }

    /// Declares a frame-duration choice parameter with its default.
    pub fn add_time_dropdown(
        &mut self,
        parent: &'static str,
        id: &'static str,
        name: &'static str,
        default_val: i64,
    )
        ensures
            final(self).plugin_id == old(self).plugin_id,
            final(self).group_index == old(self).group_index,
            final(self).ops@ == old(self).ops@.push(
                ParamOp::AddParam { parent, id, name, value: ParamValue::Time(default_val), range: None },
            ),
    {
        self.push_op(
            ParamOp::AddParam { parent, id, name, value: ParamValue::Time(default_val), range: None },
        );
    }

    /// Adds a floating-point choice (in thousandths) to a parameter.
    pub fn add_dropdown_item_float(&mut self, param: &'static str, value: i64, name: &'static str)
        ensures
            final(self).plugin_id == old(self).plugin_id,
            final(self).group_index == old(self).group_index,
            final(self).ops@ == old(self).ops@.push(
                ParamOp::AddItem { param, value: ParamValue::Float(value), name },
            ),
    {
        self.push_op(ParamOp::AddItem { param, value: ParamValue::Float(value), name });
    }

    /// Declares an on/off parameter with its default.
    pub fn add_bool_param(
        &mut self,
        parent: &'static str,
        id: &'static str,
        name: &'static str,
        default_val: bool,
    )
        ensures
            final(self).plugin_id == old(self).plugin_id,
            final(self).group_index == old(self).group_index,
            final(self).ops@ == old(self).ops@.push(
                ParamOp::AddParam { parent, id, name, value: ParamValue::Bool(default_val), range: None },
            ),
    {
        self.push_op(
            ParamOp::AddParam { parent, id, name, value: ParamValue::Bool(default_val), range: None },
        );
    }

    /// Sets the version of the parameter set.
    pub fn set_params_version(&mut self, version: i32)
        ensures
            final(self).plugin_id == old(self).plugin_id,
            final(self).group_index == old(self).group_index,
            final(self).ops@ == old(self).ops@.push(ParamOp::SetVersion(version)),
    {
        self.push_op(ParamOp::SetVersion(version));
    }
}

/// The video groups and the frame width and height parameters with their
/// presets; the given width and height are the defaults.
pub open spec fn frame_size_layout(width: i32, height: i32) -> Seq<ParamOp> {
    seq![
        ParamOp::AddGroup { parent: "ADBETopParamGroup", id: "ADBEVideoTabGroup", name: "Video" },
        ParamOp::AddGroup { parent: "ADBEVideoTabGroup", id: "ADBEBasicVideoGroup", name: "Basic Video Settings" },
        ParamOp::AddParam { parent: "ADBEBasicVideoGroup", id: "ADBEVideoWidth", name: "Frame Width", value: ParamValue::Int(width), range: Some((ParamValue::Int(16), ParamValue::Int(8192))) },
        ParamOp::AddItem { param: "ADBEVideoWidth", value: ParamValue::Int(4096), name: "4K (4096)" },
        ParamOp::AddItem { param: "ADBEVideoWidth", value: ParamValue::Int(3840), name: "UHD (3840)" },
        ParamOp::AddItem { param: "ADBEVideoWidth", value: ParamValue::Int(2560), name: "Quad HD (2560)" },
        ParamOp::AddItem { param: "ADBEVideoWidth", value: ParamValue::Int(1920), name: "Full HD (1920)" },
        ParamOp::AddItem { param: "ADBEVideoWidth", value: ParamValue::Int(1280), name: "HD (1280)" },
        ParamOp::AddItem { param: "ADBEVideoWidth", value: ParamValue::Int(854), name: "SD NTSC Wide (854)" },
        ParamOp::AddItem { param: "ADBEVideoWidth", value: ParamValue::Int(720), name: "SD NTSC (720)" },
        ParamOp::AddItem { param: "ADBEVideoWidth", value: ParamValue::Int(-1i32), name: "Custom" },
        ParamOp::AddParam { parent: "ADBEBasicVideoGroup", id: "ADBEVideoHeight", name: "Frame Height", value: ParamValue::Int(height), range: Some((ParamValue::Int(16), ParamValue::Int(8192))) },
        ParamOp::AddItem { param: "ADBEVideoHeight", value: ParamValue::Int(2160), name: "4K / UHD (2160)" },
        ParamOp::AddItem { param: "ADBEVideoHeight", value: ParamValue::Int(1440), name: "Quad HD (1440)" },
        ParamOp::AddItem { param: "ADBEVideoHeight", value: ParamValue::Int(1080), name: "Full HD (1080)" },
        ParamOp::AddItem { param: "ADBEVideoHeight", value: ParamValue::Int(720), name: "HD (720)" },
        ParamOp::AddItem { param: "ADBEVideoHeight", value: ParamValue::Int(480), name: "SD NTSC (480)" },
        ParamOp::AddItem { param: "ADBEVideoHeight", value: ParamValue::Int(-1i32), name: "Custom" },
    ]
}

/// The frame rate parameter with its presets (frame durations in host ticks);
/// the given frame duration is the default.
pub open spec fn frame_rate_layout(frame_ticks: i64) -> Seq<ParamOp> {
    seq![
        ParamOp::AddParam { parent: "ADBEBasicVideoGroup", id: "ADBEVideoFPS", name: "Frame Rate", value: ParamValue::Time(frame_ticks), range: None },
        ParamOp::AddItem { param: "ADBEVideoFPS", value: ParamValue::Time(10594627200), name: "23.976" },
        ParamOp::AddItem { param: "ADBEVideoFPS", value: ParamValue::Time(10584000000), name: "24" },
        ParamOp::AddItem { param: "ADBEVideoFPS", value: ParamValue::Time(10160640000), name: "25" },
        ParamOp::AddItem { param: "ADBEVideoFPS", value: ParamValue::Time(8475283200), name: "29.97" },
        ParamOp::AddItem { param: "ADBEVideoFPS", value: ParamValue::Time(8467200000), name: "30" },
        ParamOp::AddItem { param: "ADBEVideoFPS", value: ParamValue::Time(5080320000), name: "50" },
        ParamOp::AddItem { param: "ADBEVideoFPS", value: ParamValue::Time(4237641600), name: "59.94" },
        ParamOp::AddItem { param: "ADBEVideoFPS", value: ParamValue::Time(4233600000), name: "60" },
        ParamOp::AddItem { param: "ADBEVideoFPS", value: ParamValue::Time(2822400000), name: "90" },
        ParamOp::AddItem { param: "ADBEVideoFPS", value: ParamValue::Time(2540160000), name: "100" },
        ParamOp::AddItem { param: "ADBEVideoFPS", value: ParamValue::Time(2118820800), name: "119.88" },
        ParamOp::AddItem { param: "ADBEVideoFPS", value: ParamValue::Time(2116800000), name: "120" },
        ParamOp::AddItem { param: "ADBEVideoFPS", value: ParamValue::Time(1764000000), name: "144" },
        ParamOp::AddItem { param: "ADBEVideoFPS", value: ParamValue::Time(1058400000), name: "240" },
        ParamOp::AddItem { param: "ADBEVideoFPS", value: ParamValue::Time(846720000), name: "300" },
        ParamOp::AddItem { param: "ADBEVideoFPS", value: ParamValue::Time(-1i64), name: "Custom" },
    ]
}

/// `frame_ticks` is one of the frame durations the frame rate parameter offers
/// (the presets, or -1 for "Custom").
pub open spec fn frame_rate_choice(frame_ticks: i64) -> bool {
    frame_ticks == 10594627200 || frame_ticks == 10584000000 || frame_ticks == 10160640000
        || frame_ticks == 8475283200 || frame_ticks == 8467200000 || frame_ticks == 5080320000
        || frame_ticks == 4237641600 || frame_ticks == 4233600000 || frame_ticks == 2822400000
        || frame_ticks == 2540160000 || frame_ticks == 2118820800 || frame_ticks == 2116800000
        || frame_ticks == 1764000000 || frame_ticks == 1058400000 || frame_ticks == 846720000
        || frame_ticks == -1
}

/// The pixel aspect ratio, field order, container and colour space parameters with their choices.
pub open spec fn aspect_and_format_layout() -> Seq<ParamOp> {
    seq![
        ParamOp::AddParam { parent: "ADBEBasicVideoGroup", id: "ADBEVideoAspect", name: "Pixel Aspect Ratio", value: ParamValue::Ratio(1, 1), range: Some((ParamValue::Ratio(1, 100), ParamValue::Ratio(100, 1))) },
        ParamOp::AddItem { param: "ADBEVideoAspect", value: ParamValue::Ratio(1, 1), name: "Square Pixels (1.0)" },
        ParamOp::AddItem { param: "ADBEVideoAspect", value: ParamValue::Ratio(10, 11), name: "D1/DV NTSC (0.9091)" },
        ParamOp::AddItem { param: "ADBEVideoAspect", value: ParamValue::Ratio(40, 33), name: "D1/DV NTSC Widescreen 16:9 (1.2121)" },
        ParamOp::AddItem { param: "ADBEVideoAspect", value: ParamValue::Ratio(59, 54), name: "D1/DV PAL (1.0940)" },
        ParamOp::AddItem { param: "ADBEVideoAspect", value: ParamValue::Ratio(118, 81), name: "D1/DV PAL Widescreen 16:9 (1.4587)" },
        ParamOp::AddItem { param: "ADBEVideoAspect", value: ParamValue::Ratio(2, 1), name: "Anamorphic 2:1 (2.0)" },
        ParamOp::AddItem { param: "ADBEVideoAspect", value: ParamValue::Ratio(4, 3), name: "HD Anamorphic 1080 (1.333)" },
        ParamOp::AddItem { param: "ADBEVideoAspect", value: ParamValue::Ratio(3, 2), name: "DVCPRO HD (1.5)" },
        ParamOp::AddItem { param: "ADBEVideoAspect", value: ParamValue::Ratio(-1i32, -1i32), name: "Custom" },
        ParamOp::AddParam { parent: "ADBEBasicVideoGroup", id: "ADBEVideoFieldType", name: "Field Order", value: ParamValue::Int(0), range: None },
        ParamOp::AddItem { param: "ADBEVideoFieldType", value: ParamValue::Int(0), name: "Progressive" },
        ParamOp::AddParam { parent: "ADBEBasicVideoGroup", id: "ADBEVideoContainer", name: "File Extension", value: ParamValue::Int(2), range: None },
        ParamOp::AddItem { param: "ADBEVideoContainer", value: ParamValue::Int(0), name: "Matroska Video (.mkv)" },
        ParamOp::AddItem { param: "ADBEVideoContainer", value: ParamValue::Int(1), name: "MPEG-4 (.mp4)" },
        ParamOp::AddItem { param: "ADBEVideoContainer", value: ParamValue::Int(2), name: "Hybrid MP4 (.mp4)" },
        ParamOp::AddItem { param: "ADBEVideoContainer", value: ParamValue::Int(3), name: "Fragmented MP4 (.mp4)" },
        ParamOp::AddItem { param: "ADBEVideoContainer", value: ParamValue::Int(4), name: "QuickTime (.mov)" },
        ParamOp::AddItem { param: "ADBEVideoContainer", value: ParamValue::Int(5), name: "Hybrid MOV (.mov)" },
        ParamOp::AddItem { param: "ADBEVideoContainer", value: ParamValue::Int(6), name: "Fragmented MOV (.mov)" },
        ParamOp::AddParam { parent: "ADBEBasicVideoGroup", id: "NukeVideoColorSpace", name: "Color Space & Bit Depth", value: ParamValue::Int(0), range: None },
        ParamOp::AddItem { param: "NukeVideoColorSpace", value: ParamValue::Int(0), name: "Rec.709 (SDR 8-bit)" },
        ParamOp::AddItem { param: "NukeVideoColorSpace", value: ParamValue::Int(1), name: "Rec.2020 PQ (HDR 10-bit)" },
        ParamOp::AddItem { param: "NukeVideoColorSpace", value: ParamValue::Int(2), name: "Rec.2020 HLG (HDR 10-bit)" },
    ]
}

/// The audio groups with the sample rate, channel and audio bit rate parameters and their choices.
pub open spec fn audio_layout() -> Seq<ParamOp> {
    seq![
        ParamOp::AddGroup { parent: "ADBETopParamGroup", id: "ADBEAudioTabGroup", name: "Audio" },
        ParamOp::AddGroup { parent: "ADBEAudioTabGroup", id: "ADBEBasicAudioGroup", name: "Basic Audio Settings" },
        ParamOp::AddParam { parent: "ADBEBasicAudioGroup", id: "ADBEAudioRatePerSecond", name: "Sample Rate", value: ParamValue::Float(48000000), range: None },
        ParamOp::AddItem { param: "ADBEAudioRatePerSecond", value: ParamValue::Float(32000000), name: "32000 Hz" },
        ParamOp::AddItem { param: "ADBEAudioRatePerSecond", value: ParamValue::Float(44100000), name: "44100 Hz" },
        ParamOp::AddItem { param: "ADBEAudioRatePerSecond", value: ParamValue::Float(48000000), name: "48000 Hz" },
        ParamOp::AddItem { param: "ADBEAudioRatePerSecond", value: ParamValue::Float(88200000), name: "88200 Hz" },
        ParamOp::AddItem { param: "ADBEAudioRatePerSecond", value: ParamValue::Float(96000000), name: "96000 Hz" },
        ParamOp::AddParam { parent: "ADBEBasicAudioGroup", id: "ADBEAudioNumChannels", name: "Channels", value: ParamValue::Int(2), range: None },
        ParamOp::AddItem { param: "ADBEAudioNumChannels", value: ParamValue::Int(1), name: "Mono" },
        ParamOp::AddItem { param: "ADBEAudioNumChannels", value: ParamValue::Int(2), name: "Stereo" },
        ParamOp::AddItem { param: "ADBEAudioNumChannels", value: ParamValue::Int(3), name: "5.1" },
        ParamOp::AddParam { parent: "ADBEBasicAudioGroup", id: "ADBEAudioBitrate", name: "Audio Bitrate", value: ParamValue::Int(1), range: None },
        ParamOp::AddItem { param: "ADBEAudioBitrate", value: ParamValue::Int(0), name: "96 kbps" },
        ParamOp::AddItem { param: "ADBEAudioBitrate", value: ParamValue::Int(1), name: "128 kbps" },
        ParamOp::AddItem { param: "ADBEAudioBitrate", value: ParamValue::Int(2), name: "160 kbps" },
        ParamOp::AddItem { param: "ADBEAudioBitrate", value: ParamValue::Int(3), name: "192 kbps" },
        ParamOp::AddItem { param: "ADBEAudioBitrate", value: ParamValue::Int(4), name: "256 kbps" },
        ParamOp::AddItem { param: "ADBEAudioBitrate", value: ParamValue::Int(5), name: "320 kbps" },
    ]
}

/// The encoder settings group with the rate control, bit rate and preset parameters.
pub open spec fn encoder_layout() -> Seq<ParamOp> {
    seq![
        ParamOp::AddGroup { parent: "ADBEVideoTabGroup", id: "NukeBitrateGroup", name: "Encoder Settings" },
        ParamOp::AddParam { parent: "NukeBitrateGroup", id: "ADBEVideoBitrateEncoding", name: "Rate Control", value: ParamValue::Int(0), range: None },
        ParamOp::AddItem { param: "ADBEVideoBitrateEncoding", value: ParamValue::Int(0), name: "Constant Bitrate" },
        ParamOp::AddItem { param: "ADBEVideoBitrateEncoding", value: ParamValue::Int(1), name: "Constant QP" },
        ParamOp::AddItem { param: "ADBEVideoBitrateEncoding", value: ParamValue::Int(2), name: "Variable Bitrate" },
        ParamOp::AddItem { param: "ADBEVideoBitrateEncoding", value: ParamValue::Int(3), name: "Variable Bitrate with Target Quality" },
        ParamOp::AddParam { parent: "NukeBitrateGroup", id: "ADBEVideoTargetBitrate", name: "Bitrate [Mbps]", value: ParamValue::Float(10000), range: Some((ParamValue::Float(100), ParamValue::Float(300000))) },
        ParamOp::AddParam { parent: "NukeBitrateGroup", id: "ADBEVideoMaxBitrate", name: "Max Bitrate [Mbps]", value: ParamValue::Float(12000), range: Some((ParamValue::Float(100), ParamValue::Float(300000))) },
        ParamOp::AddParam { parent: "NukeBitrateGroup", id: "NukePreset", name: "Preset", value: ParamValue::Int(4), range: None },
        ParamOp::AddItem { param: "NukePreset", value: ParamValue::Int(0), name: "P1: Fastest (Lowest Quality)" },
        ParamOp::AddItem { param: "NukePreset", value: ParamValue::Int(1), name: "P2: Faster" },
        ParamOp::AddItem { param: "NukePreset", value: ParamValue::Int(2), name: "P3: Fast" },
        ParamOp::AddItem { param: "NukePreset", value: ParamValue::Int(3), name: "P4: Medium" },
        ParamOp::AddItem { param: "NukePreset", value: ParamValue::Int(4), name: "P5: Slow (Good Quality)" },
        ParamOp::AddItem { param: "NukePreset", value: ParamValue::Int(5), name: "P6: Slower" },
        ParamOp::AddItem { param: "NukePreset", value: ParamValue::Int(6), name: "P7: Slowest (Best Quality)" },
    ]
}

/// The tuning, multipass, look-ahead, adaptive quantisation and B-frame parameters.
pub open spec fn encoder_tuning_layout() -> Seq<ParamOp> {
    seq![
        ParamOp::AddParam { parent: "NukeBitrateGroup", id: "NukeTuning", name: "Tuning", value: ParamValue::Int(0), range: None },
        ParamOp::AddItem { param: "NukeTuning", value: ParamValue::Int(0), name: "High Quality" },
        ParamOp::AddItem { param: "NukeTuning", value: ParamValue::Int(1), name: "Low Latency" },
        ParamOp::AddItem { param: "NukeTuning", value: ParamValue::Int(2), name: "Ultra Low Latency" },
        ParamOp::AddParam { parent: "NukeBitrateGroup", id: "NukeMultipass", name: "Multipass Mode", value: ParamValue::Int(1), range: None },
        ParamOp::AddItem { param: "NukeMultipass", value: ParamValue::Int(0), name: "Disabled" },
        ParamOp::AddItem { param: "NukeMultipass", value: ParamValue::Int(1), name: "Two Passes (Quarter Resolution)" },
        ParamOp::AddItem { param: "NukeMultipass", value: ParamValue::Int(2), name: "Two Passes (Full Resolution)" },
        ParamOp::AddParam { parent: "NukeBitrateGroup", id: "NukeLookAhead", name: "Look-ahead", value: ParamValue::Bool(true), range: None },
        ParamOp::AddParam { parent: "NukeBitrateGroup", id: "NukeAdaptiveQuant", name: "Adaptive Quantisation", value: ParamValue::Bool(true), range: None },
        ParamOp::AddParam { parent: "NukeBitrateGroup", id: "NukeBFrames", name: "B-Frames", value: ParamValue::Int(2), range: Some((ParamValue::Int(0), ParamValue::Int(4))) },
        ParamOp::AddParam { parent: "NukeBitrateGroup", id: "NukeBFrameRef", name: "B-Frame as Reference", value: ParamValue::Int(0), range: None },
        ParamOp::AddItem { param: "NukeBFrameRef", value: ParamValue::Int(0), name: "Disabled" },
        ParamOp::AddItem { param: "NukeBFrameRef", value: ParamValue::Int(1), name: "Each B-Frame" },
        ParamOp::AddItem { param: "NukeBFrameRef", value: ParamValue::Int(2), name: "Middle B-Frame" },
    ]
}

/// The AV1 encoding and advanced groups with their parameters.
pub open spec fn av1_layout() -> Seq<ParamOp> {
    seq![
        ParamOp::AddGroup { parent: "ADBEVideoTabGroup", id: "NukeAV1EncodingGroup", name: "Encoding Settings" },
        ParamOp::AddParam { parent: "NukeAV1EncodingGroup", id: "NukeAV1Encoder", name: "Performance", value: ParamValue::Int(0), range: None },
        ParamOp::AddItem { param: "NukeAV1Encoder", value: ParamValue::Int(0), name: "Auto (Recommended)" },
        ParamOp::AddItem { param: "NukeAV1Encoder", value: ParamValue::Int(1), name: "Software Only (CPU)" },
        ParamOp::AddItem { param: "NukeAV1Encoder", value: ParamValue::Int(2), name: "Hardware Encoding (NVENC)" },
        ParamOp::AddItem { param: "NukeAV1Encoder", value: ParamValue::Int(3), name: "Hardware Encoding (AMF)" },
        ParamOp::AddItem { param: "NukeAV1Encoder", value: ParamValue::Int(4), name: "Hardware Encoding (QSV)" },
        ParamOp::AddParam { parent: "NukeAV1EncodingGroup", id: "NukeAV1Profile", name: "Profile", value: ParamValue::Int(0), range: None },
        ParamOp::AddItem { param: "NukeAV1Profile", value: ParamValue::Int(0), name: "Main" },
        ParamOp::AddItem { param: "NukeAV1Profile", value: ParamValue::Int(1), name: "High" },
        ParamOp::AddItem { param: "NukeAV1Profile", value: ParamValue::Int(2), name: "Professional" },
        ParamOp::AddParam { parent: "NukeAV1EncodingGroup", id: "NukeAV1Level", name: "Level", value: ParamValue::Int(0), range: None },
        ParamOp::AddItem { param: "NukeAV1Level", value: ParamValue::Int(0), name: "5.0" },
        ParamOp::AddItem { param: "NukeAV1Level", value: ParamValue::Int(1), name: "5.1" },
        ParamOp::AddItem { param: "NukeAV1Level", value: ParamValue::Int(2), name: "5.2" },
        ParamOp::AddItem { param: "NukeAV1Level", value: ParamValue::Int(3), name: "6.0" },
        ParamOp::AddParam { parent: "NukeAV1EncodingGroup", id: "NukeAV1Tier", name: "Tier", value: ParamValue::Int(0), range: None },
        ParamOp::AddItem { param: "NukeAV1Tier", value: ParamValue::Int(0), name: "Main" },
        ParamOp::AddItem { param: "NukeAV1Tier", value: ParamValue::Int(1), name: "High" },
        ParamOp::AddGroup { parent: "ADBEVideoTabGroup", id: "NukeAdvancedGroup", name: "Advanced Settings" },
        ParamOp::AddParam { parent: "NukeAdvancedGroup", id: "NukeAV1KeyFrame", name: "Key Frame Distance", value: ParamValue::Float(33000), range: Some((ParamValue::Float(1000), ParamValue::Float(300000))) },
    ]
}

/// The VP8 encoding and advanced groups with the keyframe distance.
pub open spec fn vp8_layout() -> Seq<ParamOp> {
    seq![
        ParamOp::AddGroup { parent: "ADBEVideoTabGroup", id: "NukeVP8EncodingGroup", name: "Encoding Settings" },
        ParamOp::AddGroup { parent: "ADBEVideoTabGroup", id: "NukeAdvancedGroup", name: "Advanced Settings" },
        ParamOp::AddParam { parent: "NukeAdvancedGroup", id: "NukeVP8KeyFrame", name: "Key Frame Distance", value: ParamValue::Float(33000), range: Some((ParamValue::Float(1000), ParamValue::Float(300000))) },
    ]
}

/// The VP9 encoding and advanced groups with the profile and keyframe distance.
pub open spec fn vp9_layout() -> Seq<ParamOp> {
    seq![
        ParamOp::AddGroup { parent: "ADBEVideoTabGroup", id: "NukeVP9EncodingGroup", name: "Encoding Settings" },
        ParamOp::AddParam { parent: "NukeVP9EncodingGroup", id: "NukeVP9Profile", name: "Profile", value: ParamValue::Int(0), range: None },
        ParamOp::AddItem { param: "NukeVP9Profile", value: ParamValue::Int(0), name: "Profile 0 (8-bit 4:2:0)" },
        ParamOp::AddItem { param: "NukeVP9Profile", value: ParamValue::Int(1), name: "Profile 1 (8-bit 4:2:2/4:4:4)" },
        ParamOp::AddItem { param: "NukeVP9Profile", value: ParamValue::Int(2), name: "Profile 2 (10/12-bit 4:2:0)" },
        ParamOp::AddItem { param: "NukeVP9Profile", value: ParamValue::Int(3), name: "Profile 3 (10/12-bit 4:2:2/4:4:4)" },
        ParamOp::AddGroup { parent: "ADBEVideoTabGroup", id: "NukeAdvancedGroup", name: "Advanced Settings" },
        ParamOp::AddParam { parent: "NukeAdvancedGroup", id: "NukeVP9KeyFrame", name: "Key Frame Distance", value: ParamValue::Float(33000), range: Some((ParamValue::Float(1000), ParamValue::Float(300000))) },
    ]
}

/// Declares the video groups and the frame width and height parameters with their presets.
fn add_frame_size(b: &mut UIBuilder, width: i32, height: i32)
    ensures
        final(b).plugin_id == old(b).plugin_id,
        final(b).group_index == old(b).group_index,
        final(b).ops@ == old(b).ops@ + frame_size_layout(width, height),
{
    let ghost start = b.ops@;
    b.add_group("ADBETopParamGroup", "ADBEVideoTabGroup", "Video");
    b.add_group("ADBEVideoTabGroup", "ADBEBasicVideoGroup", "Basic Video Settings");
    b.add_int_param("ADBEBasicVideoGroup", "ADBEVideoWidth", "Frame Width", width, 16, 8192);
    b.add_dropdown_item("ADBEVideoWidth", 4096, "4K (4096)");
    b.add_dropdown_item("ADBEVideoWidth", 3840, "UHD (3840)");
    b.add_dropdown_item("ADBEVideoWidth", 2560, "Quad HD (2560)");
    b.add_dropdown_item("ADBEVideoWidth", 1920, "Full HD (1920)");
    b.add_dropdown_item("ADBEVideoWidth", 1280, "HD (1280)");
    b.add_dropdown_item("ADBEVideoWidth", 854, "SD NTSC Wide (854)");
    b.add_dropdown_item("ADBEVideoWidth", 720, "SD NTSC (720)");
    b.add_dropdown_item("ADBEVideoWidth", -1, "Custom");
    b.add_int_param("ADBEBasicVideoGroup", "ADBEVideoHeight", "Frame Height", height, 16, 8192);
    b.add_dropdown_item("ADBEVideoHeight", 2160, "4K / UHD (2160)");
    b.add_dropdown_item("ADBEVideoHeight", 1440, "Quad HD (1440)");
    b.add_dropdown_item("ADBEVideoHeight", 1080, "Full HD (1080)");
    b.add_dropdown_item("ADBEVideoHeight", 720, "HD (720)");
    b.add_dropdown_item("ADBEVideoHeight", 480, "SD NTSC (480)");
    b.add_dropdown_item("ADBEVideoHeight", -1, "Custom");
    assert(b.ops@ =~= start + frame_size_layout(width, height));
}

/// Declares the frame rate parameter with its presets (frame durations in host ticks).
fn add_frame_rate(b: &mut UIBuilder, frame_ticks: i64)
    ensures
        final(b).plugin_id == old(b).plugin_id,
        final(b).group_index == old(b).group_index,
        final(b).ops@ == old(b).ops@ + frame_rate_layout(frame_ticks),
{
    let ghost start = b.ops@;
    b.add_time_dropdown("ADBEBasicVideoGroup", "ADBEVideoFPS", "Frame Rate", frame_ticks);
    b.add_dropdown_item_time("ADBEVideoFPS", 10594627200, "23.976");
    b.add_dropdown_item_time("ADBEVideoFPS", 10584000000, "24");
    b.add_dropdown_item_time("ADBEVideoFPS", 10160640000, "25");
    b.add_dropdown_item_time("ADBEVideoFPS", 8475283200, "29.97");
    b.add_dropdown_item_time("ADBEVideoFPS", 8467200000, "30");
    b.add_dropdown_item_time("ADBEVideoFPS", 5080320000, "50");
    b.add_dropdown_item_time("ADBEVideoFPS", 4237641600, "59.94");
    b.add_dropdown_item_time("ADBEVideoFPS", 4233600000, "60");
    b.add_dropdown_item_time("ADBEVideoFPS", 2822400000, "90");
    b.add_dropdown_item_time("ADBEVideoFPS", 2540160000, "100");
    b.add_dropdown_item_time("ADBEVideoFPS", 2118820800, "119.88");
    b.add_dropdown_item_time("ADBEVideoFPS", 2116800000, "120");
    b.add_dropdown_item_time("ADBEVideoFPS", 1764000000, "144");
    b.add_dropdown_item_time("ADBEVideoFPS", 1058400000, "240");
    b.add_dropdown_item_time("ADBEVideoFPS", 846720000, "300");
    b.add_dropdown_item_time("ADBEVideoFPS", -1, "Custom");
    assert(b.ops@ =~= start + frame_rate_layout(frame_ticks));
}

/// Declares the pixel aspect ratio, field order, container and colour space parameters with their choices.
fn add_aspect_and_format(b: &mut UIBuilder)
    ensures
        final(b).plugin_id == old(b).plugin_id,
        final(b).group_index == old(b).group_index,
        final(b).ops@ == old(b).ops@ + aspect_and_format_layout(),
{
    let ghost start = b.ops@;
    b.add_ratio_param("ADBEBasicVideoGroup", "ADBEVideoAspect", "Pixel Aspect Ratio", 1, 1);
    b.add_dropdown_item_ratio("ADBEVideoAspect", 1, 1, "Square Pixels (1.0)");
    b.add_dropdown_item_ratio("ADBEVideoAspect", 10, 11, "D1/DV NTSC (0.9091)");
    b.add_dropdown_item_ratio("ADBEVideoAspect", 40, 33, "D1/DV NTSC Widescreen 16:9 (1.2121)");
    b.add_dropdown_item_ratio("ADBEVideoAspect", 59, 54, "D1/DV PAL (1.0940)");
    b.add_dropdown_item_ratio("ADBEVideoAspect", 118, 81, "D1/DV PAL Widescreen 16:9 (1.4587)");
    b.add_dropdown_item_ratio("ADBEVideoAspect", 2, 1, "Anamorphic 2:1 (2.0)");
    b.add_dropdown_item_ratio("ADBEVideoAspect", 4, 3, "HD Anamorphic 1080 (1.333)");
    b.add_dropdown_item_ratio("ADBEVideoAspect", 3, 2, "DVCPRO HD (1.5)");
    b.add_dropdown_item_ratio("ADBEVideoAspect", -1, -1, "Custom");
    b.add_dropdown("ADBEBasicVideoGroup", "ADBEVideoFieldType", "Field Order", 0);
    b.add_dropdown_item("ADBEVideoFieldType", 0, "Progressive");
    b.add_dropdown("ADBEBasicVideoGroup", "ADBEVideoContainer", "File Extension", 2);
    b.add_dropdown_item("ADBEVideoContainer", 0, "Matroska Video (.mkv)");
    b.add_dropdown_item("ADBEVideoContainer", 1, "MPEG-4 (.mp4)");
    b.add_dropdown_item("ADBEVideoContainer", 2, "Hybrid MP4 (.mp4)");
    b.add_dropdown_item("ADBEVideoContainer", 3, "Fragmented MP4 (.mp4)");
    b.add_dropdown_item("ADBEVideoContainer", 4, "QuickTime (.mov)");
    b.add_dropdown_item("ADBEVideoContainer", 5, "Hybrid MOV (.mov)");
    b.add_dropdown_item("ADBEVideoContainer", 6, "Fragmented MOV (.mov)");
    b.add_dropdown("ADBEBasicVideoGroup", "NukeVideoColorSpace", "Color Space & Bit Depth", 0);
    b.add_dropdown_item("NukeVideoColorSpace", 0, "Rec.709 (SDR 8-bit)");
    b.add_dropdown_item("NukeVideoColorSpace", 1, "Rec.2020 PQ (HDR 10-bit)");
    b.add_dropdown_item("NukeVideoColorSpace", 2, "Rec.2020 HLG (HDR 10-bit)");
    assert(b.ops@ =~= start + aspect_and_format_layout());
}

/// Declares the audio groups with the sample rate, channel and audio bit rate parameters and their choices.
fn add_audio(b: &mut UIBuilder)
    ensures
        final(b).plugin_id == old(b).plugin_id,
        final(b).group_index == old(b).group_index,
        final(b).ops@ == old(b).ops@ + audio_layout(),
{
    let ghost start = b.ops@;
    b.add_group("ADBETopParamGroup", "ADBEAudioTabGroup", "Audio");
    b.add_group("ADBEAudioTabGroup", "ADBEBasicAudioGroup", "Basic Audio Settings");
    b.add_float_dropdown("ADBEBasicAudioGroup", "ADBEAudioRatePerSecond", "Sample Rate", 48000000);
    b.add_dropdown_item_float("ADBEAudioRatePerSecond", 32000000, "32000 Hz");
    b.add_dropdown_item_float("ADBEAudioRatePerSecond", 44100000, "44100 Hz");
    b.add_dropdown_item_float("ADBEAudioRatePerSecond", 48000000, "48000 Hz");
    b.add_dropdown_item_float("ADBEAudioRatePerSecond", 88200000, "88200 Hz");
    b.add_dropdown_item_float("ADBEAudioRatePerSecond", 96000000, "96000 Hz");
    b.add_dropdown("ADBEBasicAudioGroup", "ADBEAudioNumChannels", "Channels", 2);
    b.add_dropdown_item("ADBEAudioNumChannels", 1, "Mono");
    b.add_dropdown_item("ADBEAudioNumChannels", 2, "Stereo");
    b.add_dropdown_item("ADBEAudioNumChannels", 3, "5.1");
    b.add_dropdown("ADBEBasicAudioGroup", "ADBEAudioBitrate", "Audio Bitrate", 1);
    b.add_dropdown_item("ADBEAudioBitrate", 0, "96 kbps");
    b.add_dropdown_item("ADBEAudioBitrate", 1, "128 kbps");
    b.add_dropdown_item("ADBEAudioBitrate", 2, "160 kbps");
    b.add_dropdown_item("ADBEAudioBitrate", 3, "192 kbps");
    b.add_dropdown_item("ADBEAudioBitrate", 4, "256 kbps");
    b.add_dropdown_item("ADBEAudioBitrate", 5, "320 kbps");
    assert(b.ops@ =~= start + audio_layout());
}

/// Declares the encoder settings group with the rate control, bit rate and preset parameters.
fn add_encoder(b: &mut UIBuilder)
    ensures
        final(b).plugin_id == old(b).plugin_id,
        final(b).group_index == old(b).group_index,
        final(b).ops@ == old(b).ops@ + encoder_layout(),
{
    let ghost start = b.ops@;
    b.add_group("ADBEVideoTabGroup", "NukeBitrateGroup", "Encoder Settings");
    b.add_dropdown("NukeBitrateGroup", "ADBEVideoBitrateEncoding", "Rate Control", 0);
    b.add_dropdown_item("ADBEVideoBitrateEncoding", 0, "Constant Bitrate");
    b.add_dropdown_item("ADBEVideoBitrateEncoding", 1, "Constant QP");
    b.add_dropdown_item("ADBEVideoBitrateEncoding", 2, "Variable Bitrate");
    b.add_dropdown_item("ADBEVideoBitrateEncoding", 3, "Variable Bitrate with Target Quality");
    b.add_float_param("NukeBitrateGroup", "ADBEVideoTargetBitrate", "Bitrate [Mbps]", 10000, 100, 300000);
    b.add_float_param("NukeBitrateGroup", "ADBEVideoMaxBitrate", "Max Bitrate [Mbps]", 12000, 100, 300000);
    b.add_dropdown("NukeBitrateGroup", "NukePreset", "Preset", 4);
    b.add_dropdown_item("NukePreset", 0, "P1: Fastest (Lowest Quality)");
    b.add_dropdown_item("NukePreset", 1, "P2: Faster");
    b.add_dropdown_item("NukePreset", 2, "P3: Fast");
    b.add_dropdown_item("NukePreset", 3, "P4: Medium");
    b.add_dropdown_item("NukePreset", 4, "P5: Slow (Good Quality)");
    b.add_dropdown_item("NukePreset", 5, "P6: Slower");
    b.add_dropdown_item("NukePreset", 6, "P7: Slowest (Best Quality)");
    assert(b.ops@ =~= start + encoder_layout());
}

/// Declares the tuning, multipass, look-ahead, adaptive quantisation and B-frame parameters.
fn add_encoder_tuning(b: &mut UIBuilder)
    ensures
        final(b).plugin_id == old(b).plugin_id,
        final(b).group_index == old(b).group_index,
        final(b).ops@ == old(b).ops@ + encoder_tuning_layout(),
{
    let ghost start = b.ops@;
    b.add_dropdown("NukeBitrateGroup", "NukeTuning", "Tuning", 0);
    b.add_dropdown_item("NukeTuning", 0, "High Quality");
    b.add_dropdown_item("NukeTuning", 1, "Low Latency");
    b.add_dropdown_item("NukeTuning", 2, "Ultra Low Latency");
    b.add_dropdown("NukeBitrateGroup", "NukeMultipass", "Multipass Mode", 1);
    b.add_dropdown_item("NukeMultipass", 0, "Disabled");
    b.add_dropdown_item("NukeMultipass", 1, "Two Passes (Quarter Resolution)");
    b.add_dropdown_item("NukeMultipass", 2, "Two Passes (Full Resolution)");
    b.add_bool_param("NukeBitrateGroup", "NukeLookAhead", "Look-ahead", true);
    b.add_bool_param("NukeBitrateGroup", "NukeAdaptiveQuant", "Adaptive Quantisation", true);
    b.add_int_param("NukeBitrateGroup", "NukeBFrames", "B-Frames", 2, 0, 4);
    b.add_dropdown("NukeBitrateGroup", "NukeBFrameRef", "B-Frame as Reference", 0);
    b.add_dropdown_item("NukeBFrameRef", 0, "Disabled");
    b.add_dropdown_item("NukeBFrameRef", 1, "Each B-Frame");
    b.add_dropdown_item("NukeBFrameRef", 2, "Middle B-Frame");
    assert(b.ops@ =~= start + encoder_tuning_layout());
}

/// Declares the AV1 encoding and advanced groups with their parameters.
fn add_av1(b: &mut UIBuilder)
    ensures
        final(b).plugin_id == old(b).plugin_id,
        final(b).group_index == old(b).group_index,
        final(b).ops@ == old(b).ops@ + av1_layout(),
{
    let ghost start = b.ops@;
    b.add_group("ADBEVideoTabGroup", "NukeAV1EncodingGroup", "Encoding Settings");
    b.add_dropdown("NukeAV1EncodingGroup", "NukeAV1Encoder", "Performance", 0);
    b.add_dropdown_item("NukeAV1Encoder", 0, "Auto (Recommended)");
    b.add_dropdown_item("NukeAV1Encoder", 1, "Software Only (CPU)");
    b.add_dropdown_item("NukeAV1Encoder", 2, "Hardware Encoding (NVENC)");
    b.add_dropdown_item("NukeAV1Encoder", 3, "Hardware Encoding (AMF)");
    b.add_dropdown_item("NukeAV1Encoder", 4, "Hardware Encoding (QSV)");
    b.add_dropdown("NukeAV1EncodingGroup", "NukeAV1Profile", "Profile", 0);
    b.add_dropdown_item("NukeAV1Profile", 0, "Main");
    b.add_dropdown_item("NukeAV1Profile", 1, "High");
    b.add_dropdown_item("NukeAV1Profile", 2, "Professional");
    b.add_dropdown("NukeAV1EncodingGroup", "NukeAV1Level", "Level", 0);
    b.add_dropdown_item("NukeAV1Level", 0, "5.0");
    b.add_dropdown_item("NukeAV1Level", 1, "5.1");
    b.add_dropdown_item("NukeAV1Level", 2, "5.2");
    b.add_dropdown_item("NukeAV1Level", 3, "6.0");
    b.add_dropdown("NukeAV1EncodingGroup", "NukeAV1Tier", "Tier", 0);
    b.add_dropdown_item("NukeAV1Tier", 0, "Main");
    b.add_dropdown_item("NukeAV1Tier", 1, "High");
    b.add_group("ADBEVideoTabGroup", "NukeAdvancedGroup", "Advanced Settings");
    b.add_float_param("NukeAdvancedGroup", "NukeAV1KeyFrame", "Key Frame Distance", 33000, 1000, 300000);
    assert(b.ops@ =~= start + av1_layout());
}

/// Declares the VP8 encoding and advanced groups with the keyframe distance.
fn add_vp8(b: &mut UIBuilder)
    ensures
        final(b).plugin_id == old(b).plugin_id,
        final(b).group_index == old(b).group_index,
        final(b).ops@ == old(b).ops@ + vp8_layout(),
{
    let ghost start = b.ops@;
    b.add_group("ADBEVideoTabGroup", "NukeVP8EncodingGroup", "Encoding Settings");
    b.add_group("ADBEVideoTabGroup", "NukeAdvancedGroup", "Advanced Settings");
    b.add_float_param("NukeAdvancedGroup", "NukeVP8KeyFrame", "Key Frame Distance", 33000, 1000, 300000);
    assert(b.ops@ =~= start + vp8_layout());
}

/// Declares the VP9 encoding and advanced groups with the profile and keyframe distance.
fn add_vp9(b: &mut UIBuilder)
    ensures
        final(b).plugin_id == old(b).plugin_id,
        final(b).group_index == old(b).group_index,
        final(b).ops@ == old(b).ops@ + vp9_layout(),
{
    let ghost start = b.ops@;
    b.add_group("ADBEVideoTabGroup", "NukeVP9EncodingGroup", "Encoding Settings");
    b.add_dropdown("NukeVP9EncodingGroup", "NukeVP9Profile", "Profile", 0);
    b.add_dropdown_item("NukeVP9Profile", 0, "Profile 0 (8-bit 4:2:0)");
    b.add_dropdown_item("NukeVP9Profile", 1, "Profile 1 (8-bit 4:2:2/4:4:4)");
    b.add_dropdown_item("NukeVP9Profile", 2, "Profile 2 (10/12-bit 4:2:0)");
    b.add_dropdown_item("NukeVP9Profile", 3, "Profile 3 (10/12-bit 4:2:2/4:4:4)");
    b.add_group("ADBEVideoTabGroup", "NukeAdvancedGroup", "Advanced Settings");
    b.add_float_param("NukeAdvancedGroup", "NukeVP9KeyFrame", "Key Frame Distance", 33000, 1000, 300000);
    assert(b.ops@ =~= start + vp9_layout());
}

/// The parameters specific to an exporter file type: AV1, VP8 or VP9 ones;
/// none for other file types.
pub open spec fn codec_layout(file_type: u32) -> Seq<ParamOp> {
    if file_type == FILE_TYPE_AV1 {
        av1_layout()
    } else if file_type == FILE_TYPE_VP8 {
        vp8_layout()
    } else if file_type == FILE_TYPE_VP9 {
        vp9_layout()
    } else {
        Seq::empty()
    }
}

/// The complete default parameter set of an exporter: video, audio and encoder
/// settings, the file type's own settings, and version 1. The frame width,
/// height and frame rate parameters start at the given sequence's width,
/// height and frame duration.
pub open spec fn default_layout(file_type: u32, width: i32, height: i32, frame_ticks: i64) -> Seq<
    ParamOp,
> {
    frame_size_layout(width, height) + frame_rate_layout(frame_ticks) + aspect_and_format_layout() + audio_layout()
        + encoder_layout() + encoder_tuning_layout() + codec_layout(file_type) + seq![
        ParamOp::SetVersion(1),
    ]
}

/// Declares the default parameter set of the exporter with the given file type,
/// filled in from the most recent sequence: its frame width and height and its
/// frame duration in host ticks become the defaults of the frame size and frame
/// rate parameters (see `default_layout`).
pub fn generate_default_params(
    b: &mut UIBuilder,
    file_type: u32,
    sequence_width: i32,
    sequence_height: i32,
    sequence_frame_ticks: i64,
)
    ensures
        final(b).plugin_id == old(b).plugin_id,
        final(b).group_index == old(b).group_index,
        final(b).ops@ == old(b).ops@ + default_layout(
            file_type,
            sequence_width,
            sequence_height,
            sequence_frame_ticks,
        ),
{
    let ghost start = b.ops@;
    add_frame_size(b, sequence_width, sequence_height);
    add_frame_rate(b, sequence_frame_ticks);
    add_aspect_and_format(b);
    add_audio(b);
    add_encoder(b);
    add_encoder_tuning(b);
    let ghost common = b.ops@;
    if file_type == FILE_TYPE_AV1 {
        add_av1(b);
    } else if file_type == FILE_TYPE_VP8 {
        add_vp8(b);
    } else if file_type == FILE_TYPE_VP9 {
        add_vp9(b);
    }
    assert(b.ops@ =~= common + codec_layout(file_type));
    b.set_params_version(1);
    assert(b.ops@ =~= start + default_layout(file_type, sequence_width, sequence_height, sequence_frame_ticks));
}

/// The width, height and frame duration the defaults follow: those of the
/// most recent sequence when the host has one, Full HD (1920 by 1080) at 60
/// frames per second otherwise.
pub open spec fn sequence_or_default(sequence: Option<(i32, i32, i64)>) -> (i32, i32, i64) {
    match sequence {
        Some(t) => t,
        None => (1920i32, 1080i32, 4233600000i64),
    }
}

/// Declares the default parameter set for the most recent sequence, when the
/// host has one (width, height, frame duration in ticks), and for Full HD at
/// 60 frames per second otherwise (see `sequence_or_default`).
pub fn generate_default_params_for(
    b: &mut UIBuilder,
    file_type: u32,
    sequence: Option<(i32, i32, i64)>,
)
    ensures
        final(b).plugin_id == old(b).plugin_id,
        final(b).group_index == old(b).group_index,
        final(b).ops@ == old(b).ops@ + default_layout(
            file_type,
            sequence_or_default(sequence).0,
            sequence_or_default(sequence).1,
            sequence_or_default(sequence).2,
        ),
{
    let (w, h, d) = match sequence {
        Some(t) => t,
        None => (1920, 1080, 4233600000),
    };
    generate_default_params(b, file_type, w, h, d);
}

/// The display names of the two bit rate parameters for a "Rate Control"
/// choice, when it could be read: target and maximum bit rate for constant and
/// variable bit rate (the maximum marked unused for constant bit rate), the QP
/// value for constant QP, the quality value for target quality.
pub fn rate_control_labels(mode: Option<i32>) -> (r: (&'static str, &'static str))
    ensures
        (r.0@, r.1@) == (match mode {
            Some(0) => ("Target Bitrate [Mbps]"@, "Max Bitrate (Unused in CBR)"@),
            Some(1) => ("Constant QP (CQ / CQP Value)"@, "Max Bitrate (Unused in CQP)"@),
            Some(2) => ("Target Bitrate [Mbps]"@, "Max Bitrate [Mbps]"@),
            Some(3) => ("Target Quality (CQ Value)"@, "Max Bitrate [Mbps]"@),
            _ => ("Bitrate [Mbps]"@, "Max Bitrate [Mbps]"@),
        }),
{
    match mode {
        Some(0) => ("Target Bitrate [Mbps]", "Max Bitrate (Unused in CBR)"),
        Some(1) => ("Constant QP (CQ / CQP Value)", "Max Bitrate (Unused in CQP)"),
        Some(2) => ("Target Bitrate [Mbps]", "Max Bitrate [Mbps]"),
        Some(3) => ("Target Quality (CQ Value)", "Max Bitrate [Mbps]"),
        _ => ("Bitrate [Mbps]", "Max Bitrate [Mbps]"),
    }
}
/// The video, audio and encoder groups and parameters up to the rate control.
pub open spec fn general_names() -> Seq<ParamOp> {
    seq![
        ParamOp::SetName { id: "ADBETopParamGroup", name: "Video" },
        ParamOp::SetName { id: "ADBEVideoTabGroup", name: "Video" },
        ParamOp::SetName { id: "ADBEBasicVideoGroup", name: "Basic Video Settings" },
        ParamOp::SetName { id: "ADBEVideoWidth", name: "Frame Width" },
        ParamOp::SetName { id: "ADBEVideoHeight", name: "Frame Height" },
        ParamOp::SetName { id: "ADBEVideoFPS", name: "Frame Rate" },
        ParamOp::SetName { id: "ADBEVideoAspect", name: "Pixel Aspect Ratio" },
        ParamOp::SetName { id: "ADBEVideoFieldType", name: "Field Order" },
        ParamOp::SetName { id: "ADBEVideoContainer", name: "File Extension" },
        ParamOp::SetName { id: "NukeVideoColorSpace", name: "Color Space & Bit Depth" },
        ParamOp::SetName { id: "ADBEAudioTabGroup", name: "Audio" },
        ParamOp::SetName { id: "ADBEBasicAudioGroup", name: "Basic Audio Settings" },
        ParamOp::SetName { id: "ADBEAudioRatePerSecond", name: "Sample Rate" },
        ParamOp::SetName { id: "ADBEAudioNumChannels", name: "Channels" },
        ParamOp::SetName { id: "ADBEAudioBitrate", name: "Audio Bitrate" },
        ParamOp::SetName { id: "NukeBitrateGroup", name: "Encoder Settings" },
        ParamOp::SetName { id: "ADBEVideoBitrateEncoding", name: "Rate Control" },
    ]
}

/// The preset, tuning, multipass, look-ahead, quantisation and B-frame parameters.
pub open spec fn tuning_names() -> Seq<ParamOp> {
    seq![
        ParamOp::SetName { id: "NukePreset", name: "Preset" },
        ParamOp::SetName { id: "NukeTuning", name: "Tuning" },
        ParamOp::SetName { id: "NukeMultipass", name: "Multipass Mode" },
        ParamOp::SetName { id: "NukeLookAhead", name: "Look-ahead" },
        ParamOp::SetName { id: "NukeAdaptiveQuant", name: "Adaptive Quantisation" },
        ParamOp::SetName { id: "NukeBFrames", name: "B-Frames" },
        ParamOp::SetName { id: "NukeBFrameRef", name: "B-Frame as Reference" },
    ]
}

/// The AV1 groups and parameters.
pub open spec fn av1_names() -> Seq<ParamOp> {
    seq![
        ParamOp::SetName { id: "NukeAV1EncodingGroup", name: "Encoding Settings" },
        ParamOp::SetName { id: "NukeAV1Encoder", name: "Performance" },
        ParamOp::SetName { id: "NukeAV1Profile", name: "Profile" },
        ParamOp::SetName { id: "NukeAV1Level", name: "Level" },
        ParamOp::SetName { id: "NukeAV1Tier", name: "Tier" },
        ParamOp::SetName { id: "NukeAdvancedGroup", name: "Advanced Settings" },
        ParamOp::SetName { id: "NukeAV1KeyFrame", name: "Key Frame Distance" },
    ]
}

/// The VP8 groups and parameters.
pub open spec fn vp8_names() -> Seq<ParamOp> {
    seq![
        ParamOp::SetName { id: "NukeVP8EncodingGroup", name: "Encoding Settings" },
        ParamOp::SetName { id: "NukeAdvancedGroup", name: "Advanced Settings" },
        ParamOp::SetName { id: "NukeVP8KeyFrame", name: "Key Frame Distance" },
    ]
}

/// The VP9 groups and parameters.
pub open spec fn vp9_names() -> Seq<ParamOp> {
    seq![
        ParamOp::SetName { id: "NukeVP9EncodingGroup", name: "Encoding Settings" },
        ParamOp::SetName { id: "NukeVP9Profile", name: "Profile" },
        ParamOp::SetName { id: "NukeAdvancedGroup", name: "Advanced Settings" },
        ParamOp::SetName { id: "NukeVP9KeyFrame", name: "Key Frame Distance" },
    ]
}

/// Renames the video, audio and encoder groups and parameters up to the rate control.
fn rename_general(b: &mut UIBuilder)
    ensures
        final(b).plugin_id == old(b).plugin_id,
        final(b).group_index == old(b).group_index,
        final(b).ops@ == old(b).ops@ + general_names(),
{
    let ghost start = b.ops@;
    b.set_param_name("ADBETopParamGroup", "Video");
    b.set_param_name("ADBEVideoTabGroup", "Video");
    b.set_param_name("ADBEBasicVideoGroup", "Basic Video Settings");
    b.set_param_name("ADBEVideoWidth", "Frame Width");
    b.set_param_name("ADBEVideoHeight", "Frame Height");
    b.set_param_name("ADBEVideoFPS", "Frame Rate");
    b.set_param_name("ADBEVideoAspect", "Pixel Aspect Ratio");
    b.set_param_name("ADBEVideoFieldType", "Field Order");
    b.set_param_name("ADBEVideoContainer", "File Extension");
    b.set_param_name("NukeVideoColorSpace", "Color Space & Bit Depth");
    b.set_param_name("ADBEAudioTabGroup", "Audio");
    b.set_param_name("ADBEBasicAudioGroup", "Basic Audio Settings");
    b.set_param_name("ADBEAudioRatePerSecond", "Sample Rate");
    b.set_param_name("ADBEAudioNumChannels", "Channels");
    b.set_param_name("ADBEAudioBitrate", "Audio Bitrate");
    b.set_param_name("NukeBitrateGroup", "Encoder Settings");
    b.set_param_name("ADBEVideoBitrateEncoding", "Rate Control");
    assert(b.ops@ =~= start + general_names());
}

/// Renames the preset, tuning, multipass, look-ahead, quantisation and B-frame parameters.
fn rename_tuning(b: &mut UIBuilder)
    ensures
        final(b).plugin_id == old(b).plugin_id,
        final(b).group_index == old(b).group_index,
        final(b).ops@ == old(b).ops@ + tuning_names(),
{
    let ghost start = b.ops@;
    b.set_param_name("NukePreset", "Preset");
    b.set_param_name("NukeTuning", "Tuning");
    b.set_param_name("NukeMultipass", "Multipass Mode");
    b.set_param_name("NukeLookAhead", "Look-ahead");
    b.set_param_name("NukeAdaptiveQuant", "Adaptive Quantisation");
    b.set_param_name("NukeBFrames", "B-Frames");
    b.set_param_name("NukeBFrameRef", "B-Frame as Reference");
    assert(b.ops@ =~= start + tuning_names());
}

/// Renames the AV1 groups and parameters.
fn rename_av1(b: &mut UIBuilder)
    ensures
        final(b).plugin_id == old(b).plugin_id,
        final(b).group_index == old(b).group_index,
        final(b).ops@ == old(b).ops@ + av1_names(),
{
    let ghost start = b.ops@;
    b.set_param_name("NukeAV1EncodingGroup", "Encoding Settings");
    b.set_param_name("NukeAV1Encoder", "Performance");
    b.set_param_name("NukeAV1Profile", "Profile");
    b.set_param_name("NukeAV1Level", "Level");
    b.set_param_name("NukeAV1Tier", "Tier");
    b.set_param_name("NukeAdvancedGroup", "Advanced Settings");
    b.set_param_name("NukeAV1KeyFrame", "Key Frame Distance");
    assert(b.ops@ =~= start + av1_names());
}

/// Renames the VP8 groups and parameters.
fn rename_vp8(b: &mut UIBuilder)
    ensures
        final(b).plugin_id == old(b).plugin_id,
        final(b).group_index == old(b).group_index,
        final(b).ops@ == old(b).ops@ + vp8_names(),
{
    let ghost start = b.ops@;
    b.set_param_name("NukeVP8EncodingGroup", "Encoding Settings");
    b.set_param_name("NukeAdvancedGroup", "Advanced Settings");
    b.set_param_name("NukeVP8KeyFrame", "Key Frame Distance");
    assert(b.ops@ =~= start + vp8_names());
}

/// Renames the VP9 groups and parameters.
fn rename_vp9(b: &mut UIBuilder)
    ensures
        final(b).plugin_id == old(b).plugin_id,
        final(b).group_index == old(b).group_index,
        final(b).ops@ == old(b).ops@ + vp9_names(),
{
    let ghost start = b.ops@;
    b.set_param_name("NukeVP9EncodingGroup", "Encoding Settings");
    b.set_param_name("NukeVP9Profile", "Profile");
    b.set_param_name("NukeAdvancedGroup", "Advanced Settings");
    b.set_param_name("NukeVP9KeyFrame", "Key Frame Distance");
    assert(b.ops@ =~= start + vp9_names());
}

/// The display names specific to an exporter file type.
pub open spec fn codec_names(file_type: u32) -> Seq<ParamOp> {
    if file_type == FILE_TYPE_AV1 {
        av1_names()
    } else if file_type == FILE_TYPE_VP8 {
        vp8_names()
    } else if file_type == FILE_TYPE_VP9 {
        vp9_names()
    } else {
        Seq::empty()
    }
}

/// The maximum bit rate is unused, and hidden, under the "Rate Control"
/// choices constant bit rate (0) and constant QP (1); every other parameter is
/// used under every choice.
pub open spec fn max_bitrate_unused(rate_control: Option<i32>) -> bool {
    rate_control == Some(0i32) || rate_control == Some(1i32)
}

/// All declarations made after the parameters changed: the display names, with
/// the given names of the two bit rate parameters, and the maximum bit rate
/// hidden or shown as `hide_max` says.
pub open spec fn post_process_layout(
    file_type: u32,
    target: &'static str,
    max: &'static str,
    hide_max: bool,
) -> Seq<ParamOp> {
    general_names() + seq![
        ParamOp::SetName { id: "ADBEVideoTargetBitrate", name: target },
        ParamOp::SetName { id: "ADBEVideoMaxBitrate", name: max },
        ParamOp::SetHidden { id: "ADBEVideoMaxBitrate", hidden: hide_max },
    ] + tuning_names() + codec_names(file_type)
}

/// Sets the display names of the exporter's groups and parameters after its
/// settings changed: the bit rate parameters are named after the "Rate Control"
/// choice (when it could be read, see `rate_control_labels`), and the maximum
/// bit rate is hidden when that choice does not use it and shown otherwise (see
/// `max_bitrate_unused`). Returns the two names used.
pub fn post_process_params(b: &mut UIBuilder, file_type: u32, rate_control: Option<i32>) -> (labels:
    (&'static str, &'static str))
    ensures
        (labels.0@, labels.1@) == (match rate_control {
            Some(0) => ("Target Bitrate [Mbps]"@, "Max Bitrate (Unused in CBR)"@),
            Some(1) => ("Constant QP (CQ / CQP Value)"@, "Max Bitrate (Unused in CQP)"@),
            Some(2) => ("Target Bitrate [Mbps]"@, "Max Bitrate [Mbps]"@),
            Some(3) => ("Target Quality (CQ Value)"@, "Max Bitrate [Mbps]"@),
            _ => ("Bitrate [Mbps]"@, "Max Bitrate [Mbps]"@),
        }),
        final(b).plugin_id == old(b).plugin_id,
        final(b).group_index == old(b).group_index,
        final(b).ops@ == old(b).ops@ + post_process_layout(
            file_type,
            labels.0,
            labels.1,
            max_bitrate_unused(rate_control),
        ),
{
    let ghost start = b.ops@;
    rename_general(b);
    let labels = rate_control_labels(rate_control);
    b.set_param_name("ADBEVideoTargetBitrate", labels.0);
    b.set_param_name("ADBEVideoMaxBitrate", labels.1);
    let hide_max = match rate_control {
        Some(0) | Some(1) => true,
        _ => false,
    };
    b.set_param_hidden("ADBEVideoMaxBitrate", hide_max);
    rename_tuning(b);
    let ghost common = b.ops@;
    if file_type == FILE_TYPE_AV1 {
        rename_av1(b);
    } else if file_type == FILE_TYPE_VP8 {
        rename_vp8(b);
    } else if file_type == FILE_TYPE_VP9 {
        rename_vp9(b);
    }
    assert(b.ops@ =~= common + codec_names(file_type));
    assert(b.ops@ =~= start + post_process_layout(file_type, labels.0, labels.1, hide_max));
    labels
}

/// The identifier a declaration introduces.
pub open spec fn declared_id(op: ParamOp) -> Option<&'static str> {
    match op {
        ParamOp::AddGroup { id, .. } => Some(id),
        ParamOp::AddParam { id, .. } => Some(id),
        _ => None,
    }
}

/// The identifier a declaration refers to: the enclosing group of a group or
/// parameter, the parameter of a choice, the renamed or hidden identifier.
pub open spec fn reference_of(op: ParamOp) -> Option<&'static str> {
    match op {
        ParamOp::AddGroup { parent, .. } => Some(parent),
        ParamOp::AddParam { parent, .. } => Some(parent),
        ParamOp::AddItem { param, .. } => Some(param),
        ParamOp::SetName { id, .. } => Some(id),
        ParamOp::SetHidden { id, .. } => Some(id),
        ParamOp::SetVersion(_) => None,
    }
}

/// Some declaration in `ops` introduces `id`.
pub open spec fn declares(ops: Seq<ParamOp>, id: &'static str) -> bool {
    exists|i: int| 0 <= i < ops.len() && #[trigger] declared_id(ops[i]) == Some(id)
}

/// Declaration `k` of `ops` refers to an identifier of `outer` or to one that
/// an earlier declaration introduced.
pub open spec fn refers_within(ops: Seq<ParamOp>, k: int, outer: Set<&'static str>) -> bool {
    match reference_of(ops[k]) {
        Some(r) => outer.contains(r) || declares(ops.take(k), r),
        None => true,
    }
}

/// Every declaration of `ops` refers to an identifier of `outer` or to one
/// introduced before it.
pub open spec fn scoped_in(ops: Seq<ParamOp>, outer: Set<&'static str>) -> bool {
    forall|k: int| 0 <= k < ops.len() ==> #[trigger] refers_within(ops, k, outer)
}

/// Two scoped lists make a scoped list when the second one's outer
/// identifiers are outer for the first or introduced by it.
pub proof fn lemma_scoped_concat(
    a: Seq<ParamOp>,
    b: Seq<ParamOp>,
    outer: Set<&'static str>,
    inner: Set<&'static str>,
)
    requires
        scoped_in(a, outer),
        scoped_in(b, inner),
        forall|x: &'static str| #[trigger] inner.contains(x) ==> outer.contains(x) || declares(a, x),
    ensures
        scoped_in(a + b, outer),
{
    let c = a + b;
    assert forall|k: int| 0 <= k < c.len() implies #[trigger] refers_within(c, k, outer) by {
        if k < a.len() {
            assert(refers_within(a, k, outer));
            assert(c[k] == a[k]);
            assert(c.take(k) =~= a.take(k));
        } else {
            let kb = k - a.len();
            assert(refers_within(b, kb, inner));
            assert(c[k] == b[kb]);
            match reference_of(b[kb]) {
                Some(r) => {
                    if inner.contains(r) {
                        if !outer.contains(r) {
                            let i = choose|i: int| 0 <= i < a.len() && #[trigger] declared_id(a[i]) == Some(r);
                            assert(c.take(k)[i] == a[i]);
                            assert(declared_id(c.take(k)[i]) == Some(r));
                        }
                    } else {
                        let i = choose|i: int|
                            0 <= i < b.take(kb).len() && #[trigger] declared_id(b.take(kb)[i]) == Some(r);
                        assert(c.take(k)[a.len() + i] == b[i]);
                        assert(declared_id(c.take(k)[a.len() + i]) == Some(r));
                    }
                },
                None => {},
            }
        }
    }
}

/// Every reference in frame size layout goes to an identifier declared before it or to one of the outer identifiers.
#[verifier::spinoff_prover]
pub proof fn lemma_frame_size_scoped(width: i32, height: i32)
    ensures
        scoped_in(frame_size_layout(width, height), Set::<&str>::empty().insert("ADBETopParamGroup")),
{
    let s = frame_size_layout(width, height);
    let outer = Set::<&str>::empty().insert("ADBETopParamGroup");
    assert forall|k: int| 0 <= k < s.len() implies #[trigger] refers_within(s, k, outer) by {
        if k == 0 {
        } else if k == 1 {
            assert(declared_id(s[0]) == Some("ADBEVideoTabGroup")); assert(s.take(1)[0] == s[0]);
        } else if k == 2 {
            assert(declared_id(s[1]) == Some("ADBEBasicVideoGroup")); assert(s.take(2)[1] == s[1]);
        } else if k == 3 {
            assert(declared_id(s[2]) == Some("ADBEVideoWidth")); assert(s.take(3)[2] == s[2]);
        } else if k == 4 {
            assert(declared_id(s[2]) == Some("ADBEVideoWidth")); assert(s.take(4)[2] == s[2]);
        } else if k == 5 {
            assert(declared_id(s[2]) == Some("ADBEVideoWidth")); assert(s.take(5)[2] == s[2]);
        } else if k == 6 {
            assert(declared_id(s[2]) == Some("ADBEVideoWidth")); assert(s.take(6)[2] == s[2]);
        } else if k == 7 {
            assert(declared_id(s[2]) == Some("ADBEVideoWidth")); assert(s.take(7)[2] == s[2]);
        } else if k == 8 {
            assert(declared_id(s[2]) == Some("ADBEVideoWidth")); assert(s.take(8)[2] == s[2]);
        } else if k == 9 {
            assert(declared_id(s[2]) == Some("ADBEVideoWidth")); assert(s.take(9)[2] == s[2]);
        } else if k == 10 {
            assert(declared_id(s[2]) == Some("ADBEVideoWidth")); assert(s.take(10)[2] == s[2]);
        } else if k == 11 {
            assert(declared_id(s[1]) == Some("ADBEBasicVideoGroup")); assert(s.take(11)[1] == s[1]);
        } else if k == 12 {
            assert(declared_id(s[11]) == Some("ADBEVideoHeight")); assert(s.take(12)[11] == s[11]);
        } else if k == 13 {
            assert(declared_id(s[11]) == Some("ADBEVideoHeight")); assert(s.take(13)[11] == s[11]);
        } else if k == 14 {
            assert(declared_id(s[11]) == Some("ADBEVideoHeight")); assert(s.take(14)[11] == s[11]);
        } else if k == 15 {
            assert(declared_id(s[11]) == Some("ADBEVideoHeight")); assert(s.take(15)[11] == s[11]);
        } else if k == 16 {
            assert(declared_id(s[11]) == Some("ADBEVideoHeight")); assert(s.take(16)[11] == s[11]);
        } else if k == 17 {
            assert(declared_id(s[11]) == Some("ADBEVideoHeight")); assert(s.take(17)[11] == s[11]);
        }
    }
}


/// Every reference in frame rate layout goes to an identifier declared before it or to one of the outer identifiers.
#[verifier::spinoff_prover]
pub proof fn lemma_frame_rate_scoped(frame_ticks: i64)
    ensures
        scoped_in(frame_rate_layout(frame_ticks), Set::<&str>::empty().insert("ADBEBasicVideoGroup")),
{
    let s = frame_rate_layout(frame_ticks);
    let outer = Set::<&str>::empty().insert("ADBEBasicVideoGroup");
    assert forall|k: int| 0 <= k < s.len() implies #[trigger] refers_within(s, k, outer) by {
        if k == 0 {
        } else if k == 1 {
            assert(declared_id(s[0]) == Some("ADBEVideoFPS")); assert(s.take(1)[0] == s[0]);
        } else if k == 2 {
            assert(declared_id(s[0]) == Some("ADBEVideoFPS")); assert(s.take(2)[0] == s[0]);
        } else if k == 3 {
            assert(declared_id(s[0]) == Some("ADBEVideoFPS")); assert(s.take(3)[0] == s[0]);
        } else if k == 4 {
            assert(declared_id(s[0]) == Some("ADBEVideoFPS")); assert(s.take(4)[0] == s[0]);
        } else if k == 5 {
            assert(declared_id(s[0]) == Some("ADBEVideoFPS")); assert(s.take(5)[0] == s[0]);
        } else if k == 6 {
            assert(declared_id(s[0]) == Some("ADBEVideoFPS")); assert(s.take(6)[0] == s[0]);
        } else if k == 7 {
            assert(declared_id(s[0]) == Some("ADBEVideoFPS")); assert(s.take(7)[0] == s[0]);
        } else if k == 8 {
            assert(declared_id(s[0]) == Some("ADBEVideoFPS")); assert(s.take(8)[0] == s[0]);
        } else if k == 9 {
            assert(declared_id(s[0]) == Some("ADBEVideoFPS")); assert(s.take(9)[0] == s[0]);
        } else if k == 10 {
            assert(declared_id(s[0]) == Some("ADBEVideoFPS")); assert(s.take(10)[0] == s[0]);
        } else if k == 11 {
            assert(declared_id(s[0]) == Some("ADBEVideoFPS")); assert(s.take(11)[0] == s[0]);
        } else if k == 12 {
            assert(declared_id(s[0]) == Some("ADBEVideoFPS")); assert(s.take(12)[0] == s[0]);
        } else if k == 13 {
            assert(declared_id(s[0]) == Some("ADBEVideoFPS")); assert(s.take(13)[0] == s[0]);
        } else if k == 14 {
            assert(declared_id(s[0]) == Some("ADBEVideoFPS")); assert(s.take(14)[0] == s[0]);
        } else if k == 15 {
            assert(declared_id(s[0]) == Some("ADBEVideoFPS")); assert(s.take(15)[0] == s[0]);
        } else if k == 16 {
            assert(declared_id(s[0]) == Some("ADBEVideoFPS")); assert(s.take(16)[0] == s[0]);
        }
    }
}

/// Every reference in aspect and format layout goes to an identifier declared before it or to one of the outer identifiers.
#[verifier::spinoff_prover]
pub proof fn lemma_aspect_and_format_scoped()
    ensures
        scoped_in(aspect_and_format_layout(), Set::<&str>::empty().insert("ADBEBasicVideoGroup")),
{
    let s = aspect_and_format_layout();
    let outer = Set::<&str>::empty().insert("ADBEBasicVideoGroup");
    assert forall|k: int| 0 <= k < s.len() implies #[trigger] refers_within(s, k, outer) by {
        if k == 0 {
        } else if k == 1 {
            assert(declared_id(s[0]) == Some("ADBEVideoAspect")); assert(s.take(1)[0] == s[0]);
        } else if k == 2 {
            assert(declared_id(s[0]) == Some("ADBEVideoAspect")); assert(s.take(2)[0] == s[0]);
        } else if k == 3 {
            assert(declared_id(s[0]) == Some("ADBEVideoAspect")); assert(s.take(3)[0] == s[0]);
        } else if k == 4 {
            assert(declared_id(s[0]) == Some("ADBEVideoAspect")); assert(s.take(4)[0] == s[0]);
        } else if k == 5 {
            assert(declared_id(s[0]) == Some("ADBEVideoAspect")); assert(s.take(5)[0] == s[0]);
        } else if k == 6 {
            assert(declared_id(s[0]) == Some("ADBEVideoAspect")); assert(s.take(6)[0] == s[0]);
        } else if k == 7 {
            assert(declared_id(s[0]) == Some("ADBEVideoAspect")); assert(s.take(7)[0] == s[0]);
        } else if k == 8 {
            assert(declared_id(s[0]) == Some("ADBEVideoAspect")); assert(s.take(8)[0] == s[0]);
        } else if k == 9 {
            assert(declared_id(s[0]) == Some("ADBEVideoAspect")); assert(s.take(9)[0] == s[0]);
        } else if k == 10 {
        } else if k == 11 {
            assert(declared_id(s[10]) == Some("ADBEVideoFieldType")); assert(s.take(11)[10] == s[10]);
        } else if k == 12 {
        } else if k == 13 {
            assert(declared_id(s[12]) == Some("ADBEVideoContainer")); assert(s.take(13)[12] == s[12]);
        } else if k == 14 {
            assert(declared_id(s[12]) == Some("ADBEVideoContainer")); assert(s.take(14)[12] == s[12]);
        } else if k == 15 {
            assert(declared_id(s[12]) == Some("ADBEVideoContainer")); assert(s.take(15)[12] == s[12]);
        } else if k == 16 {
            assert(declared_id(s[12]) == Some("ADBEVideoContainer")); assert(s.take(16)[12] == s[12]);
        } else if k == 17 {
            assert(declared_id(s[12]) == Some("ADBEVideoContainer")); assert(s.take(17)[12] == s[12]);
        } else if k == 18 {
            assert(declared_id(s[12]) == Some("ADBEVideoContainer")); assert(s.take(18)[12] == s[12]);
        } else if k == 19 {
            assert(declared_id(s[12]) == Some("ADBEVideoContainer")); assert(s.take(19)[12] == s[12]);
        } else if k == 20 {
        } else if k == 21 {
            assert(declared_id(s[20]) == Some("NukeVideoColorSpace")); assert(s.take(21)[20] == s[20]);
        } else if k == 22 {
            assert(declared_id(s[20]) == Some("NukeVideoColorSpace")); assert(s.take(22)[20] == s[20]);
        } else if k == 23 {
            assert(declared_id(s[20]) == Some("NukeVideoColorSpace")); assert(s.take(23)[20] == s[20]);
        }
    }
}

/// Every reference in audio layout goes to an identifier declared before it or to one of the outer identifiers.
#[verifier::spinoff_prover]
pub proof fn lemma_audio_scoped()
    ensures
        scoped_in(audio_layout(), Set::<&str>::empty().insert("ADBETopParamGroup")),
{
    let s = audio_layout();
    let outer = Set::<&str>::empty().insert("ADBETopParamGroup");
    assert forall|k: int| 0 <= k < s.len() implies #[trigger] refers_within(s, k, outer) by {
        if k == 0 {
        } else if k == 1 {
            assert(declared_id(s[0]) == Some("ADBEAudioTabGroup")); assert(s.take(1)[0] == s[0]);
        } else if k == 2 {
            assert(declared_id(s[1]) == Some("ADBEBasicAudioGroup")); assert(s.take(2)[1] == s[1]);
        } else if k == 3 {
            assert(declared_id(s[2]) == Some("ADBEAudioRatePerSecond")); assert(s.take(3)[2] == s[2]);
        } else if k == 4 {
            assert(declared_id(s[2]) == Some("ADBEAudioRatePerSecond")); assert(s.take(4)[2] == s[2]);
        } else if k == 5 {
            assert(declared_id(s[2]) == Some("ADBEAudioRatePerSecond")); assert(s.take(5)[2] == s[2]);
        } else if k == 6 {
            assert(declared_id(s[2]) == Some("ADBEAudioRatePerSecond")); assert(s.take(6)[2] == s[2]);
        } else if k == 7 {
            assert(declared_id(s[2]) == Some("ADBEAudioRatePerSecond")); assert(s.take(7)[2] == s[2]);
        } else if k == 8 {
            assert(declared_id(s[1]) == Some("ADBEBasicAudioGroup")); assert(s.take(8)[1] == s[1]);
        } else if k == 9 {
            assert(declared_id(s[8]) == Some("ADBEAudioNumChannels")); assert(s.take(9)[8] == s[8]);
        } else if k == 10 {
            assert(declared_id(s[8]) == Some("ADBEAudioNumChannels")); assert(s.take(10)[8] == s[8]);
        } else if k == 11 {
            assert(declared_id(s[8]) == Some("ADBEAudioNumChannels")); assert(s.take(11)[8] == s[8]);
        } else if k == 12 {
            assert(declared_id(s[1]) == Some("ADBEBasicAudioGroup")); assert(s.take(12)[1] == s[1]);
        } else if k == 13 {
            assert(declared_id(s[12]) == Some("ADBEAudioBitrate")); assert(s.take(13)[12] == s[12]);
        } else if k == 14 {
            assert(declared_id(s[12]) == Some("ADBEAudioBitrate")); assert(s.take(14)[12] == s[12]);
        } else if k == 15 {
            assert(declared_id(s[12]) == Some("ADBEAudioBitrate")); assert(s.take(15)[12] == s[12]);
        } else if k == 16 {
            assert(declared_id(s[12]) == Some("ADBEAudioBitrate")); assert(s.take(16)[12] == s[12]);
        } else if k == 17 {
            assert(declared_id(s[12]) == Some("ADBEAudioBitrate")); assert(s.take(17)[12] == s[12]);
        } else if k == 18 {
            assert(declared_id(s[12]) == Some("ADBEAudioBitrate")); assert(s.take(18)[12] == s[12]);
        }
    }
}

/// Every reference in encoder layout goes to an identifier declared before it or to one of the outer identifiers.
#[verifier::spinoff_prover]
pub proof fn lemma_encoder_scoped()
    ensures
        scoped_in(encoder_layout(), Set::<&str>::empty().insert("ADBEVideoTabGroup")),
{
    let s = encoder_layout();
    let outer = Set::<&str>::empty().insert("ADBEVideoTabGroup");
    assert forall|k: int| 0 <= k < s.len() implies #[trigger] refers_within(s, k, outer) by {
        if k == 0 {
        } else if k == 1 {
            assert(declared_id(s[0]) == Some("NukeBitrateGroup")); assert(s.take(1)[0] == s[0]);
        } else if k == 2 {
            assert(declared_id(s[1]) == Some("ADBEVideoBitrateEncoding")); assert(s.take(2)[1] == s[1]);
        } else if k == 3 {
            assert(declared_id(s[1]) == Some("ADBEVideoBitrateEncoding")); assert(s.take(3)[1] == s[1]);
        } else if k == 4 {
            assert(declared_id(s[1]) == Some("ADBEVideoBitrateEncoding")); assert(s.take(4)[1] == s[1]);
        } else if k == 5 {
            assert(declared_id(s[1]) == Some("ADBEVideoBitrateEncoding")); assert(s.take(5)[1] == s[1]);
        } else if k == 6 {
            assert(declared_id(s[0]) == Some("NukeBitrateGroup")); assert(s.take(6)[0] == s[0]);
        } else if k == 7 {
            assert(declared_id(s[0]) == Some("NukeBitrateGroup")); assert(s.take(7)[0] == s[0]);
        } else if k == 8 {
            assert(declared_id(s[0]) == Some("NukeBitrateGroup")); assert(s.take(8)[0] == s[0]);
        } else if k == 9 {
            assert(declared_id(s[8]) == Some("NukePreset")); assert(s.take(9)[8] == s[8]);
        } else if k == 10 {
            assert(declared_id(s[8]) == Some("NukePreset")); assert(s.take(10)[8] == s[8]);
        } else if k == 11 {
            assert(declared_id(s[8]) == Some("NukePreset")); assert(s.take(11)[8] == s[8]);
        } else if k == 12 {
            assert(declared_id(s[8]) == Some("NukePreset")); assert(s.take(12)[8] == s[8]);
        } else if k == 13 {
            assert(declared_id(s[8]) == Some("NukePreset")); assert(s.take(13)[8] == s[8]);
        } else if k == 14 {
            assert(declared_id(s[8]) == Some("NukePreset")); assert(s.take(14)[8] == s[8]);
        } else if k == 15 {
            assert(declared_id(s[8]) == Some("NukePreset")); assert(s.take(15)[8] == s[8]);
        }
    }
}

/// Every reference in encoder tuning layout goes to an identifier declared before it or to one of the outer identifiers.
#[verifier::spinoff_prover]
pub proof fn lemma_encoder_tuning_scoped()
    ensures
        scoped_in(encoder_tuning_layout(), Set::<&str>::empty().insert("NukeBitrateGroup")),
{
    let s = encoder_tuning_layout();
    let outer = Set::<&str>::empty().insert("NukeBitrateGroup");
    assert forall|k: int| 0 <= k < s.len() implies #[trigger] refers_within(s, k, outer) by {
        if k == 0 {
        } else if k == 1 {
            assert(declared_id(s[0]) == Some("NukeTuning")); assert(s.take(1)[0] == s[0]);
        } else if k == 2 {
            assert(declared_id(s[0]) == Some("NukeTuning")); assert(s.take(2)[0] == s[0]);
        } else if k == 3 {
            assert(declared_id(s[0]) == Some("NukeTuning")); assert(s.take(3)[0] == s[0]);
        } else if k == 4 {
        } else if k == 5 {
            assert(declared_id(s[4]) == Some("NukeMultipass")); assert(s.take(5)[4] == s[4]);
        } else if k == 6 {
            assert(declared_id(s[4]) == Some("NukeMultipass")); assert(s.take(6)[4] == s[4]);
        } else if k == 7 {
            assert(declared_id(s[4]) == Some("NukeMultipass")); assert(s.take(7)[4] == s[4]);
        } else if k == 8 {
        } else if k == 9 {
        } else if k == 10 {
        } else if k == 11 {
        } else if k == 12 {
            assert(declared_id(s[11]) == Some("NukeBFrameRef")); assert(s.take(12)[11] == s[11]);
        } else if k == 13 {
            assert(declared_id(s[11]) == Some("NukeBFrameRef")); assert(s.take(13)[11] == s[11]);
        } else if k == 14 {
            assert(declared_id(s[11]) == Some("NukeBFrameRef")); assert(s.take(14)[11] == s[11]);
        }
    }
}

/// Every reference in av1 layout goes to an identifier declared before it or to one of the outer identifiers.
#[verifier::spinoff_prover]
pub proof fn lemma_av1_scoped()
    ensures
        scoped_in(av1_layout(), Set::<&str>::empty().insert("ADBEVideoTabGroup")),
{
    let s = av1_layout();
    let outer = Set::<&str>::empty().insert("ADBEVideoTabGroup");
    assert forall|k: int| 0 <= k < s.len() implies #[trigger] refers_within(s, k, outer) by {
        if k == 0 {
        } else if k == 1 {
            assert(declared_id(s[0]) == Some("NukeAV1EncodingGroup")); assert(s.take(1)[0] == s[0]);
        } else if k == 2 {
            assert(declared_id(s[1]) == Some("NukeAV1Encoder")); assert(s.take(2)[1] == s[1]);
        } else if k == 3 {
            assert(declared_id(s[1]) == Some("NukeAV1Encoder")); assert(s.take(3)[1] == s[1]);
        } else if k == 4 {
            assert(declared_id(s[1]) == Some("NukeAV1Encoder")); assert(s.take(4)[1] == s[1]);
        } else if k == 5 {
            assert(declared_id(s[1]) == Some("NukeAV1Encoder")); assert(s.take(5)[1] == s[1]);
        } else if k == 6 {
            assert(declared_id(s[1]) == Some("NukeAV1Encoder")); assert(s.take(6)[1] == s[1]);
        } else if k == 7 {
            assert(declared_id(s[0]) == Some("NukeAV1EncodingGroup")); assert(s.take(7)[0] == s[0]);
        } else if k == 8 {
            assert(declared_id(s[7]) == Some("NukeAV1Profile")); assert(s.take(8)[7] == s[7]);
        } else if k == 9 {
            assert(declared_id(s[7]) == Some("NukeAV1Profile")); assert(s.take(9)[7] == s[7]);
        } else if k == 10 {
            assert(declared_id(s[7]) == Some("NukeAV1Profile")); assert(s.take(10)[7] == s[7]);
        } else if k == 11 {
            assert(declared_id(s[0]) == Some("NukeAV1EncodingGroup")); assert(s.take(11)[0] == s[0]);
        } else if k == 12 {
            assert(declared_id(s[11]) == Some("NukeAV1Level")); assert(s.take(12)[11] == s[11]);
        } else if k == 13 {
            assert(declared_id(s[11]) == Some("NukeAV1Level")); assert(s.take(13)[11] == s[11]);
        } else if k == 14 {
            assert(declared_id(s[11]) == Some("NukeAV1Level")); assert(s.take(14)[11] == s[11]);
        } else if k == 15 {
            assert(declared_id(s[11]) == Some("NukeAV1Level")); assert(s.take(15)[11] == s[11]);
        } else if k == 16 {
            assert(declared_id(s[0]) == Some("NukeAV1EncodingGroup")); assert(s.take(16)[0] == s[0]);
        } else if k == 17 {
            assert(declared_id(s[16]) == Some("NukeAV1Tier")); assert(s.take(17)[16] == s[16]);
        } else if k == 18 {
            assert(declared_id(s[16]) == Some("NukeAV1Tier")); assert(s.take(18)[16] == s[16]);
        } else if k == 19 {
        } else if k == 20 {
            assert(declared_id(s[19]) == Some("NukeAdvancedGroup")); assert(s.take(20)[19] == s[19]);
        }
    }
}

/// Every reference in vp8 layout goes to an identifier declared before it or to one of the outer identifiers.
#[verifier::spinoff_prover]
pub proof fn lemma_vp8_scoped()
    ensures
        scoped_in(vp8_layout(), Set::<&str>::empty().insert("ADBEVideoTabGroup")),
{
    let s = vp8_layout();
    let outer = Set::<&str>::empty().insert("ADBEVideoTabGroup");
    assert forall|k: int| 0 <= k < s.len() implies #[trigger] refers_within(s, k, outer) by {
        if k == 0 {
        } else if k == 1 {
        } else if k == 2 {
            assert(declared_id(s[1]) == Some("NukeAdvancedGroup")); assert(s.take(2)[1] == s[1]);
        }
    }
}

/// Every reference in vp9 layout goes to an identifier declared before it or to one of the outer identifiers.
#[verifier::spinoff_prover]
pub proof fn lemma_vp9_scoped()
    ensures
        scoped_in(vp9_layout(), Set::<&str>::empty().insert("ADBEVideoTabGroup")),
{
    let s = vp9_layout();
    let outer = Set::<&str>::empty().insert("ADBEVideoTabGroup");
    assert forall|k: int| 0 <= k < s.len() implies #[trigger] refers_within(s, k, outer) by {
        if k == 0 {
        } else if k == 1 {
            assert(declared_id(s[0]) == Some("NukeVP9EncodingGroup")); assert(s.take(1)[0] == s[0]);
        } else if k == 2 {
            assert(declared_id(s[1]) == Some("NukeVP9Profile")); assert(s.take(2)[1] == s[1]);
        } else if k == 3 {
            assert(declared_id(s[1]) == Some("NukeVP9Profile")); assert(s.take(3)[1] == s[1]);
        } else if k == 4 {
            assert(declared_id(s[1]) == Some("NukeVP9Profile")); assert(s.take(4)[1] == s[1]);
        } else if k == 5 {
            assert(declared_id(s[1]) == Some("NukeVP9Profile")); assert(s.take(5)[1] == s[1]);
        } else if k == 6 {
        } else if k == 7 {
            assert(declared_id(s[6]) == Some("NukeAdvancedGroup")); assert(s.take(7)[6] == s[6]);
        }
    }
}

/// The outer identifier of the default parameter set: the host's top group.
pub open spec fn top_group_only() -> Set<&'static str> {
    Set::<&str>::empty().insert("ADBETopParamGroup")
}

/// Every declaration of an exporter's default parameter set refers to the
/// host's top group or to a group or parameter declared before it: groups are
/// declared before their contents, and parameters before their choices.
pub proof fn law_default_layout_is_scoped(
    file_type: u32,
    width: i32,
    height: i32,
    frame_ticks: i64,
)
    ensures
        scoped_in(default_layout(file_type, width, height, frame_ticks), top_group_only()),
{
    let top = top_group_only();
    let s1 = frame_size_layout(width, height);
    lemma_frame_size_scoped(width, height);
    assert(Set::<&str>::empty().insert("ADBETopParamGroup") =~= top);
    let s2 = s1 + frame_rate_layout(frame_ticks);
    lemma_frame_rate_scoped(frame_ticks);
    assert(declared_id(s1[1]) == Some("ADBEBasicVideoGroup"));
    lemma_scoped_concat(s1, frame_rate_layout(frame_ticks), top, Set::<&str>::empty().insert("ADBEBasicVideoGroup"));
    let s3 = s2 + aspect_and_format_layout();
    lemma_aspect_and_format_scoped();
    assert(s2[1] == s1[1]);
    lemma_scoped_concat(s2, aspect_and_format_layout(), top, Set::<&str>::empty().insert("ADBEBasicVideoGroup"));
    let s4 = s3 + audio_layout();
    lemma_audio_scoped();
    lemma_scoped_concat(s3, audio_layout(), top, top);
    let s5 = s4 + encoder_layout();
    lemma_encoder_scoped();
    assert(declared_id(s1[0]) == Some("ADBEVideoTabGroup"));
    assert(s2[0] == s1[0] && s3[0] == s1[0] && s4[0] == s1[0]);
    lemma_scoped_concat(s4, encoder_layout(), top, Set::<&str>::empty().insert("ADBEVideoTabGroup"));
    let s6 = s5 + encoder_tuning_layout();
    lemma_encoder_tuning_scoped();
    assert(declared_id(encoder_layout()[0]) == Some("NukeBitrateGroup"));
    assert(s5[s4.len() as int] == encoder_layout()[0]);
    lemma_scoped_concat(s5, encoder_tuning_layout(), top, Set::<&str>::empty().insert("NukeBitrateGroup"));
    assert(s5[0] == s1[0]);
    assert(s6[0] == s1[0]);
    let vt = Set::<&str>::empty().insert("ADBEVideoTabGroup");
    let codec = codec_layout(file_type);
    if file_type == FILE_TYPE_AV1 {
        lemma_av1_scoped();
        lemma_scoped_concat(s6, codec, top, vt);
    } else if file_type == FILE_TYPE_VP8 {
        lemma_vp8_scoped();
        lemma_scoped_concat(s6, codec, top, vt);
    } else if file_type == FILE_TYPE_VP9 {
        lemma_vp9_scoped();
        lemma_scoped_concat(s6, codec, top, vt);
    } else {
        assert(s6 + codec =~= s6);
    }
    let s7 = s6 + codec;
    let last = seq![ParamOp::SetVersion(1)];
    assert(scoped_in(last, top)) by {
        assert forall|k: int| 0 <= k < last.len() implies #[trigger] refers_within(last, k, top) by {
            assert(last[k] == ParamOp::SetVersion(1));
        }
    }
    lemma_scoped_concat(s7, last, top, top);
    assert(default_layout(file_type, width, height, frame_ticks) =~= s7 + last);
}


/// `v` lies between `lo` and `hi`, all three of one kind (ratios with
/// positive denominators, compared by value).
pub open spec fn value_within(v: ParamValue, lo: ParamValue, hi: ParamValue) -> bool {
    match (v, lo, hi) {
        (ParamValue::Int(a), ParamValue::Int(b), ParamValue::Int(c)) => b <= a <= c,
        (ParamValue::Time(a), ParamValue::Time(b), ParamValue::Time(c)) => b <= a <= c,
        (ParamValue::Float(a), ParamValue::Float(b), ParamValue::Float(c)) => b <= a <= c,
        (ParamValue::Ratio(n, d), ParamValue::Ratio(n1, d1), ParamValue::Ratio(n2, d2)) => d > 0 && d1
            > 0 && d2 > 0 && n1 * d <= n * d1 && n * d2 <= n2 * d,
        _ => false,
    }
}

/// `op` is a choice with value `v` for parameter `id`.
pub open spec fn item_for(op: ParamOp, id: &'static str, v: ParamValue) -> bool {
    match op {
        ParamOp::AddItem { param, value, .. } => param == id && value == v,
        _ => false,
    }
}

/// Some declaration after `k` in `ops` is a choice with value `v` for `id`.
pub open spec fn offers_after(ops: Seq<ParamOp>, k: int, id: &'static str, v: ParamValue) -> bool {
    exists|j: int| k < j < ops.len() && #[trigger] item_for(ops[j], id, v)
}

/// Declaration `k` of `ops`, when it is a parameter, has a valid default: a
/// ranged parameter's default lies in its range, a choice parameter's default
/// is one of the choices declared after it; on/off parameters need neither.
pub open spec fn default_valid(ops: Seq<ParamOp>, k: int) -> bool {
    match ops[k] {
        ParamOp::AddParam { id, value, range, .. } => match range {
            Some((lo, hi)) => value_within(value, lo, hi),
            None => value is Bool || offers_after(ops, k, id, value),
        },
        _ => true,
    }
}

/// Every parameter of `ops` has a valid default.
pub open spec fn defaults_valid(ops: Seq<ParamOp>) -> bool {
    forall|k: int| 0 <= k < ops.len() ==> #[trigger] default_valid(ops, k)
}

/// Two lists whose parameters have valid defaults make such a list.
pub proof fn lemma_defaults_concat(a: Seq<ParamOp>, b: Seq<ParamOp>)
    requires
        defaults_valid(a),
        defaults_valid(b),
    ensures
        defaults_valid(a + b),
{
    let c = a + b;
    assert forall|k: int| 0 <= k < c.len() implies #[trigger] default_valid(c, k) by {
        if k < a.len() {
            assert(default_valid(a, k));
            assert(c[k] == a[k]);
            match a[k] {
                ParamOp::AddParam { id, value, range, .. } => {
                    if range is None && !(value is Bool) {
                        assert(offers_after(a, k, id, value));
                        let j = choose|j: int| k < j < a.len() && #[trigger] item_for(a[j], id, value);
                        assert(c[j] == a[j]);
                        assert(item_for(c[j], id, value));
                    }
                },
                _ => {},
            }
        } else {
            let kb = k - a.len();
            assert(default_valid(b, kb));
            assert(c[k] == b[kb]);
            match b[kb] {
                ParamOp::AddParam { id, value, range, .. } => {
                    if range is None && !(value is Bool) {
                        assert(offers_after(b, kb, id, value));
                        let j = choose|j: int| kb < j < b.len() && #[trigger] item_for(b[j], id, value);
                        assert(c[a.len() + j] == b[j]);
                        assert(item_for(c[a.len() + j], id, value));
                    }
                },
                _ => {},
            }
        }
    }
}

/// Every default in the frame size layout lies in its range or is one of its choices.
#[verifier::spinoff_prover]
pub proof fn lemma_frame_size_defaults(width: i32, height: i32)
    requires
        16 <= width <= 8192,
        16 <= height <= 8192,
    ensures
        defaults_valid(frame_size_layout(width, height)),
{
    let s = frame_size_layout(width, height);
    assert forall|k: int| 0 <= k < s.len() implies #[trigger] default_valid(s, k) by {
        if k == 0 {
        } else if k == 1 {
        } else if k == 2 {
        } else if k == 3 {
        } else if k == 4 {
        } else if k == 5 {
        } else if k == 6 {
        } else if k == 7 {
        } else if k == 8 {
        } else if k == 9 {
        } else if k == 10 {
        } else if k == 11 {
        } else if k == 12 {
        } else if k == 13 {
        } else if k == 14 {
        } else if k == 15 {
        } else if k == 16 {
        } else if k == 17 {
        }
    }
}

/// Every default in the frame rate layout lies in its range or is one of its choices.
#[verifier::spinoff_prover]
pub proof fn lemma_frame_rate_defaults(frame_ticks: i64)
    requires
        frame_rate_choice(frame_ticks),
    ensures
        defaults_valid(frame_rate_layout(frame_ticks)),
{
    let s = frame_rate_layout(frame_ticks);
    assert forall|k: int| 0 <= k < s.len() implies #[trigger] default_valid(s, k) by {
        if k == 0 {
            let v = ParamValue::Time(frame_ticks);
            if frame_ticks == 10594627200 { assert(item_for(s[1], "ADBEVideoFPS", v)); }
            else if frame_ticks == 10584000000 { assert(item_for(s[2], "ADBEVideoFPS", v)); }
            else if frame_ticks == 10160640000 { assert(item_for(s[3], "ADBEVideoFPS", v)); }
            else if frame_ticks == 8475283200 { assert(item_for(s[4], "ADBEVideoFPS", v)); }
            else if frame_ticks == 8467200000 { assert(item_for(s[5], "ADBEVideoFPS", v)); }
            else if frame_ticks == 5080320000 { assert(item_for(s[6], "ADBEVideoFPS", v)); }
            else if frame_ticks == 4237641600 { assert(item_for(s[7], "ADBEVideoFPS", v)); }
            else if frame_ticks == 4233600000 { assert(item_for(s[8], "ADBEVideoFPS", v)); }
            else if frame_ticks == 2822400000 { assert(item_for(s[9], "ADBEVideoFPS", v)); }
            else if frame_ticks == 2540160000 { assert(item_for(s[10], "ADBEVideoFPS", v)); }
            else if frame_ticks == 2118820800 { assert(item_for(s[11], "ADBEVideoFPS", v)); }
            else if frame_ticks == 2116800000 { assert(item_for(s[12], "ADBEVideoFPS", v)); }
            else if frame_ticks == 1764000000 { assert(item_for(s[13], "ADBEVideoFPS", v)); }
            else if frame_ticks == 1058400000 { assert(item_for(s[14], "ADBEVideoFPS", v)); }
            else if frame_ticks == 846720000 { assert(item_for(s[15], "ADBEVideoFPS", v)); }
            else { assert(item_for(s[16], "ADBEVideoFPS", v)); }
        } else if k == 1 {
        } else if k == 2 {
        } else if k == 3 {
        } else if k == 4 {
        } else if k == 5 {
        } else if k == 6 {
        } else if k == 7 {
        } else if k == 8 {
        } else if k == 9 {
        } else if k == 10 {
        } else if k == 11 {
        } else if k == 12 {
        } else if k == 13 {
        } else if k == 14 {
        } else if k == 15 {
        } else if k == 16 {
        }
    }
}

/// Every default in the aspect and format layout lies in its range or is one of its choices.
#[verifier::spinoff_prover]
pub proof fn lemma_aspect_and_format_defaults()
    ensures
        defaults_valid(aspect_and_format_layout()),
{
    let s = aspect_and_format_layout();
    assert forall|k: int| 0 <= k < s.len() implies #[trigger] default_valid(s, k) by {
        if k == 0 {
        } else if k == 1 {
        } else if k == 2 {
        } else if k == 3 {
        } else if k == 4 {
        } else if k == 5 {
        } else if k == 6 {
        } else if k == 7 {
        } else if k == 8 {
        } else if k == 9 {
        } else if k == 10 {
            assert(item_for(s[11], "ADBEVideoFieldType", ParamValue::Int(0)));
        } else if k == 11 {
        } else if k == 12 {
            assert(item_for(s[15], "ADBEVideoContainer", ParamValue::Int(2)));
        } else if k == 13 {
        } else if k == 14 {
        } else if k == 15 {
        } else if k == 16 {
        } else if k == 17 {
        } else if k == 18 {
        } else if k == 19 {
        } else if k == 20 {
            assert(item_for(s[21], "NukeVideoColorSpace", ParamValue::Int(0)));
        } else if k == 21 {
        } else if k == 22 {
        } else if k == 23 {
        }
    }
}

/// Every default in the audio layout lies in its range or is one of its choices.
#[verifier::spinoff_prover]
pub proof fn lemma_audio_defaults()
    ensures
        defaults_valid(audio_layout()),
{
    let s = audio_layout();
    assert forall|k: int| 0 <= k < s.len() implies #[trigger] default_valid(s, k) by {
        if k == 0 {
        } else if k == 1 {
        } else if k == 2 {
            assert(item_for(s[5], "ADBEAudioRatePerSecond", ParamValue::Float(48000000)));
        } else if k == 3 {
        } else if k == 4 {
        } else if k == 5 {
        } else if k == 6 {
        } else if k == 7 {
        } else if k == 8 {
            assert(item_for(s[10], "ADBEAudioNumChannels", ParamValue::Int(2)));
        } else if k == 9 {
        } else if k == 10 {
        } else if k == 11 {
        } else if k == 12 {
            assert(item_for(s[14], "ADBEAudioBitrate", ParamValue::Int(1)));
        } else if k == 13 {
        } else if k == 14 {
        } else if k == 15 {
        } else if k == 16 {
        } else if k == 17 {
        } else if k == 18 {
        }
    }
}

/// Every default in the encoder layout lies in its range or is one of its choices.
#[verifier::spinoff_prover]
pub proof fn lemma_encoder_defaults()
    ensures
        defaults_valid(encoder_layout()),
{
    let s = encoder_layout();
    assert forall|k: int| 0 <= k < s.len() implies #[trigger] default_valid(s, k) by {
        if k == 0 {
        } else if k == 1 {
            assert(item_for(s[2], "ADBEVideoBitrateEncoding", ParamValue::Int(0)));
        } else if k == 2 {
        } else if k == 3 {
        } else if k == 4 {
        } else if k == 5 {
        } else if k == 6 {
        } else if k == 7 {
        } else if k == 8 {
            assert(item_for(s[13], "NukePreset", ParamValue::Int(4)));
        } else if k == 9 {
        } else if k == 10 {
        } else if k == 11 {
        } else if k == 12 {
        } else if k == 13 {
        } else if k == 14 {
        } else if k == 15 {
        }
    }
}

/// Every default in the encoder tuning layout lies in its range or is one of its choices.
#[verifier::spinoff_prover]
pub proof fn lemma_encoder_tuning_defaults()
    ensures
        defaults_valid(encoder_tuning_layout()),
{
    let s = encoder_tuning_layout();
    assert forall|k: int| 0 <= k < s.len() implies #[trigger] default_valid(s, k) by {
        if k == 0 {
            assert(item_for(s[1], "NukeTuning", ParamValue::Int(0)));
        } else if k == 1 {
        } else if k == 2 {
        } else if k == 3 {
        } else if k == 4 {
            assert(item_for(s[6], "NukeMultipass", ParamValue::Int(1)));
        } else if k == 5 {
        } else if k == 6 {
        } else if k == 7 {
        } else if k == 8 {
        } else if k == 9 {
        } else if k == 10 {
        } else if k == 11 {
            assert(item_for(s[12], "NukeBFrameRef", ParamValue::Int(0)));
        } else if k == 12 {
        } else if k == 13 {
        } else if k == 14 {
        }
    }
}

/// Every default in the av1 layout lies in its range or is one of its choices.
#[verifier::spinoff_prover]
pub proof fn lemma_av1_defaults()
    ensures
        defaults_valid(av1_layout()),
{
    let s = av1_layout();
    assert forall|k: int| 0 <= k < s.len() implies #[trigger] default_valid(s, k) by {
        if k == 0 {
        } else if k == 1 {
            assert(item_for(s[2], "NukeAV1Encoder", ParamValue::Int(0)));
        } else if k == 2 {
        } else if k == 3 {
        } else if k == 4 {
        } else if k == 5 {
        } else if k == 6 {
        } else if k == 7 {
            assert(item_for(s[8], "NukeAV1Profile", ParamValue::Int(0)));
        } else if k == 8 {
        } else if k == 9 {
        } else if k == 10 {
        } else if k == 11 {
            assert(item_for(s[12], "NukeAV1Level", ParamValue::Int(0)));
        } else if k == 12 {
        } else if k == 13 {
        } else if k == 14 {
        } else if k == 15 {
        } else if k == 16 {
            assert(item_for(s[17], "NukeAV1Tier", ParamValue::Int(0)));
        } else if k == 17 {
        } else if k == 18 {
        } else if k == 19 {
        } else if k == 20 {
        }
    }
}

/// Every default in the vp8 layout lies in its range or is one of its choices.
#[verifier::spinoff_prover]
pub proof fn lemma_vp8_defaults()
    ensures
        defaults_valid(vp8_layout()),
{
    let s = vp8_layout();
    assert forall|k: int| 0 <= k < s.len() implies #[trigger] default_valid(s, k) by {
        if k == 0 {
        } else if k == 1 {
        } else if k == 2 {
        }
    }
}

/// Every default in the vp9 layout lies in its range or is one of its choices.
#[verifier::spinoff_prover]
pub proof fn lemma_vp9_defaults()
    ensures
        defaults_valid(vp9_layout()),
{
    let s = vp9_layout();
    assert forall|k: int| 0 <= k < s.len() implies #[trigger] default_valid(s, k) by {
        if k == 0 {
        } else if k == 1 {
            assert(item_for(s[2], "NukeVP9Profile", ParamValue::Int(0)));
        } else if k == 2 {
        } else if k == 3 {
        } else if k == 4 {
        } else if k == 5 {
        } else if k == 6 {
        } else if k == 7 {
        }
    }
}

/// Every parameter of an exporter's default parameter set starts valid: a
/// ranged parameter's default lies within its range, and a choice parameter's
/// default is one of the choices offered for it.
pub proof fn law_default_layout_defaults_valid(
    file_type: u32,
    width: i32,
    height: i32,
    frame_ticks: i64,
)
    requires
        16 <= width <= 8192,
        16 <= height <= 8192,
        frame_rate_choice(frame_ticks),
    ensures
        defaults_valid(default_layout(file_type, width, height, frame_ticks)),
{
    lemma_frame_size_defaults(width, height);
    lemma_frame_rate_defaults(frame_ticks);
    lemma_aspect_and_format_defaults();
    lemma_audio_defaults();
    lemma_encoder_defaults();
    lemma_encoder_tuning_defaults();
    lemma_av1_defaults();
    lemma_vp8_defaults();
    lemma_vp9_defaults();
    let s1 = frame_size_layout(width, height);
    lemma_defaults_concat(s1, frame_rate_layout(frame_ticks));
    let s2 = s1 + frame_rate_layout(frame_ticks);
    lemma_defaults_concat(s2, aspect_and_format_layout());
    let s3 = s2 + aspect_and_format_layout();
    lemma_defaults_concat(s3, audio_layout());
    let s4 = s3 + audio_layout();
    lemma_defaults_concat(s4, encoder_layout());
    let s5 = s4 + encoder_layout();
    lemma_defaults_concat(s5, encoder_tuning_layout());
    let s6 = s5 + encoder_tuning_layout();
    let codec = codec_layout(file_type);
    if file_type != FILE_TYPE_AV1 && file_type != FILE_TYPE_VP8 && file_type != FILE_TYPE_VP9 {
        assert(defaults_valid(codec)) by {
            assert(codec =~= Seq::<ParamOp>::empty());
        }
    }
    lemma_defaults_concat(s6, codec);
    let last = seq![ParamOp::SetVersion(1)];
    assert(defaults_valid(last)) by {
        assert forall|k: int| 0 <= k < last.len() implies #[trigger] default_valid(last, k) by {
            assert(last[k] == ParamOp::SetVersion(1));
        }
    }
    lemma_defaults_concat(s6 + codec, last);
    assert(default_layout(file_type, width, height, frame_ticks) =~= s6 + codec + last);
}

} // verus!
