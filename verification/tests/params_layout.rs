use nukeav1::export_settings::{FILE_TYPE_AV1, FILE_TYPE_VP8, FILE_TYPE_VP9};
use nukeav1::params::{generate_default_params, generate_default_params_for, post_process_params, rate_control_labels, ParamOp, ParamValue, UIBuilder};

fn builder() -> UIBuilder {
    UIBuilder::new(7, Some(0)).unwrap()
}

fn declared(ops: &[ParamOp]) -> Vec<&'static str> {
    ops.iter().filter_map(|op| match op {
        ParamOp::AddGroup { id, .. } | ParamOp::AddParam { id, .. } => Some(*id),
        _ => None,
    }).collect()
}

#[test]
fn builder_needs_a_group() {
    assert!(UIBuilder::new(1, None).is_none());
    let b = UIBuilder::new(1, Some(3)).unwrap();
    assert_eq!((b.plugin_id, b.group_index, b.ops.len()), (1, 3, 0));
}

#[test]
fn default_parameters_per_file_type() {
    let mut av1 = builder();
    generate_default_params(&mut av1, FILE_TYPE_AV1, 1920, 1080, 4233600000);
    let mut vp8 = builder();
    generate_default_params(&mut vp8, FILE_TYPE_VP8, 1920, 1080, 4233600000);
    let mut vp9 = builder();
    generate_default_params(&mut vp9, FILE_TYPE_VP9, 1920, 1080, 4233600000);
    let mut other = builder();
    generate_default_params(&mut other, 0, 1920, 1080, 4233600000);
    assert_eq!(other.ops.len(), 110);
    assert_eq!(av1.ops.len(), 110 + 21);
    assert_eq!(vp8.ops.len(), 110 + 3);
    assert_eq!(vp9.ops.len(), 110 + 8);
    for b in [&av1, &vp8, &vp9, &other] {
        assert_eq!(b.ops.last(), Some(&ParamOp::SetVersion(1)));
        assert_eq!(b.ops[0], ParamOp::AddGroup { parent: "ADBETopParamGroup", id: "ADBEVideoTabGroup", name: "Video" });
    }
    assert!(declared(&av1.ops).contains(&"NukeAV1KeyFrame"));
    assert!(!declared(&vp9.ops).contains(&"NukeAV1KeyFrame"));
    assert!(declared(&vp9.ops).contains(&"NukeVP9Profile"));
    assert!(declared(&vp8.ops).contains(&"NukeVP8KeyFrame"));
}

#[test]
fn every_reference_is_declared_first() {
    for ft in [FILE_TYPE_AV1, FILE_TYPE_VP8, FILE_TYPE_VP9, 0] {
        let mut b = builder();
        generate_default_params(&mut b, ft, 3840, 2160, 8475283200);
        let mut seen: Vec<&str> = vec!["ADBETopParamGroup"];
        for op in &b.ops {
            match op {
                ParamOp::AddGroup { parent, id, .. } | ParamOp::AddParam { parent, id, .. } => {
                    assert!(seen.contains(parent), "{} before {}", id, parent);
                    seen.push(id);
                }
                ParamOp::AddItem { param, .. } => assert!(seen.contains(param)),
                _ => {}
            }
        }
    }
}

#[test]
fn defaults_are_within_ranges_and_among_choices() {
    let mut b = builder();
    generate_default_params(&mut b, FILE_TYPE_AV1, 1280, 720, 10160640000);
    for (i, op) in b.ops.iter().enumerate() {
        if let ParamOp::AddParam { id, value, range, .. } = op {
            match (value, range) {
                (ParamValue::Int(v), Some((ParamValue::Int(lo), ParamValue::Int(hi)))) => assert!(lo <= v && v <= hi),
                (ParamValue::Float(v), Some((ParamValue::Float(lo), ParamValue::Float(hi)))) => assert!(lo <= v && v <= hi),
                (ParamValue::Int(_), None) | (ParamValue::Time(_), None) | (ParamValue::Float(_), None) => {
                    let choices: Vec<&ParamValue> = b.ops[i + 1..].iter().filter_map(|o| match o {
                        ParamOp::AddItem { param, value, .. } if param == id => Some(value),
                        _ => None,
                    }).collect();
                    assert!(choices.contains(&value), "{}", id);
                }
                _ => {}
            }
        }
    }
}

#[test]
fn known_entries() {
    let mut b = builder();
    generate_default_params(&mut b, FILE_TYPE_VP8, 1920, 1080, 4233600000);
    assert!(b.ops.contains(&ParamOp::AddParam {
        parent: "ADBEBasicVideoGroup",
        id: "ADBEVideoWidth",
        name: "Frame Width",
        value: ParamValue::Int(1920),
        range: Some((ParamValue::Int(16), ParamValue::Int(8192))),
    }));
    assert!(b.ops.contains(&ParamOp::AddItem { param: "ADBEVideoFPS", value: ParamValue::Time(8475283200), name: "29.97" }));
    assert!(b.ops.contains(&ParamOp::AddItem { param: "ADBEAudioRatePerSecond", value: ParamValue::Float(44100000), name: "44100 Hz" }));
    assert!(b.ops.contains(&ParamOp::AddParam {
        parent: "NukeBitrateGroup",
        id: "ADBEVideoTargetBitrate",
        name: "Bitrate [Mbps]",
        value: ParamValue::Float(10000),
        range: Some((ParamValue::Float(100), ParamValue::Float(300000))),
    }));
    assert!(b.ops.contains(&ParamOp::AddParam { parent: "NukeBitrateGroup", id: "NukeLookAhead", name: "Look-ahead", value: ParamValue::Bool(true), range: None }));
}

#[test]
fn bitrate_labels_follow_rate_control() {
    assert_eq!(rate_control_labels(Some(0)), ("Target Bitrate [Mbps]", "Max Bitrate (Unused in CBR)"));
    assert_eq!(rate_control_labels(Some(1)), ("Constant QP (CQ / CQP Value)", "Max Bitrate (Unused in CQP)"));
    assert_eq!(rate_control_labels(Some(2)), ("Target Bitrate [Mbps]", "Max Bitrate [Mbps]"));
    assert_eq!(rate_control_labels(Some(3)), ("Target Quality (CQ Value)", "Max Bitrate [Mbps]"));
    assert_eq!(rate_control_labels(Some(4)), ("Bitrate [Mbps]", "Max Bitrate [Mbps]"));
    assert_eq!(rate_control_labels(None), ("Bitrate [Mbps]", "Max Bitrate [Mbps]"));
}

#[test]
fn renaming_after_changes() {
    let mut b = UIBuilder::new(7, Some(0)).unwrap();
    let labels = post_process_params(&mut b, FILE_TYPE_AV1, Some(1));
    assert_eq!(labels, ("Constant QP (CQ / CQP Value)", "Max Bitrate (Unused in CQP)"));
    assert_eq!(b.ops.len(), 17 + 3 + 7 + 7);
    assert_eq!(b.ops[17], ParamOp::SetName { id: "ADBEVideoTargetBitrate", name: "Constant QP (CQ / CQP Value)" });
    assert_eq!(b.ops[18], ParamOp::SetName { id: "ADBEVideoMaxBitrate", name: "Max Bitrate (Unused in CQP)" });
    assert_eq!(b.ops[19], ParamOp::SetHidden { id: "ADBEVideoMaxBitrate", hidden: true });
    assert_eq!(b.ops.last(), Some(&ParamOp::SetName { id: "NukeAV1KeyFrame", name: "Key Frame Distance" }));
    let mut b = UIBuilder::new(7, Some(0)).unwrap();
    post_process_params(&mut b, 0, None);
    assert_eq!(b.ops.len(), 27);
    assert_eq!(b.ops[19], ParamOp::SetHidden { id: "ADBEVideoMaxBitrate", hidden: false });
    assert_eq!(b.ops[0], ParamOp::SetName { id: "ADBETopParamGroup", name: "Video" });
}

#[test]
fn max_bitrate_hidden_only_when_unused() {
    for (mode, hidden) in [(Some(0), true), (Some(1), true), (Some(2), false), (Some(3), false), (Some(7), false), (None, false)] {
        let mut b = UIBuilder::new(7, Some(0)).unwrap();
        post_process_params(&mut b, FILE_TYPE_VP9, mode);
        let hides: Vec<&ParamOp> = b.ops.iter().filter(|o| matches!(o, ParamOp::SetHidden { .. })).collect();
        assert_eq!(hides, vec![&ParamOp::SetHidden { id: "ADBEVideoMaxBitrate", hidden }]);
    }
}

#[test]
fn defaults_follow_the_latest_sequence() {
    let mut b = builder();
    generate_default_params(&mut b, FILE_TYPE_AV1, 2560, 1440, 10160640000);
    assert_eq!(b.ops[2], ParamOp::AddParam {
        parent: "ADBEBasicVideoGroup",
        id: "ADBEVideoWidth",
        name: "Frame Width",
        value: ParamValue::Int(2560),
        range: Some((ParamValue::Int(16), ParamValue::Int(8192))),
    });
    assert_eq!(b.ops[11], ParamOp::AddParam {
        parent: "ADBEBasicVideoGroup",
        id: "ADBEVideoHeight",
        name: "Frame Height",
        value: ParamValue::Int(1440),
        range: Some((ParamValue::Int(16), ParamValue::Int(8192))),
    });
    assert_eq!(b.ops[18], ParamOp::AddParam {
        parent: "ADBEBasicVideoGroup",
        id: "ADBEVideoFPS",
        name: "Frame Rate",
        value: ParamValue::Time(10160640000),
        range: None,
    });
}

#[test]
fn defaults_without_a_sequence_are_full_hd_at_60() {
    let mut a = builder();
    generate_default_params_for(&mut a, FILE_TYPE_VP8, None);
    let mut b = builder();
    generate_default_params(&mut b, FILE_TYPE_VP8, 1920, 1080, 4233600000);
    assert_eq!(a.ops, b.ops);
    let mut c = builder();
    generate_default_params_for(&mut c, FILE_TYPE_VP8, Some((1280, 720, 10160640000)));
    let mut d = builder();
    generate_default_params(&mut d, FILE_TYPE_VP8, 1280, 720, 10160640000);
    assert_eq!(c.ops, d.ops);
}
