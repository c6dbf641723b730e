use nukeav1::prefs::{extract_pref_value, get_adobe_pref_bool, is_gpu_acceleration_enabled, is_profile_dir_name, should_avoid_audio_conform};
use nukeav1::text::{copy_c_str, decode_utf16_until_nul, encode_utf16, leak_utf16, str_to_utf16, to_c_string};
use nukeav1::versions::{is_version_dir_name, parse_version, sort_versions_newest_first};

#[test]
fn utf16_encoding_matches_std() {
    for s in ["", "mp4", "AV1 (Nuke)", "é€😀x", "\u{FFFF}\u{10000}\u{10FFFF}"] {
        let expected: Vec<u16> = s.encode_utf16().collect();
        assert_eq!(encode_utf16(s), expected);
    }
}

#[test]
fn leaked_string_is_terminated() {
    let l = leak_utf16("Video");
    let mut expected: Vec<u16> = "Video".encode_utf16().collect();
    expected.push(0);
    assert_eq!(l, &expected[..]);
    assert_eq!(leak_utf16(""), &[0u16][..]);
}

#[test]
fn utf16_buffer_truncates_and_terminates() {
    let mut out = [0xAAAAu16; 8];
    str_to_utf16("webm", &mut out, 8);
    assert_eq!(&out[..5], &[b'w' as u16, b'e' as u16, b'b' as u16, b'm' as u16, 0]);
    assert_eq!(out[5], 0xAAAA);
    let mut out = [0xAAAAu16; 8];
    str_to_utf16("Matroska", &mut out, 4);
    assert_eq!(&out[..4], &[b'M' as u16, b'a' as u16, b't' as u16, 0]);
    assert_eq!(out[4], 0xAAAA);
    let mut out = [5u16; 1];
    str_to_utf16("x", &mut out, 1);
    assert_eq!(out, [0]);
}

#[test]
fn c_string_copy() {
    let mut dst = [1i8; 8];
    copy_c_str("mkv", &mut dst);
    assert_eq!(dst, [b'm' as i8, b'k' as i8, b'v' as i8, 0, 0, 1, 1, 1]);
    let mut dst = [1i8; 4];
    copy_c_str("webm", &mut dst);
    assert_eq!(dst, [b'w' as i8, b'e' as i8, b'b' as i8, 0]);
    let mut dst = [1i8; 5];
    copy_c_str("webm", &mut dst);
    assert_eq!(dst, [b'w' as i8, b'e' as i8, b'b' as i8, b'm' as i8, 0]);
    let mut dst: [i8; 0] = [];
    copy_c_str("x", &mut dst);
    let mut dst = [1i8; 4];
    copy_c_str("é", &mut dst);
    assert_eq!(dst, [0xC3u8 as i8, 0xA9u8 as i8, 0, 0]);
}

#[test]
fn pref_value_between_tags() {
    let text = "<a>1</a><MZ.Prefs.UseGpuAcceleration>false</MZ.Prefs.UseGpuAcceleration>";
    assert_eq!(extract_pref_value(text, "MZ.Prefs.UseGpuAcceleration"), Some("false".to_string()));
    assert_eq!(extract_pref_value(text, "a"), Some("1".to_string()));
    assert_eq!(extract_pref_value(text, "b"), None);
    assert_eq!(extract_pref_value("<k></k>", "k"), None);
    assert_eq!(extract_pref_value("</k>x<k>", "k"), None);
    assert_eq!(extract_pref_value("<k>é ü</k><k>2</k>", "k"), Some("é ü".to_string()));
}

#[test]
fn pref_bool_reads_true_only() {
    assert_eq!(get_adobe_pref_bool(Some("true".to_string())), Some(true));
    assert_eq!(get_adobe_pref_bool(Some(" \ttrue\n".to_string())), Some(true));
    assert_eq!(get_adobe_pref_bool(Some("\u{3000}true\u{A0}".to_string())), Some(true));
    assert_eq!(get_adobe_pref_bool(Some("True".to_string())), Some(false));
    assert_eq!(get_adobe_pref_bool(Some("t rue".to_string())), Some(false));
    assert_eq!(get_adobe_pref_bool(Some("".to_string())), Some(false));
    assert_eq!(get_adobe_pref_bool(None), None);
    for s in ["true", " true ", "\u{85}true", "x true", "truee", "tru"] {
        assert_eq!(get_adobe_pref_bool(Some(s.to_string())), Some(s.trim() == "true"));
    }
}

#[test]
fn gpu_acceleration_defaults_to_on() {
    assert!(is_gpu_acceleration_enabled(None));
    assert!(is_gpu_acceleration_enabled(Some(true)));
    assert!(!is_gpu_acceleration_enabled(Some(false)));
}

#[test]
fn profile_folders() {
    assert!(is_profile_dir_name("Profile-maksi"));
    assert!(is_profile_dir_name("Profile-"));
    assert!(!is_profile_dir_name("profile-x"));
    assert!(!is_profile_dir_name("Profile"));
}

#[test]
fn audio_conform_decision() {
    assert!(!should_avoid_audio_conform(false, Some("enable_audio_cache=false"), Some(true)));
    assert!(!should_avoid_audio_conform(true, Some("x\nenable_audio_cache=true\n"), Some(true)));
    assert!(should_avoid_audio_conform(true, Some("enable_audio_cache=false"), Some(false)));
    assert!(!should_avoid_audio_conform(true, Some("enable_audio_cache=auto"), Some(false)));
    assert!(should_avoid_audio_conform(true, Some("enable_audio_cache=auto"), Some(true)));
    assert!(should_avoid_audio_conform(true, None, None));
    assert!(!should_avoid_audio_conform(true, None, Some(false)));
    // both settings present: "true" wins
    assert!(!should_avoid_audio_conform(true, Some("enable_audio_cache=false enable_audio_cache=true"), None));
}

#[test]
fn version_folders() {
    assert!(is_version_dir_name("24.0"));
    assert!(is_version_dir_name("25"));
    assert!(is_version_dir_name(""));
    assert!(!is_version_dir_name("24.0 beta"));
    assert_eq!(parse_version("24.1.0"), vec![24, 1, 0]);
    assert_eq!(parse_version("1..2."), vec![1, 2]);
    assert_eq!(parse_version("007"), vec![7]);
    assert_eq!(parse_version("4294967295.4294967296"), vec![4294967295]);
    assert_eq!(parse_version(""), Vec::<u32>::new());
}

#[test]
fn versions_sorted_newest_first() {
    let v: Vec<String> = ["23.0", "25.0", "24.1", "24.10", "24.2", "25.0.", "9"].iter().map(|s| s.to_string()).collect();
    let sorted = sort_versions_newest_first(v.clone());
    assert_eq!(sorted, vec!["25.0", "25.0.", "24.10", "24.2", "24.1", "23.0", "9"]);
    // same order as a stable descending sort by the parsed numbers
    let mut expected = v.clone();
    expected.sort_by(|a, b| parse_version(b).cmp(&parse_version(a)));
    assert_eq!(sorted, expected);
    assert!(sort_versions_newest_first(Vec::new()).is_empty());
}

#[test]
fn utf16_decoding_matches_std_lossy() {
    let cases: Vec<Vec<u16>> = vec![
        vec![],
        "mp4".encode_utf16().collect(),
        "é€😀x".encode_utf16().collect(),
        vec![0xD800, 0x41],
        vec![0xDC00, 0xD83D, 0xDE00],
        vec![0x41, 0xD800],
    ];
    for units in cases {
        let expected: Vec<char> = String::from_utf16_lossy(&units).chars().collect();
        assert_eq!(decode_utf16_until_nul(&units), expected);
    }
}

#[test]
fn utf16_decoding_stops_at_nul() {
    let mut units: Vec<u16> = "C:/clip.webm".encode_utf16().collect();
    units.push(0);
    units.extend("junk".encode_utf16());
    let text: String = decode_utf16_until_nul(&units).into_iter().collect();
    assert_eq!(text, "C:/clip.webm");
    let round: String = decode_utf16_until_nul(&encode_utf16("\u{10FFFF}é")).into_iter().collect();
    assert_eq!(round, "\u{10FFFF}é");
}

#[test]
fn c_strings_refuse_interior_nul() {
    assert_eq!(to_c_string("ab"), Some(vec![b'a', b'b', 0]));
    assert_eq!(to_c_string("a\0b"), None);
}
