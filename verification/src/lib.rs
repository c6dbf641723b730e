use vstd::prelude::*;

pub mod cache;
pub mod encoder_audio;
pub mod export_settings;
pub mod import_audio;
pub mod laws;
pub mod layout_laws;
pub mod params;
pub mod pixels;
pub mod plugin_info;
pub mod prefs;
pub mod text;
pub mod timing;
pub mod versions;
pub mod worker;
pub mod samples;
