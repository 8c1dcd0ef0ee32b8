//! The page model of the front end: which pages exist, which themes
//! exist, and the state and messages of the conversion page. The
//! rendering itself lives outside the library.

use vstd::prelude::*;
use crate::formats::{list_formats, spec_supported_formats};

verus! {

/// The pages of the application.
#[derive(Debug, Clone, Copy, PartialEq, Eq, Structural)]
pub enum Page {
    Home,
    Convert,
    EnhanceAudio,
    EnhanceVideo,
    VhsRescue,
    Capture,
    Clean,
    Info,
    Formats,
    Settings,
}

/// The selectable themes.
#[derive(Debug, Clone, Copy, PartialEq, Eq, Structural)]
pub enum AppTheme {
    Light,
    Dark,
    Gaming,
}

impl Default for AppTheme {
    fn default() -> (r: Self)
        ensures
            r == AppTheme::Dark,
    {
        AppTheme::Dark
    }
}

/// The events of the conversion page.
#[derive(Debug, Clone)]
pub enum ConvertPageMessage {
    InputPathChanged(String),
    OutputDirChanged(String),
    RecursiveToggled(bool),
    QualityChanged(String),
    CodecChanged(String),
    JobsChanged(String),
    ButtonPressed,
    BrowseInput,
    BrowseOutput,
    InputFileSelected(Option<String>),
    OutputDirectorySelected(Option<String>),
    OutputFormatSelected(String),
    LoadAvailableFormats(Vec<String>),
}

/// The state of the conversion page.
#[derive(Debug, Clone)]
pub struct ConvertPageState {
    pub input_path: String,
    pub output_format: String,
    pub output_dir: String,
    pub recursive: bool,
    pub quality: String,
    pub codec: String,
    pub jobs: String,
    pub available_formats: Vec<String>,
    pub selected_output_format: Option<String>,
}

impl Default for ConvertPageState {
    /// A fresh conversion page: MP4 at 192k with four parallel jobs,
    /// offering the fixed format list.
    fn default() -> (r: Self)
        ensures
            r.input_path@.len() == 0,
            r.output_format@ == "mp4"@,
            r.output_dir@.len() == 0,
            r.recursive == false,
            r.quality@ == "192k"@,
            r.codec@.len() == 0,
            r.jobs@ == "4"@,
            r.available_formats.deep_view() == spec_supported_formats(),
            r.selected_output_format matches Some(f) && f@ == "mp4"@,
    {
        ConvertPageState {
            input_path: String::new(),
            output_format: String::from_str("mp4"),
            output_dir: String::new(),
            recursive: false,
            quality: String::from_str("192k"),
            codec: String::new(),
            jobs: String::from_str("4"),
            available_formats: list_formats(),
            selected_output_format: Some(String::from_str("mp4")),
        }
    }
}

} // verus!
