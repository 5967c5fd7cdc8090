//! The values exchanged with the front-end.

use vstd::prelude::*;

verus! {

/// The image formats the renderer can produce.
#[derive(Clone, Copy, Debug, PartialEq, Eq, Structural)]
pub enum DiagramFormat {
    Png,
    Svg,
    Pdf,
    Jpg,
}

impl DiagramFormat {
    /// The file extension of the format, in lower case.
    pub open spec fn spec_extension(self) -> Seq<char> {
        match self {
            DiagramFormat::Png => "png"@,
            DiagramFormat::Svg => "svg"@,
            DiagramFormat::Pdf => "pdf"@,
            DiagramFormat::Jpg => "jpg"@,
        }
    }

    /// The file extension of the format, in lower case.
    pub fn as_str(&self) -> (r: &'static str)
        ensures
            r@ == self.spec_extension(),
    {
        match self {
            DiagramFormat::Png => "png",
            DiagramFormat::Svg => "svg",
            DiagramFormat::Pdf => "pdf",
            DiagramFormat::Jpg => "jpg",
        }
    }
}

/// How a diagram is to be rendered.
#[derive(Clone, Debug)]
pub struct DiagramOptions {
    pub format: DiagramFormat,
    /// Width in pixels; absent or zero leaves the renderer's default.
    pub width: Option<u32>,
    /// Height in pixels; absent or zero leaves the renderer's default.
    pub height: Option<u32>,
    /// A colour, or `transparent`; blank also means transparent.
    pub background: String,
    pub theme: Option<String>,
}

/// The outcome of one rendering.
#[derive(Clone, Debug)]
pub struct DiagramResult {
    pub success: bool,
    pub output_path: Option<String>,
    pub error_message: Option<String>,
    /// Milliseconds the rendering took.
    pub generation_time: u64,
    /// Size in bytes of the file produced, where it could be read.
    pub file_size: Option<u64>,
}

impl DiagramResult {
    /// A result holds an output path when it succeeded and an error message
    /// when it failed, never both, and a size only when it succeeded.
    pub open spec fn wf(&self) -> bool {
        &&& self.success == self.output_path is Some
        &&& self.success == !(self.error_message is Some)
        &&& !self.success ==> self.file_size is None
    }

    /// The view of a successful result.
    pub open spec fn is_success_of(
        &self,
        output_path: Seq<char>,
        generation_time: u64,
        file_size: Option<u64>,
    ) -> bool {
        &&& self.success
        &&& self.output_path matches Some(p) && p@ == output_path
        &&& self.error_message is None
        &&& self.generation_time == generation_time
        &&& self.file_size == file_size
    }

    /// The view of a failed result.
    pub open spec fn is_error_of(&self, message: Seq<char>, generation_time: u64) -> bool {
        &&& !self.success
        &&& self.output_path is None
        &&& self.error_message matches Some(m) && m@ == message
        &&& self.generation_time == generation_time
        &&& self.file_size is None
    }

    pub fn success(output_path: String, generation_time: u64, file_size: Option<u64>) -> (r: Self)
        ensures
            r.is_success_of(output_path@, generation_time, file_size),
            r.wf(),
    {
        DiagramResult {
            success: true,
            output_path: Some(output_path),
            error_message: None,
            generation_time,
            file_size,
        }
    }

    pub fn error(error_message: String, generation_time: u64) -> (r: Self)
        ensures
            r.is_error_of(error_message@, generation_time),
            r.wf(),
    {
        DiagramResult {
            success: false,
            output_path: None,
            error_message: Some(error_message),
            generation_time,
            file_size: None,
        }
    }
}

/// A diagram source file, as read from disk.
#[derive(Clone, Debug)]
pub struct MermaidFile {
    pub path: String,
    pub content: String,
    /// Last modification, in milliseconds since the Unix epoch.
    pub last_modified: Option<u64>,
    pub size: Option<u64>,
}

/// The outcome of saving a file.
#[derive(Clone, Debug)]
pub struct FileOperationResult {
    pub success: bool,
    pub message: String,
    pub path: Option<String>,
}

impl FileOperationResult {
    pub fn success(message: String, path: Option<String>) -> (r: Self)
        ensures
            r.success,
            r.message == message,
            r.path == path,
    {
        FileOperationResult { success: true, message, path }
    }

    pub fn error(message: String) -> (r: Self)
        ensures
            !r.success,
            r.message == message,
            r.path is None,
    {
        FileOperationResult { success: false, message, path: None }
    }
}

/// A file the user opened or saved lately.
#[derive(Clone, Debug)]
pub struct RecentFile {
    pub path: String,
    pub name: String,
    /// When it was opened, in milliseconds since the Unix epoch.
    pub last_opened: u64,
}

/// Settings for rendering every diagram source of a directory.
#[derive(Clone, Debug)]
pub struct BatchProcessOptions {
    pub input_directory: String,
    pub output_directory: String,
    /// A file name pattern such as `*.mmd`.
    pub file_pattern: String,
    pub output_format: DiagramFormat,
    pub preserve_structure: bool,
}

/// What the front-end is told about the system.
#[derive(Clone, Debug)]
pub struct SystemInfo {
    pub os: String,
    pub arch: String,
    pub is_windows: bool,
    pub is_linux: bool,
    pub is_macos: bool,
    pub temp_dir: String,
    pub current_dir: String,
    pub home_dir: Option<String>,
    pub documents_dir: Option<String>,
    pub downloads_dir: Option<String>,
}

/// The user's usual directories, where they are known.
#[derive(Clone, Debug)]
pub struct DefaultDirectoriesInfo {
    pub home: Option<String>,
    pub documents: Option<String>,
    pub desktop: Option<String>,
    pub downloads: Option<String>,
    pub temp: Option<String>,
    pub app_data: Option<String>,
}

/// One environment variable.
#[derive(Clone, Debug)]
pub struct EnvVar {
    pub key: String,
    pub value: String,
}

} // verus!
