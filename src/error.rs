use vstd::prelude::*;

verus! {

/// Failures of toolchain operations; each carries the diagnostic text verbatim.
#[derive(Debug, Clone, PartialEq, Eq)]
pub enum ArduinoError {
    CliNotFound(String),
    CompileFailed(String),
    UploadFailed(String),
    CoreNotInstalled(String),
    CoreInstallFailed(String),
    IoError(String),
    TempDirError(String),
    ShellError(String),
}

/// The fixed prefix that introduces each kind of failure in its message.
pub open spec fn arduino_error_prefix(e: ArduinoError) -> Seq<char> {
    match e {
        ArduinoError::CliNotFound(_) => "Arduino CLI not found: "@,
        ArduinoError::CompileFailed(_) => "Compilation failed: "@,
        ArduinoError::UploadFailed(_) => "Upload failed: "@,
        ArduinoError::CoreNotInstalled(_) => "Core not installed: "@,
        ArduinoError::CoreInstallFailed(_) => "Core installation failed: "@,
        ArduinoError::IoError(_) => "IO error: "@,
        ArduinoError::TempDirError(_) => "Temp directory error: "@,
        ArduinoError::ShellError(_) => "Shell error: "@,
    }
}

/// The diagnostic text that a failure carries.
pub open spec fn arduino_error_detail(e: ArduinoError) -> Seq<char> {
    match e {
        ArduinoError::CliNotFound(s) => s@,
        ArduinoError::CompileFailed(s) => s@,
        ArduinoError::UploadFailed(s) => s@,
        ArduinoError::CoreNotInstalled(s) => s@,
        ArduinoError::CoreInstallFailed(s) => s@,
        ArduinoError::IoError(s) => s@,
        ArduinoError::TempDirError(s) => s@,
        ArduinoError::ShellError(s) => s@,
    }
}

impl ArduinoError {
    /// Human-readable message: the kind's prefix followed by the carried text.
    pub fn message(&self) -> (r: String)
        ensures
            r@ == arduino_error_prefix(*self) + arduino_error_detail(*self),
    {
        let (prefix, detail) = match self {
            ArduinoError::CliNotFound(s) => ("Arduino CLI not found: ", s),
            ArduinoError::CompileFailed(s) => ("Compilation failed: ", s),
            ArduinoError::UploadFailed(s) => ("Upload failed: ", s),
            ArduinoError::CoreNotInstalled(s) => ("Core not installed: ", s),
            ArduinoError::CoreInstallFailed(s) => ("Core installation failed: ", s),
            ArduinoError::IoError(s) => ("IO error: ", s),
            ArduinoError::TempDirError(s) => ("Temp directory error: ", s),
            ArduinoError::ShellError(s) => ("Shell error: ", s),
        };
        let mut r = String::from_str(prefix);
        r.append(detail.as_str());
        r
    }
}

/// Failures of saving or opening a project file.
#[derive(Debug, Clone, PartialEq, Eq)]
pub enum FileError {
    SaveError(String),
    ReadError(String),
    Cancelled,
}

/// The message of a project-file failure.
pub open spec fn file_error_text(e: FileError) -> Seq<char> {
    match e {
        FileError::SaveError(s) => "Failed to save file: "@ + s@,
        FileError::ReadError(s) => "Failed to read file: "@ + s@,
        FileError::Cancelled => "Dialog cancelled"@,
    }
}

impl FileError {
    /// Human-readable message of the failure.
    pub fn message(&self) -> (r: String)
        ensures
            r@ == file_error_text(*self),
    {
        match self {
            FileError::SaveError(s) => {
                let mut r = String::from_str("Failed to save file: ");
                r.append(s.as_str());
                r
            },
            FileError::ReadError(s) => {
                let mut r = String::from_str("Failed to read file: ");
                r.append(s.as_str());
                r
            },
            FileError::Cancelled => String::from_str("Dialog cancelled"),
        }
    }
}

/// Failure of listing serial ports.
#[derive(Debug, Clone, PartialEq, Eq)]
pub enum SerialError {
    ListError(String),
}

impl SerialError {
    /// Human-readable message of the failure.
    pub fn message(&self) -> (r: String)
        ensures
            r@ == "Failed to list ports: "@ + (match *self {
                SerialError::ListError(s) => s@,
            }),
    {
        match self {
            SerialError::ListError(s) => {
                let mut r = String::from_str("Failed to list ports: ");
                r.append(s.as_str());
                r
            },
        }
    }
}

} // verus!
