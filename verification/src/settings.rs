use vstd::prelude::*;

verus! {

/// Which command the program was asked to run.
#[derive(PartialEq, Eq, Structural, Clone, Copy, Debug)]
pub enum Action {
    /// link the install id with an account
    Authenticate,
    /// print the full output of a recording
    Concatenate,
    /// replay a recording in the terminal
    Play,
    /// record a terminal session
    Record,
    /// upload a saved recording
    Upload,
}

/// What the upload command needs: the recording to send.
pub struct UploadSettings {
    /// path of the local recording
    pub file: String,
}

/// What the concatenate command needs: the recording to print.
pub struct ConcatenateSettings {
    /// path or address of the recording
    pub location: String,
}

/// What the record command needs of the parts this library decides on. The
/// replay-timing limits live with the unverified callers.
pub struct RecordSettings {
    /// the recording's title, where the user gave one
    pub title: Option<String>,
    /// answer yes to every prompt
    pub force_yes: bool,
    /// overwrite the file where it already exists
    pub overwrite: bool,
    /// append to the file where it already exists
    pub append: bool,
    /// save only the raw output bytes
    pub raw: bool,
    /// the path to save to; absent means a temporary file and an upload
    pub file: Option<String>,
}

/// Why a recording could not start.
pub enum RecordError {
    /// the output path exists and neither overwriting nor appending was asked
    FileExists(String),
}

/// Whether recording to the settings' output path may start, `path_exists` saying
/// whether that path already exists: an unset path is always fine, an unused
/// path too, and an existing one exactly when overwriting or appending was
/// asked; otherwise the error names the path.
pub fn validate_output_path(settings: &RecordSettings, path_exists: bool) -> (r: Result<
    (),
    RecordError,
>)
    ensures
        (r is Ok) == (settings.file is None || !path_exists || settings.overwrite || settings.append),
        r matches Err(e) ==> (e matches RecordError::FileExists(p) && settings.file matches Some(f)
            && p@ == f@),
{
    match &settings.file {
        None => Ok(()),
        Some(f) => {
            if !path_exists || settings.overwrite || settings.append {
                Ok(())
            } else {
                Err(RecordError::FileExists(f.clone()))
            }
        },
    }
}

} // verus!
