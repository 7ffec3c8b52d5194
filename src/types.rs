use vstd::prelude::*;

verus! {

/// Where a model stands on this machine.
#[derive(Debug, Clone, PartialEq)]
pub enum ModelStatus {
    /// No file for the model is on disk.
    NotDownloaded,
    /// A download is running; `progress` is a percentage.
    Downloading { progress: u8 },
    /// The file is on disk and passed the size check.
    Available,
    /// A file is on disk but its size is outside the accepted band.
    Corrupted { file_size: u64, expected_min_size: u64 },
    /// The last operation on the model failed.
    Error(String),
}

impl ModelStatus {
    /// A copy of this status that Verus knows to be equal to it.
    pub fn duplicate(&self) -> (r: ModelStatus)
        ensures
            r == *self,
    {
        match self {
            ModelStatus::NotDownloaded => ModelStatus::NotDownloaded,
            ModelStatus::Downloading { progress } => ModelStatus::Downloading { progress: *progress },
            ModelStatus::Available => ModelStatus::Available,
            ModelStatus::Corrupted { file_size, expected_min_size } => ModelStatus::Corrupted {
                file_size: *file_size,
                expected_min_size: *expected_min_size,
            },
            ModelStatus::Error(m) => ModelStatus::Error(m.clone()),
        }
    }

    /// Whether this status is `Available`.
    pub fn is_available(&self) -> (r: bool)
        ensures
            r == (*self is Available),
    {
        match self {
            ModelStatus::Available => true,
            _ => false,
        }
    }
}

/// One entry of the static catalog of known models.
#[derive(Debug, Clone)]
pub struct ModelDefinition {
    pub name: String,
    pub display_name: String,
    pub gguf_file: String,
    pub size_mb: u64,
    pub context_size: u32,
    pub description: String,
    pub download_url: String,
}

impl ModelDefinition {
    /// A copy of this definition that Verus knows to be equal to it.
    pub fn duplicate(&self) -> (r: ModelDefinition)
        ensures
            r == *self,
    {
        ModelDefinition {
            name: self.name.clone(),
            display_name: self.display_name.clone(),
            gguf_file: self.gguf_file.clone(),
            size_mb: self.size_mb,
            context_size: self.context_size,
            description: self.description.clone(),
            download_url: self.download_url.clone(),
        }
    }
}

/// What the registry records of one catalog model.
#[derive(Debug, Clone)]
pub struct ModelInfo {
    /// Model identifier (e.g. "gemma3:1b").
    pub name: String,
    pub display_name: String,
    pub status: ModelStatus,
    /// Path of the model file.
    pub path: String,
    /// Expected size in megabytes.
    pub size_mb: u64,
    /// Context window size in tokens.
    pub context_size: u32,
    pub description: String,
    /// File name of the model inside the models directory.
    pub gguf_file: String,
}

impl ModelInfo {
    /// A copy of this record that Verus knows to be equal to it.
    pub fn duplicate(&self) -> (r: ModelInfo)
        ensures
            r == *self,
    {
        ModelInfo {
            name: self.name.clone(),
            display_name: self.display_name.clone(),
            status: self.status.duplicate(),
            path: self.path.clone(),
            size_mb: self.size_mb,
            context_size: self.context_size,
            description: self.description.clone(),
            gguf_file: self.gguf_file.clone(),
        }
    }
}

/// The ways an operation of the manager fails.
#[derive(Debug, Clone, PartialEq)]
pub enum ModelError {
    /// The identifier is not in the catalog.
    UnknownModel(String),
    /// A download of this identifier is already running.
    AlreadyDownloading(String),
    /// A filesystem operation failed, for the reason given.
    Filesystem(String),
    /// The transfer could not start or was interrupted, for the reason given.
    Network(String),
    /// The file does not start with a known model signature; holds its first bytes.
    Validation(Vec<u8>),
    /// The download was cancelled on request.
    Cancelled,
}

/// Why a transfer stopped before the whole file was written.
#[derive(Debug, Clone, PartialEq)]
pub enum TransferFailure {
    /// The request failed, was refused, or the stream broke.
    Network(String),
    /// The file could not be created or written.
    Filesystem(String),
}

/// The reason carried by a transfer failure.
pub open spec fn failure_reason(f: TransferFailure) -> String {
    match f {
        TransferFailure::Network(m) => m,
        TransferFailure::Filesystem(m) => m,
    }
}

/// The error that a transfer failure is reported as.
pub open spec fn failure_error(f: TransferFailure) -> ModelError {
    match f {
        TransferFailure::Network(m) => ModelError::Network(m),
        TransferFailure::Filesystem(m) => ModelError::Filesystem(m),
    }
}

/// What a look at a model's file on disk found.
#[derive(Debug, Clone, PartialEq)]
pub enum FileProbe {
    /// No file at the path.
    Missing,
    /// A file of this many bytes.
    Size(u64),
    /// The file exists but its metadata could not be read, for the reason given.
    Unreadable(String),
}

} // verus!
