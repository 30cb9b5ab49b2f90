//! Error kinds of the embedding core.

use vstd::prelude::*;

verus! {

/// Why the artifacts of a model could not be resolved.
#[derive(Clone, Copy, Debug, PartialEq, Eq, Structural)]
pub enum ResolveError {
    /// The index or a file is missing upstream.
    NotFound,
    /// The shard index is present but is not of the expected shape.
    MalformedIndex,
    /// A local read or write failed.
    IoFailure,
}

/// Why a model could not be built from its artifacts.
#[derive(Clone, Copy, Debug, PartialEq, Eq, Structural)]
pub enum BuildError {
    /// A tensor that the configuration asks for is missing.
    MissingWeight,
    /// A tensor has another shape than the configuration asks for.
    ShapeMismatch,
    /// The configuration could not be parsed.
    InvalidConfig,
    /// The tokenizer definition could not be read or parsed.
    InvalidTokenizer,
}

/// Why an attempt to load the resident model failed.
#[derive(Clone, Copy, Debug, PartialEq, Eq, Structural)]
pub enum LoadError {
    Resolve(ResolveError),
    Build(BuildError),
}

/// Why the registry could not hand out a resident model.
#[derive(Clone, Copy, Debug, PartialEq, Eq, Structural)]
pub enum RegistryError {
    /// The lock that guards the slot was left broken by a failed writer.
    LockUnusable,
    /// The slot was empty and the attempt to fill it failed.
    LoadFailed(LoadError),
    /// No model is resident, because an earlier attempt to build one failed.
    NotInitialized,
}

/// Why an embedding could not be computed.
#[derive(Clone, Copy, Debug, PartialEq, Eq, Structural)]
pub enum InferenceError {
    /// No resident model could be had.
    ModelUnavailable(RegistryError),
    /// The text could not be tokenized.
    Tokenization,
    /// The encoder's forward pass failed.
    ForwardPass,
}

impl ResolveError {
    /// The words under which this error is reported.
    pub open spec fn message_text(&self) -> Seq<char> {
        match *self {
            ResolveError::NotFound => "artifact not found"@,
            ResolveError::MalformedIndex => "malformed shard index"@,
            ResolveError::IoFailure => "local i/o failure"@,
        }
    }

    /// A stable, human-readable message.
    pub fn message(&self) -> (m: &'static str)
        ensures
            m@ == self.message_text(),
    {
        match self {
            ResolveError::NotFound => "artifact not found",
            ResolveError::MalformedIndex => "malformed shard index",
            ResolveError::IoFailure => "local i/o failure",
        }
    }
}

impl BuildError {
    /// The words under which this error is reported.
    pub open spec fn message_text(&self) -> Seq<char> {
        match *self {
            BuildError::MissingWeight => "missing weight"@,
            BuildError::ShapeMismatch => "shape mismatch"@,
            BuildError::InvalidConfig => "invalid configuration"@,
            BuildError::InvalidTokenizer => "invalid tokenizer"@,
        }
    }

    /// A stable, human-readable message.
    pub fn message(&self) -> (m: &'static str)
        ensures
            m@ == self.message_text(),
    {
        match self {
            BuildError::MissingWeight => "missing weight",
            BuildError::ShapeMismatch => "shape mismatch",
            BuildError::InvalidConfig => "invalid configuration",
            BuildError::InvalidTokenizer => "invalid tokenizer",
        }
    }
}

impl LoadError {
    /// The words under which this error is reported: those of its cause.
    pub open spec fn message_text(&self) -> Seq<char> {
        match *self {
            LoadError::Resolve(e) => e.message_text(),
            LoadError::Build(e) => e.message_text(),
        }
    }

    /// A stable, human-readable message.
    pub fn message(&self) -> (m: &'static str)
        ensures
            m@ == self.message_text(),
    {
        match self {
            LoadError::Resolve(e) => e.message(),
            LoadError::Build(e) => e.message(),
        }
    }
}

impl RegistryError {
    /// The words under which this error is reported. A broken lock always has
    /// the same words.
    pub open spec fn message_text(&self) -> Seq<char> {
        match *self {
            RegistryError::LockUnusable => "Mutex is poisoned"@,
            RegistryError::LoadFailed(e) => e.message_text(),
            RegistryError::NotInitialized => "Model is not initialized"@,
        }
    }

    /// A stable, human-readable message.
    pub fn message(&self) -> (m: &'static str)
        ensures
            m@ == self.message_text(),
    {
        match self {
            RegistryError::LockUnusable => "Mutex is poisoned",
            RegistryError::LoadFailed(e) => e.message(),
            RegistryError::NotInitialized => "Model is not initialized",
        }
    }
}

impl InferenceError {
    /// The words under which this error is reported.
    pub open spec fn message_text(&self) -> Seq<char> {
        match *self {
            InferenceError::ModelUnavailable(e) => e.message_text(),
            InferenceError::Tokenization => "tokenization failed"@,
            InferenceError::ForwardPass => "forward pass failed"@,
        }
    }

    /// A stable, human-readable message.
    pub fn message(&self) -> (m: &'static str)
        ensures
            m@ == self.message_text(),
    {
        match self {
            InferenceError::ModelUnavailable(e) => e.message(),
            InferenceError::Tokenization => "tokenization failed",
            InferenceError::ForwardPass => "forward pass failed",
        }
    }
}

} // verus!
