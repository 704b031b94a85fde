//! Error types shared by the engine's components.
//!
//! Every failure keeps a safe (loggable) message apart from an optional raw
//! message that may carry sensitive detail, so terminal reporting can render
//! without leaking secrets.

use vstd::prelude::*;

verus! {

/// Classifies an engine failure. `TaskCancellationRequested` is the one tag
/// with caller-visible semantics: a build failure carrying it makes the
/// transaction report `Canceled` instead of `Error`.
#[derive(Clone, Copy, PartialEq, Eq, Structural, Debug)]
pub enum Tag {
    TaskCancellationRequested,
    ContainerRegistryError,
    BuildError,
    InfrastructureError,
    EnvironmentError,
}

/// A failure of an engine operation.
#[derive(Clone, PartialEq, Debug)]
pub struct EngineError {
    pub tag: Tag,
    pub safe_message: String,
    pub raw_message: Option<String>,
}

/// Mathematical view of an [`EngineError`].
pub struct EngineErrorView {
    pub tag: Tag,
    pub safe_message: Seq<char>,
    pub raw_message: Option<Seq<char>>,
}

impl View for EngineError {
    type V = EngineErrorView;

    open spec fn view(&self) -> EngineErrorView {
        EngineErrorView {
            tag: self.tag,
            safe_message: self.safe_message@,
            raw_message: match self.raw_message {
                Some(ref s) => Some(s@),
                None => None,
            },
        }
    }
}

/// Copies an engine error.
pub fn duplicate_engine_error(e: &EngineError) -> (r: EngineError)
    ensures
        r@ == e@,
{
    EngineError {
        tag: e.tag,
        safe_message: e.safe_message.clone(),
        raw_message: match e.raw_message {
            Some(ref s) => Some(s.clone()),
            None => None,
        },
    }
}

impl EngineError {
    /// An error carrying only a safe message.
    pub fn new_from_safe(tag: Tag, safe_message: String) -> (r: EngineError)
        ensures
            r.tag == tag,
            r.safe_message@ == safe_message@,
            r.raw_message is None,
    {
        EngineError { tag, safe_message, raw_message: None }
    }
}

/// A failed external command, with the safe/raw message split.
#[derive(Clone, Debug)]
pub struct CommandError {
    pub safe_message: String,
    pub raw_message: Option<String>,
}

impl CommandError {
    /// An error carrying only a safe message.
    pub fn new_from_safe_message(safe_message: String) -> (r: CommandError)
        ensures
            r.safe_message@ == safe_message@,
            r.raw_message is None,
    {
        CommandError { safe_message, raw_message: None }
    }

    /// An error carrying both a safe and a raw message.
    pub fn new(safe_message: String, raw_message: Option<String>) -> (r: CommandError)
        ensures
            r.safe_message@ == safe_message@,
            r.raw_message == raw_message,
    {
        CommandError { safe_message, raw_message }
    }
}

/// A failure reported by the container-registry collaborator.
#[derive(Clone, Debug)]
pub struct ContainerRegistryError {
    pub safe_message: String,
}

/// Lifts a container-registry failure into an engine error.
pub fn to_engine_error(err: ContainerRegistryError) -> (r: EngineError)
    ensures
        r.tag == Tag::ContainerRegistryError,
        r.safe_message@ == err.safe_message@,
        r.raw_message is None,
{
    EngineError {
        tag: Tag::ContainerRegistryError,
        safe_message: err.safe_message,
        raw_message: None,
    }
}

/// A failure reported by the build collaborator. Cancellation is
/// distinguished from generic failure because only the latter should end the
/// overall sequence with `Error`.
#[derive(Clone, Debug)]
pub enum BuildError {
    Aborted { message: String },
    Other { message: String },
}

impl BuildError {
    /// True for the cancellation variant.
    pub open spec fn is_aborted(self) -> bool {
        self is Aborted
    }
}

/// Lifts a build failure into an engine error, mapping cancellation to the
/// `TaskCancellationRequested` tag.
pub fn build_error_to_engine_error(err: BuildError) -> (r: EngineError)
    ensures
        r.tag == Tag::TaskCancellationRequested <==> err.is_aborted(),
        !err.is_aborted() ==> r.tag == Tag::BuildError,
{
    match err {
        BuildError::Aborted { message } => EngineError {
            tag: Tag::TaskCancellationRequested,
            safe_message: message,
            raw_message: None,
        },
        BuildError::Other { message } => EngineError {
            tag: Tag::BuildError,
            safe_message: message,
            raw_message: None,
        },
    }
}

/// A configuration problem found while validating a transaction's engine
/// context, before any step runs.
#[derive(Clone, Debug)]
pub enum EngineConfigError {
    NotValid { message: String },
    KubernetesNotValid(EngineError),
}

} // verus!
