//! The OpenGL context: what is asked of the platform, and its two states.

use crate::config::{ApiKind, SelectedConfig};
use crate::error::{Cause, GlutinError};
use crate::surface::Surface;
use vstd::prelude::*;

verus! {

/// OpenGL profile.
#[derive(Clone, Copy, Debug, PartialEq, Eq, Structural)]
pub enum Profile {
    /// Core profile.
    Core,
    /// Compatibility profile.
    Compatibility,
}

/// OpenGL version.
#[derive(Clone, Copy, Debug, PartialEq, Eq, Structural)]
pub struct Version {
    /// Major number.
    pub major: u8,
    /// Minor number.
    pub minor: u8,
}

/// Context attributes as a caller supplies them.
#[derive(Clone, Copy, Debug, PartialEq, Eq, Structural)]
pub struct ContextAttributes {
    /// Profile the caller would like, if any.
    pub profile: Option<Profile>,
    /// Version the caller would like, if any.
    pub version: Option<Version>,
    /// Whether a debug context is asked for.
    pub debug: bool,
}

/// What the platform is asked to create a context with.
#[derive(Clone, Copy, Debug, PartialEq, Eq, Structural)]
pub struct ContextRequest {
    /// API family of the context.
    pub api: ApiKind,
    /// Profile of the context.
    pub profile: Profile,
    /// Version of the context.
    pub version: Version,
    /// Whether a debug context is asked for.
    pub debug: bool,
    /// Native handle of the window the context must be compatible with.
    pub window_handle: u64,
}

/// A context that is not current: it cannot render or resolve symbols.
#[derive(Clone, Copy, Debug, PartialEq, Eq, Structural)]
pub struct RawContext {
    /// Native handle of the context.
    pub id: u64,
    /// Configuration it was created with.
    pub config: SelectedConfig,
}

/// A context that is current against one surface.
#[derive(Clone, Copy, Debug, PartialEq, Eq, Structural)]
pub struct ActiveContext {
    /// Native handle of the context.
    pub id: u64,
    /// Configuration it was created with.
    pub config: SelectedConfig,
    /// Native handle of the surface it is current against.
    pub surface: u64,
}

/// The API family every context is created for.
pub open spec fn required_api() -> ApiKind {
    ApiKind::OpenGl
}

/// The profile every context is created with.
pub open spec fn required_profile() -> Profile {
    Profile::Core
}

/// The version every context is created with: 3.3.
pub open spec fn required_version() -> Version {
    Version { major: 3, minor: 3 }
}

impl ContextAttributes {
    /// Attributes with nothing asked for.
    pub fn new() -> (res: ContextAttributes)
        ensures
            res == (ContextAttributes { profile: None, version: None, debug: false }),
    {
        ContextAttributes { profile: None, version: None, debug: false }
    }

    /// The request made of the platform for these attributes: the API family,
    /// the profile and the version are the required ones, whatever the caller
    /// asked.
    pub open spec fn request_spec(self, window_handle: u64) -> ContextRequest {
        ContextRequest {
            api: required_api(),
            profile: required_profile(),
            version: required_version(),
            debug: self.debug,
            window_handle,
        }
    }

    /// Builds the request made of the platform: a 3.3 core context compatible
    /// with the window of the given handle.
    pub fn request(&self, window_handle: u64) -> (res: ContextRequest)
        ensures
            res == self.request_spec(window_handle),
    {
        ContextRequest {
            api: ApiKind::OpenGl,
            profile: Profile::Core,
            version: Version { major: 3, minor: 3 },
            debug: self.debug,
            window_handle,
        }
    }
}

/// Turns the platform's answer to a context request into a context that is not
/// current yet, or into `ContextError` with the platform's cause.
pub fn build_context(config: SelectedConfig, outcome: Result<u64, Cause>) -> (res: Result<RawContext, GlutinError>)
    ensures
        res == (match outcome {
            Ok(id) => Ok::<RawContext, GlutinError>(RawContext { id, config }),
            Err(cause) => Err::<RawContext, GlutinError>(GlutinError::ContextError(cause)),
        }),
{
    match outcome {
        Ok(id) => Ok(RawContext { id, config }),
        Err(cause) => Err(GlutinError::ContextError(cause)),
    }
}

/// The context `raw` once it is current against `surface`.
pub open spec fn activated(raw: RawContext, surface: Surface) -> ActiveContext {
    ActiveContext { id: raw.id, config: raw.config, surface: surface.id }
}

/// Turns the platform's answer to making `raw` current against `surface` into
/// an active context. On failure the raw context is handed back with
/// `ActivationError`, so that the caller can retry or release it.
pub fn activate(raw: RawContext, surface: &Surface, outcome: Result<(), Cause>) -> (res: Result<
    ActiveContext,
    (GlutinError, RawContext),
>)
    ensures
        res == (match outcome {
            Ok(_) => Ok::<ActiveContext, (GlutinError, RawContext)>(activated(raw, *surface)),
            Err(cause) => Err::<ActiveContext, (GlutinError, RawContext)>(
                (GlutinError::ActivationError(cause), raw),
            ),
        }),
{
    match outcome {
        Ok(_) => Ok(ActiveContext { id: raw.id, config: raw.config, surface: surface.id }),
        Err(cause) => Err((GlutinError::ActivationError(cause), raw)),
    }
}

} // verus!
