//! Where the library's requests become glutin's builders, and the errors of
//! glutin and of the OpenGL backend become the library's causes.

use crate::config::{ApiKind, ConfigTemplate};
use crate::context::{ContextRequest, Profile, Version};
use crate::error::{Cause, CauseKind};
use crate::surface::PresentInterval;
use glutin::config::ConfigTemplateBuilder;
use glutin::context::ContextAttributesBuilder;
use glutin::error::ErrorKind;
use vstd::prelude::*;

verus! {

/// glutin's builder of a configuration template. What it holds of the
/// settings that this library writes is named by [`template_settings`].
#[verifier::external_type_specification]
#[verifier::external_body]
pub struct ExConfigTemplateBuilder(glutin::config::ConfigTemplateBuilder);

/// glutin's builder of context attributes. What it holds of the settings
/// that this library writes is named by [`context_settings`].
#[verifier::external_type_specification]
#[verifier::external_body]
pub struct ExContextAttributesBuilder(glutin::context::ContextAttributesBuilder);

/// glutin's error.
#[verifier::external_type_specification]
#[verifier::external_body]
pub struct ExError(glutin::error::Error);

/// The error of the OpenGL backend's first state query.
#[verifier::external_type_specification]
#[verifier::external_body]
pub struct ExStateQueryError(luminance_gl::gl33::StateQueryError);

/// glutin's swap interval.
#[verifier::external_type_specification]
#[verifier::external_body]
pub struct ExSwapInterval(glutin::surface::SwapInterval);

/// The settings of a configuration template that this library writes.
#[derive(Clone, Copy, Debug, PartialEq, Eq, Structural)]
pub struct TemplateSettings {
    /// The API flags asked for, as glutin's bits; `None` while none was set.
    pub api: Option<u8>,
    /// The sample count asked for; `None` while none was set.
    pub samples: Option<u8>,
    /// Whether single buffering is asked for.
    pub single_buffering: bool,
}

/// The API family and version asked of a context.
#[derive(Clone, Copy, Debug, PartialEq, Eq, Structural)]
pub struct ApiRequest {
    /// Whether OpenGL ES is asked for, and not desktop OpenGL.
    pub gles: bool,
    /// The version asked for; `None` leaves the choice to glutin.
    pub version: Option<Version>,
}

/// The settings of context attributes that this library writes.
#[derive(Clone, Copy, Debug, PartialEq, Eq, Structural)]
pub struct ContextSettings {
    /// Whether a debug context is asked for.
    pub debug: bool,
    /// The profile asked for; `None` while none was set.
    pub profile: Option<Profile>,
    /// The API asked for; `None` while none was set.
    pub api: Option<ApiRequest>,
}

/// What a template builder holds in its fields `api`, `num_samples` and
/// `single_buffering`.
pub uninterp spec fn template_settings(builder: ConfigTemplateBuilder) -> TemplateSettings;

/// What an attributes builder holds in its fields `debug`, `profile` and
/// `api`.
pub uninterp spec fn context_settings(builder: ContextAttributesBuilder) -> ContextSettings;

/// The number of vertical blanks a glutin swap interval waits for: 0 for
/// `DontWait`, and the number held by `Wait`.
pub uninterp spec fn waited_blanks(interval: glutin::surface::SwapInterval) -> u32;

/// The category of a glutin error: what `Error::error_kind` returns, variant
/// for variant.
pub uninterp spec fn error_kind_of(error: glutin::error::Error) -> CauseKind;

/// What `Error::raw_code` returns for a glutin error.
pub uninterp spec fn raw_code_of(error: glutin::error::Error) -> Option<i64>;

/// What glutin's `Display` prints for a glutin error.
pub uninterp spec fn error_display(error: glutin::error::Error) -> Seq<char>;

/// What the backend's `Display` prints for the error of a state query.
pub uninterp spec fn state_query_display(error: luminance_gl::gl33::StateQueryError) -> Seq<char>;

/// glutin's bit for an API family in its `Api` flags.
pub open spec fn api_bit(api: ApiKind) -> u8 {
    match api {
        ApiKind::OpenGl => 1,
        ApiKind::Gles1 => 2,
        ApiKind::Gles2 => 4,
        ApiKind::Gles3 => 8,
    }
}

/// What a context is asked for an API family at a version: OpenGL ES for the
/// three ES families, desktop OpenGL otherwise.
pub open spec fn api_request(api: ApiKind, version: Version) -> ApiRequest {
    ApiRequest { gles: api != ApiKind::OpenGl, version: Some(version) }
}

/// Whether `n` is a power of two.
pub open spec fn power_of_two(n: u8) -> bool {
    n == 1 || n == 2 || n == 4 || n == 8 || n == 16 || n == 32 || n == 64 || n == 128
}

/// `ConfigTemplateBuilder::new` returns a template with glutin's defaults:
/// no API, no sample count, no single buffering.
pub assume_specification[ glutin::config::ConfigTemplateBuilder::new ]() -> (res:
    glutin::config::ConfigTemplateBuilder)
    ensures
        template_settings(res) == (TemplateSettings { api: None, samples: None, single_buffering: false }),
;

/// `ConfigTemplateBuilder::with_multisampling` stores the sample count in the
/// template. glutin asserts that the count is a power of two, so other counts
/// are excluded. The API and the buffering stay as they were.
pub assume_specification[ glutin::config::ConfigTemplateBuilder::with_multisampling ](
    builder: glutin::config::ConfigTemplateBuilder,
    num_samples: u8,
) -> (res: glutin::config::ConfigTemplateBuilder)
    requires
        power_of_two(num_samples),
    ensures
        template_settings(res) == (TemplateSettings { samples: Some(num_samples), ..template_settings(builder) }),
;

/// `ConfigTemplateBuilder::with_single_buffering` stores the flag in the
/// template. The API and the sample count stay as they were.
pub assume_specification[ glutin::config::ConfigTemplateBuilder::with_single_buffering ](
    builder: glutin::config::ConfigTemplateBuilder,
    single_buffering: bool,
) -> (res: glutin::config::ConfigTemplateBuilder)
    ensures
        template_settings(res) == (TemplateSettings { single_buffering, ..template_settings(builder) }),
;

/// `ConfigTemplateBuilder::with_api`, called with glutin's flag for the given
/// API family: the template then asks for that flag alone. The sample count
/// and the buffering stay as they were.
#[verifier::external_body]
fn with_api(builder: ConfigTemplateBuilder, api: ApiKind) -> (res: ConfigTemplateBuilder)
    ensures
        template_settings(res) == (TemplateSettings { api: Some(api_bit(api)), ..template_settings(builder) }),
{
    builder.with_api(
        match api {
            ApiKind::OpenGl => glutin::config::Api::OPENGL,
            ApiKind::Gles1 => glutin::config::Api::GLES1,
            ApiKind::Gles2 => glutin::config::Api::GLES2,
            ApiKind::Gles3 => glutin::config::Api::GLES3,
        },
    )
}

/// `ContextAttributesBuilder::new` returns attributes with glutin's defaults:
/// no debug context, no profile, no API.
pub assume_specification[ glutin::context::ContextAttributesBuilder::new ]() -> (res:
    glutin::context::ContextAttributesBuilder)
    ensures
        context_settings(res) == (ContextSettings { debug: false, profile: None, api: None }),
;

/// `ContextAttributesBuilder::with_debug` stores the flag in the attributes.
/// The profile and the API stay as they were.
pub assume_specification[ glutin::context::ContextAttributesBuilder::with_debug ](
    builder: glutin::context::ContextAttributesBuilder,
    debug: bool,
) -> (res: glutin::context::ContextAttributesBuilder)
    ensures
        context_settings(res) == (ContextSettings { debug, ..context_settings(builder) }),
;

/// `ContextAttributesBuilder::with_profile`, called with glutin's value for
/// the given profile, which the attributes then hold. The debug flag and the
/// API stay as they were.
#[verifier::external_body]
fn with_profile(builder: ContextAttributesBuilder, profile: Profile) -> (res: ContextAttributesBuilder)
    ensures
        context_settings(res) == (ContextSettings { profile: Some(profile), ..context_settings(builder) }),
{
    builder.with_profile(
        match profile {
            Profile::Core => glutin::context::GlProfile::Core,
            Profile::Compatibility => glutin::context::GlProfile::Compatibility,
        },
    )
}

/// `ContextAttributesBuilder::with_context_api`, called with glutin's value
/// for the given API family and version, which the attributes then hold. The
/// debug flag and the profile stay as they were.
#[verifier::external_body]
fn with_context_api(builder: ContextAttributesBuilder, api: ApiKind, version: Version) -> (res:
    ContextAttributesBuilder)
    ensures
        context_settings(res) == (ContextSettings {
            api: Some(api_request(api, version)),
            ..context_settings(builder)
        }),
{
    let version = Some(glutin::context::Version::new(version.major, version.minor));
    builder.with_context_api(
        match api {
            ApiKind::OpenGl => glutin::context::ContextApi::OpenGl(version),
            ApiKind::Gles1 => glutin::context::ContextApi::Gles(version),
            ApiKind::Gles2 => glutin::context::ContextApi::Gles(version),
            ApiKind::Gles3 => glutin::context::ContextApi::Gles(version),
        },
    )
}

/// `Error::raw_code` returns the platform's code, if the error holds one. The
/// result depends on the error alone, and is given its name.
pub assume_specification[ glutin::error::Error::raw_code ](error: &glutin::error::Error) -> (res: Option<
    i64,
>)
    ensures
        res == raw_code_of(*error),
;

/// `Error::error_kind`, with the library's variant of the same name for each
/// of glutin's, and the reason of `NotSupported` kept. The result depends on
/// the error alone, and is given its name.
#[verifier::external_body]
fn error_kind(error: &glutin::error::Error) -> (res: CauseKind)
    ensures
        res == error_kind_of(*error),
{
    match error.error_kind() {
        ErrorKind::NotFound => CauseKind::NotFound, ErrorKind::Misc => CauseKind::Misc,
        ErrorKind::InitializationFailed => CauseKind::InitializationFailed,
        ErrorKind::BadAccess => CauseKind::BadAccess, ErrorKind::OutOfMemory => CauseKind::OutOfMemory,
        ErrorKind::BadAttribute => CauseKind::BadAttribute, ErrorKind::BadContext => CauseKind::BadContext,
        ErrorKind::BadContextState => CauseKind::BadContextState, ErrorKind::BadConfig => CauseKind::BadConfig,
        ErrorKind::BadCurrentSurface => CauseKind::BadCurrentSurface,
        ErrorKind::BadDisplay => CauseKind::BadDisplay, ErrorKind::BadSurface => CauseKind::BadSurface,
        ErrorKind::BadPbuffer => CauseKind::BadPbuffer, ErrorKind::BadPixmap => CauseKind::BadPixmap,
        ErrorKind::BadMatch => CauseKind::BadMatch, ErrorKind::BadParameter => CauseKind::BadParameter,
        ErrorKind::BadNativePixmap => CauseKind::BadNativePixmap,
        ErrorKind::BadNativeWindow => CauseKind::BadNativeWindow,
        ErrorKind::ContextLost => CauseKind::ContextLost,
        ErrorKind::NotSupported(reason) => CauseKind::NotSupported(reason.to_string()),
    }
}

/// The text that glutin's `Display` prints for the error. It depends on the
/// error alone, and is given its name.
#[verifier::external_body]
fn error_text(error: &glutin::error::Error) -> (res: String)
    ensures
        res@ == error_display(*error),
{
    format!("{}", error)
}

/// The text that the backend's `Display` prints for the error of a state
/// query. It depends on the error alone, and is given its name.
#[verifier::external_body]
fn state_query_text(error: &luminance_gl::gl33::StateQueryError) -> (res: String)
    ensures
        res@ == state_query_display(*error),
{
    format!("{}", error)
}

/// glutin's `SwapInterval` of the same variant and the same number of
/// vertical blanks. glutin holds the number as a `NonZeroU32`, so a wait of 0
/// blanks is excluded.
#[verifier::external_body]
fn glutin_interval(interval: PresentInterval) -> (res: glutin::surface::SwapInterval)
    requires
        interval != PresentInterval::Wait(0),
    ensures
        waited_blanks(res) == interval.blanks_spec(),
{
    match interval {
        PresentInterval::DontWait => glutin::surface::SwapInterval::DontWait,
        PresentInterval::Wait(blanks) => glutin::surface::SwapInterval::Wait(
            std::num::NonZeroU32::new(blanks).unwrap(),
        ),
    }
}

/// Whether `samples` is a power of two.
pub fn is_power_of_two(samples: u8) -> (res: bool)
    ensures
        res == power_of_two(samples),
{
    samples == 1 || samples == 2 || samples == 4 || samples == 8 || samples == 16 || samples == 32
        || samples == 64 || samples == 128
}

impl ConfigTemplate {
    /// Writes the template's API family and buffering into glutin's builder,
    /// over whatever the builder held for them. The sample count stays as the
    /// builder held it.
    pub fn apply(&self, builder: ConfigTemplateBuilder) -> (res: ConfigTemplateBuilder)
        ensures
            template_settings(res) == (TemplateSettings {
                api: Some(api_bit(self.api)),
                samples: template_settings(builder).samples,
                single_buffering: self.single_buffering,
            }),
    {
        let builder = with_api(builder, self.api);
        builder.with_single_buffering(self.single_buffering)
    }

    /// glutin's builder for this template. The sample count is written where
    /// it is a power of two; glutin accepts no other, and the builder then
    /// keeps its default.
    pub fn builder(&self) -> (res: ConfigTemplateBuilder)
        ensures
            template_settings(res) == (TemplateSettings {
                api: Some(api_bit(self.api)),
                samples: if power_of_two(self.samples) {
                    Some(self.samples)
                } else {
                    None
                },
                single_buffering: self.single_buffering,
            }),
    {
        let builder = ConfigTemplateBuilder::new();
        let builder = if is_power_of_two(self.samples) {
            builder.with_multisampling(self.samples)
        } else {
            builder
        };
        self.apply(builder)
    }
}

impl ContextRequest {
    /// Writes the request's profile, API family and version into glutin's
    /// builder, over whatever the builder held for them. The debug flag stays
    /// as the builder held it. The window handle is added when the attributes
    /// are built.
    pub fn apply(&self, builder: ContextAttributesBuilder) -> (res: ContextAttributesBuilder)
        ensures
            context_settings(res) == (ContextSettings {
                debug: context_settings(builder).debug,
                profile: Some(self.profile),
                api: Some(api_request(self.api, self.version)),
            }),
    {
        let builder = with_profile(builder, self.profile);
        with_context_api(builder, self.api, self.version)
    }

    /// glutin's builder for this request, debug flag included.
    pub fn builder(&self) -> (res: ContextAttributesBuilder)
        ensures
            context_settings(res) == (ContextSettings {
                debug: self.debug,
                profile: Some(self.profile),
                api: Some(api_request(self.api, self.version)),
            }),
    {
        self.apply(ContextAttributesBuilder::new().with_debug(self.debug))
    }
}

impl PresentInterval {
    /// glutin's swap interval for this one. A wait of 0 vertical blanks is
    /// handed on as `DontWait`.
    pub fn to_glutin(&self) -> (res: glutin::surface::SwapInterval)
        ensures
            waited_blanks(res) == self.blanks_spec(),
    {
        glutin_interval(PresentInterval::from_blanks(self.blanks()))
    }
}

impl Cause {
    /// The cause that a glutin error stands for: its category, its raw code
    /// and its text.
    pub fn of(error: &glutin::error::Error) -> (res: Cause)
        ensures
            res.kind == Some(error_kind_of(*error)),
            res.code == raw_code_of(*error),
            res.message@ == error_display(*error),
    {
        Cause { kind: Some(error_kind(error)), code: error.raw_code(), message: error_text(error) }
    }

    /// The cause that an error of the first state query stands for: its text,
    /// and neither a category nor a code.
    pub fn of_state_query(error: &luminance_gl::gl33::StateQueryError) -> (res: Cause)
        ensures
            res.kind is None,
            res.code is None,
            res.message@ == state_query_display(*error),
    {
        Cause { kind: None, code: None, message: state_query_text(error) }
    }
}

/// Replaces the error of a platform answer by the cause it stands for, and
/// keeps a success as it is.
pub fn outcome<T>(answer: Result<T, glutin::error::Error>) -> (res: Result<T, Cause>)
    ensures
        res is Ok == answer is Ok,
        answer is Ok ==> res->Ok_0 == answer->Ok_0,
        answer is Err ==> {
            &&& res->Err_0.kind == Some(error_kind_of(answer->Err_0))
            &&& res->Err_0.code == raw_code_of(answer->Err_0)
            &&& res->Err_0.message@ == error_display(answer->Err_0)
        },
{
    match answer {
        Ok(value) => Ok(value),
        Err(error) => Err(Cause::of(&error)),
    }
}

} // verus!
