//! Choice of the display configuration a surface is created with.

use crate::error::GlutinError;
use vstd::prelude::*;

verus! {

/// A graphics API family.
#[derive(Clone, Copy, Debug, PartialEq, Eq, Structural)]
pub enum ApiKind {
    /// Desktop OpenGL.
    OpenGl,
    /// OpenGL ES 1.
    Gles1,
    /// OpenGL ES 2.
    Gles2,
    /// OpenGL ES 3.
    Gles3,
}

/// The capabilities a caller asks for.
#[derive(Clone, Copy, Debug, PartialEq, Eq, Structural)]
pub struct ConfigDescriptor {
    /// Requested API family.
    pub api: ApiKind,
    /// Requested number of samples per pixel; 0 asks for no multisampling.
    pub samples: u8,
    /// Whether the caller asks for double buffering. Selection always asks the
    /// platform for double buffering, whatever stands here.
    pub double_buffer: bool,
}

/// What is handed to the platform to enumerate configurations.
#[derive(Clone, Copy, Debug, PartialEq, Eq, Structural)]
pub struct ConfigTemplate {
    /// API family the configurations must support.
    pub api: ApiKind,
    /// Requested number of samples per pixel.
    pub samples: u8,
    /// Whether single buffering is asked for.
    pub single_buffering: bool,
}

/// One configuration as the platform describes it.
#[derive(Clone, Copy, Debug, PartialEq, Eq, Structural)]
pub struct PlatformConfig {
    /// Platform identifier of the configuration.
    pub id: u32,
    /// Whether desktop OpenGL can be used with it.
    pub opengl: bool,
    /// Whether OpenGL ES 1 can be used with it.
    pub gles1: bool,
    /// Whether OpenGL ES 2 can be used with it.
    pub gles2: bool,
    /// Whether OpenGL ES 3 can be used with it.
    pub gles3: bool,
    /// Samples per pixel; 0 when it has no multisampling.
    pub samples: u8,
}

/// The configuration a context and a surface are created with.
#[derive(Clone, Copy, Debug, PartialEq, Eq, Structural)]
pub struct SelectedConfig {
    /// The platform configuration that was picked.
    pub config: PlatformConfig,
    /// API family it is used with.
    pub api: ApiKind,
    /// Whether it is used double-buffered.
    pub double_buffered: bool,
}

impl PlatformConfig {
    /// Whether the configuration can be used with `api`.
    pub open spec fn supports(self, api: ApiKind) -> bool {
        match api {
            ApiKind::OpenGl => self.opengl,
            ApiKind::Gles1 => self.gles1,
            ApiKind::Gles2 => self.gles2,
            ApiKind::Gles3 => self.gles3,
        }
    }

    /// Tests whether the configuration can be used with `api`.
    pub fn supports_api(&self, api: ApiKind) -> (res: bool)
        ensures
            res == self.supports(api),
    {
        match api {
            ApiKind::OpenGl => self.opengl,
            ApiKind::Gles1 => self.gles1,
            ApiKind::Gles2 => self.gles2,
            ApiKind::Gles3 => self.gles3,
        }
    }
}

impl SelectedConfig {
    /// A selected configuration supports the API it is used with and is
    /// double-buffered.
    pub open spec fn wf(self) -> bool {
        self.config.supports(self.api) && self.double_buffered
    }

    /// Tests whether the configuration supports the API it is used with and
    /// is double-buffered.
    pub fn is_usable(&self) -> (res: bool)
        ensures
            res == self.wf(),
    {
        self.config.supports_api(self.api) && self.double_buffered
    }
}

impl ConfigDescriptor {
    /// The template the platform is asked with: the descriptor's API family
    /// and sample count, and never single buffering.
    pub open spec fn template_spec(self) -> ConfigTemplate {
        ConfigTemplate { api: self.api, samples: self.samples, single_buffering: false }
    }

    /// Builds the template handed to the platform. Single buffering is
    /// switched off whatever the descriptor says.
    pub fn template(&self) -> (res: ConfigTemplate)
        ensures
            res == self.template_spec(),
    {
        ConfigTemplate { api: self.api, samples: self.samples, single_buffering: false }
    }
}

/// The candidates that support `api`, in the order they were enumerated in.
pub open spec fn compatible(candidates: Seq<PlatformConfig>, api: ApiKind) -> Seq<PlatformConfig> {
    candidates.filter(|c: PlatformConfig| c.supports(api))
}

/// What selection yields once the policy has answered `index` on the
/// compatible candidates.
pub open spec fn selection(api: ApiKind, usable: Seq<PlatformConfig>, index: int) -> SelectedConfig {
    SelectedConfig { config: usable[index], api, double_buffered: true }
}

/// Every compatible candidate supports the API and is one of the candidates.
pub proof fn lemma_compatible_members(candidates: Seq<PlatformConfig>, api: ApiKind)
    ensures
        forall|i: int|
            0 <= i < compatible(candidates, api).len() ==> {
                &&& (#[trigger] compatible(candidates, api)[i]).supports(api)
                &&& candidates.contains(compatible(candidates, api)[i])
            },
        compatible(candidates, api).len() <= candidates.len(),
        compatible(candidates, api).len() > 0 <==> exists|j: int|
            0 <= j < candidates.len() && (#[trigger] candidates[j]).supports(api),
{
    let pred = |c: PlatformConfig| c.supports(api);
    let usable = compatible(candidates, api);
    candidates.lemma_filter_len(pred);
    assert forall|i: int| 0 <= i < usable.len() implies (#[trigger] usable[i]).supports(api)
        && candidates.contains(usable[i]) by {
        candidates.lemma_filter_pred(pred, i);
        candidates.lemma_filter_contains_rev(pred, usable[i]);
    }
    if exists|j: int| 0 <= j < candidates.len() && (#[trigger] candidates[j]).supports(api) {
        let j = choose|j: int| 0 <= j < candidates.len() && (#[trigger] candidates[j]).supports(api);
        candidates.lemma_filter_contains(pred, j);
    }
    if usable.len() > 0 {
        let c = usable[0];
        assert(candidates.contains(c));
    }
}

/// Whichever compatible candidate the policy names, and whatever the
/// descriptor's buffering field says, the selected configuration is one of
/// the candidates, has the requested API family, supports it, and is
/// double-buffered.
pub proof fn lemma_selection_matches_request(
    descriptor: ConfigDescriptor,
    candidates: Seq<PlatformConfig>,
    index: int,
)
    requires
        0 <= index < compatible(candidates, descriptor.api).len(),
    ensures
        selection(descriptor.api, compatible(candidates, descriptor.api), index).wf(),
        selection(descriptor.api, compatible(candidates, descriptor.api), index).api == descriptor.api,
        selection(descriptor.api, compatible(candidates, descriptor.api), index).double_buffered,
        candidates.contains(selection(descriptor.api, compatible(candidates, descriptor.api), index).config),
{
    lemma_compatible_members(candidates, descriptor.api);
}

/// Among no candidates none is compatible, whatever the API family.
pub proof fn lemma_no_candidate_is_compatible(api: ApiKind)
    ensures
        compatible(Seq::<PlatformConfig>::empty(), api).len() == 0,
{
    lemma_compatible_members(Seq::<PlatformConfig>::empty(), api);
}

/// Keeps the candidates that support `api`, in order.
pub fn enumerate(candidates: &Vec<PlatformConfig>, api: ApiKind) -> (res: Vec<PlatformConfig>)
    ensures
        res@ == compatible(candidates@, api),
{
    let mut usable: Vec<PlatformConfig> = Vec::new();
    let mut i: usize = 0;
    proof {
        reveal(Seq::filter);
    }
    while i < candidates.len()
        invariant
            i <= candidates.len(),
            usable@ == compatible(candidates@.take(i as int), api),
        decreases candidates.len() - i,
    {
        let c = candidates[i];
        proof {
            reveal(Seq::filter);
            assert(candidates@.take(i + 1).drop_last() =~= candidates@.take(i as int));
        }
        if c.supports_api(api) {
            usable.push(c);
        }
        i += 1;
    }
    proof {
        assert(candidates@.take(i as int) =~= candidates@);
    }
    usable
}

/// Builds the selected configuration from the policy's answer.
///
/// The API family is the requested one and the configuration is used
/// double-buffered, whatever the descriptor's buffering field says.
pub fn choose_candidate(descriptor: ConfigDescriptor, usable: &Vec<PlatformConfig>, index: usize) -> (res:
    SelectedConfig)
    requires
        index < usable@.len(),
    ensures
        res == selection(descriptor.api, usable@, index as int),
{
    SelectedConfig { config: usable[index], api: descriptor.api, double_buffered: true }
}

/// Picks one configuration among `candidates` with a caller-supplied policy.
///
/// The candidates that support the requested API are kept, in order. If none
/// is left the result is `NoCompatibleConfig` and the policy is not asked.
/// Otherwise the policy is asked once, on the kept candidates, for the index
/// of the one to use.
pub fn select<P>(descriptor: ConfigDescriptor, candidates: &Vec<PlatformConfig>, picker: P) -> (res: Result<
    SelectedConfig,
    GlutinError,
>) where P: FnOnce(&Vec<PlatformConfig>) -> usize
    requires
        forall|usable: &Vec<PlatformConfig>| usable@.len() > 0 ==> call_requires(picker, (usable,)),
        forall|usable: &Vec<PlatformConfig>, index: usize|
            usable@.len() > 0 && #[trigger] call_ensures(picker, (usable,), index) ==> index < usable@.len(),
    ensures
        compatible(candidates@, descriptor.api).len() == 0 <==> res == Err::<SelectedConfig, GlutinError>(
            GlutinError::NoCompatibleConfig,
        ),
        compatible(candidates@, descriptor.api).len() > 0 <==> res is Ok,
        res is Ok ==> exists|usable: &Vec<PlatformConfig>, index: usize|
            {
                &&& usable@ == compatible(candidates@, descriptor.api)
                &&& #[trigger] call_ensures(picker, (usable,), index)
                &&& res->Ok_0 == selection(descriptor.api, usable@, index as int)
            },
        res is Ok ==> {
            &&& res->Ok_0.wf()
            &&& res->Ok_0.api == descriptor.api
            &&& res->Ok_0.double_buffered
            &&& candidates@.contains(res->Ok_0.config)
        },
{
    let usable = enumerate(candidates, descriptor.api);
    if usable.len() == 0 {
        return Err(GlutinError::NoCompatibleConfig);
    }
    let index = picker(&usable);
    proof {
        lemma_compatible_members(candidates@, descriptor.api);
    }
    Ok(choose_candidate(descriptor, &usable, index))
}

/// Picks the first configuration among `candidates` that supports the
/// requested API.
pub fn select_first(descriptor: ConfigDescriptor, candidates: &Vec<PlatformConfig>) -> (res: Result<
    SelectedConfig,
    GlutinError,
>)
    ensures
        res == (if compatible(candidates@, descriptor.api).len() == 0 {
            Err::<SelectedConfig, GlutinError>(GlutinError::NoCompatibleConfig)
        } else {
            Ok::<SelectedConfig, GlutinError>(selection(descriptor.api, compatible(candidates@, descriptor.api), 0))
        }),
        res is Ok ==> res->Ok_0.wf() && candidates@.contains(res->Ok_0.config),
{
    let usable = enumerate(candidates, descriptor.api);
    if usable.len() == 0 {
        return Err(GlutinError::NoCompatibleConfig);
    }
    proof {
        lemma_compatible_members(candidates@, descriptor.api);
    }
    Ok(choose_candidate(descriptor, &usable, 0))
}

} // verus!
