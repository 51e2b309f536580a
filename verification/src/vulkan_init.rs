//! The bring-up of instance, device and queue as a sequence of driver calls:
//! the library decides each call from the replies so far, and the program
//! around it performs the calls.

use vstd::prelude::*;
use vstd::string::StringExecFns;

use crate::devices::{
    choice, classes_of, classify_devices, is_choice, lemma_choice_exists, select_physical_device,
};
use crate::names::{
    clone_names, dedup_names, has_nv_optimus, join_names, lemma_without_duplicates, names_of,
    optimus_layer, without_duplicates,
};
use crate::versions::{
    lemma_version_numbers, resolve_instance_version, resolved_version, target_api_version,
    target_version, Platform,
};
use crate::GraphicsInteropSettings;

verus! {

/// The name by which the application makes itself known to the driver.
pub const APPLICATION_NAME: &'static str = "bevy_graphics_interop vulkan app";

/// The version by which the application makes itself known to the driver.
pub const APPLICATION_VERSION: u32 = 1;

/// The name of the engine that the instance is created for.
pub const ENGINE_NAME: &'static str = "bevy";

/// The version of the engine that the instance is created for.
pub const ENGINE_VERSION: u32 = 15;

/// Why the bring-up failed. Every failure ends it: nothing is tried again.
#[derive(Debug)]
pub enum VulkanInitError {
    /// The instance enumerated no physical device.
    NoPhysicalDevice,
    /// The chosen physical device could not be exposed as an adapter.
    NoWgpuAdapter,
    /// The Vulkan library could not be loaded; with the loader's words.
    AshLoadingErr(String),
    /// A Vulkan call failed; with its raw `VkResult` code.
    AshErr(i32),
    /// The instance could not be wrapped; with the wrapping layer's words.
    WgpuHalInstanceErr(String),
    /// The device could not be opened; with the wrapping layer's words.
    WgpuHalDeviceErr(String),
    /// The device was not granted; with the wrapping layer's words.
    WgpuRequestDeviceErr(String),
}

/// What `ash::vk::Result` prints for a raw result code.
pub uninterp spec fn vk_result_text(code: i32) -> Seq<char>;

/// Trusted: the text that the `Display` impl of `ash::vk::Result` writes for
/// the result with the raw code `code`, which depends on the code alone.
#[verifier::external_body]
fn describe_vk_result(code: i32) -> (text: String)
    ensures
        text@ == vk_result_text(code),
{
    ash::vk::Result::from_raw(code).to_string()
}

/// `detail` behind `prefix`, as one string.
pub fn prefixed(prefix: &str, detail: &str) -> (text: String)
    ensures
        text@ == prefix@ + detail@,
{
    let start = String::from_str(prefix);
    start.concat(detail)
}

impl VulkanInitError {
    /// The diagnostic for this error: which step failed, and what the layer
    /// below said of it.
    pub open spec fn message_text(&self) -> Seq<char> {
        match self {
            VulkanInitError::NoPhysicalDevice => "No Physical Vulkan Device"@,
            VulkanInitError::NoWgpuAdapter =>
                "No Wgpu adapter could be provided for the Physical Device"@,
            VulkanInitError::AshLoadingErr(detail) => "unable to load vulkan: "@ + detail@,
            VulkanInitError::AshErr(code) => "vulkan error: "@ + vk_result_text(*code),
            VulkanInitError::WgpuHalInstanceErr(detail) => "wgpu_hal instance error: "@ + detail@,
            VulkanInitError::WgpuHalDeviceErr(detail) => "wgpu_hal device error: "@ + detail@,
            VulkanInitError::WgpuRequestDeviceErr(detail) => "failed to request wgpu device: "@
                + detail@,
        }
    }

    /// The diagnostic for this error.
    pub fn message(&self) -> (text: String)
        ensures
            text@ == self.message_text(),
    {
        match self {
            VulkanInitError::NoPhysicalDevice => String::from_str("No Physical Vulkan Device"),
            VulkanInitError::NoWgpuAdapter => String::from_str(
                "No Wgpu adapter could be provided for the Physical Device",
            ),
            VulkanInitError::AshLoadingErr(detail) => prefixed(
                "unable to load vulkan: ",
                detail.as_str(),
            ),
            VulkanInitError::AshErr(code) => {
                let described = describe_vk_result(*code);
                prefixed("vulkan error: ", described.as_str())
            },
            VulkanInitError::WgpuHalInstanceErr(detail) => prefixed(
                "wgpu_hal instance error: ",
                detail.as_str(),
            ),
            VulkanInitError::WgpuHalDeviceErr(detail) => prefixed(
                "wgpu_hal device error: ",
                detail.as_str(),
            ),
            VulkanInitError::WgpuRequestDeviceErr(detail) => prefixed(
                "failed to request wgpu device: ",
                detail.as_str(),
            ),
        }
    }
}

/// The driver call whose reply the bring-up waits for.
#[derive(Clone, Copy, Debug, PartialEq, Eq, Structural)]
pub enum Stage {
    LoadingDriver,
    QueryingInstanceExtensions,
    CreatingInstance,
    EnumeratingLayers,
    QueryingInstanceVersion,
    WrappingInstance,
    EnumeratingDevices,
    ExposingAdapter,
    QueryingDeviceExtensions,
    CreatingDevice,
    WrappingDevice,
    /// The bundle was delivered.
    Finished,
    /// The bring-up was aborted.
    Failed,
}

/// What a driver call gave back.
#[derive(Debug)]
pub enum DriverReply {
    /// The call succeeded and gives nothing to decide on.
    Done,
    /// Names of extensions or layers, in the order given by the driver.
    Names(Vec<String>),
    /// The instance version, where the instance reports one.
    InstanceVersion(Option<u32>),
    /// The raw type value of each enumerated physical device, in the order
    /// of enumeration.
    PhysicalDevices(Vec<i32>),
    /// Whether the chosen device was exposed as an adapter.
    Adapter(bool),
    /// The call failed.
    Failed(VulkanInitError),
}

/// The next thing to do for the bring-up.
#[derive(Debug)]
pub enum DriverCall {
    /// Load the Vulkan library.
    LoadDriver,
    /// Ask which instance extensions are wanted for `api_version`.
    QueryInstanceExtensions { api_version: u32 },
    /// Create the instance for `api_version` with `extensions`, under the
    /// names `APPLICATION_NAME` and `ENGINE_NAME` and the versions given.
    CreateInstance {
        api_version: u32,
        application_version: u32,
        engine_version: u32,
        extensions: Vec<String>,
    },
    /// Enumerate the instance layers.
    EnumerateLayers,
    /// Ask for the version that the instance supports.
    QueryInstanceVersion,
    /// Wrap the instance.
    WrapInstance { api_version: u32, has_nv_optimus: bool, extensions: Vec<String> },
    /// Enumerate the physical devices and their types.
    EnumeratePhysicalDevices,
    /// Expose the device at `device` in the enumeration as an adapter.
    ExposeAdapter { device: usize },
    /// Ask which device extensions the adapter's features need.
    QueryDeviceExtensions,
    /// Create the logical device on the device at `device` in the
    /// enumeration, with one queue of priority one from `queue_family`, with
    /// `extensions` enabled and with the features that `required` calls for.
    CreateDevice {
        device: usize,
        queue_family: u32,
        multiview: bool,
        extensions: Vec<String>,
        required: Vec<String>,
    },
    /// Wrap the logical device and its queue.
    WrapDevice { queue_family: u32, queue_index: u32, extensions: Vec<String> },
    /// Hand the bundle to the caller.
    Deliver,
    /// Give up with the error.
    Abort(VulkanInitError),
}

/// A bring-up under way: what it waits for and what it has learned.
#[derive(Debug)]
pub struct Bringup {
    pub stage: Stage,
    pub platform: Platform,
    /// The device extensions that the caller asked for.
    pub requested: Vec<String>,
    /// The instance extensions that the instance is created with.
    pub instance_extensions: Vec<String>,
    pub has_nv_optimus: bool,
    pub instance_version: u32,
    /// The place of the chosen device in the enumeration.
    pub device: usize,
    /// The device extensions that the adapter's features need.
    pub required: Vec<String>,
}

/// A reply with its names as character sequences.
pub enum ReplyView {
    Done,
    Names(Seq<Seq<char>>),
    InstanceVersion(Option<u32>),
    PhysicalDevices(Seq<i32>),
    Adapter(bool),
    Failed(VulkanInitError),
}

/// A call with its names as character sequences.
pub enum CallView {
    LoadDriver,
    QueryInstanceExtensions { api_version: u32 },
    CreateInstance {
        api_version: u32,
        application_version: u32,
        engine_version: u32,
        extensions: Seq<Seq<char>>,
    },
    EnumerateLayers,
    QueryInstanceVersion,
    WrapInstance { api_version: u32, has_nv_optimus: bool, extensions: Seq<Seq<char>> },
    EnumeratePhysicalDevices,
    ExposeAdapter { device: int },
    QueryDeviceExtensions,
    CreateDevice {
        device: int,
        queue_family: u32,
        multiview: bool,
        extensions: Seq<Seq<char>>,
        required: Seq<Seq<char>>,
    },
    WrapDevice { queue_family: u32, queue_index: u32, extensions: Seq<Seq<char>> },
    Deliver,
    Abort(VulkanInitError),
}

/// A bring-up with its names as character sequences.
pub struct BringupView {
    pub stage: Stage,
    pub platform: Platform,
    pub requested: Seq<Seq<char>>,
    pub instance_extensions: Seq<Seq<char>>,
    pub has_nv_optimus: bool,
    pub instance_version: u32,
    pub device: int,
    pub required: Seq<Seq<char>>,
}

impl View for DriverReply {
    type V = ReplyView;

    open spec fn view(&self) -> ReplyView {
        match self {
            DriverReply::Done => ReplyView::Done,
            DriverReply::Names(names) => ReplyView::Names(names_of(names@)),
            DriverReply::InstanceVersion(version) => ReplyView::InstanceVersion(*version),
            DriverReply::PhysicalDevices(raw) => ReplyView::PhysicalDevices(raw@),
            DriverReply::Adapter(exposed) => ReplyView::Adapter(*exposed),
            DriverReply::Failed(error) => ReplyView::Failed(*error),
        }
    }
}

impl View for DriverCall {
    type V = CallView;

    open spec fn view(&self) -> CallView {
        match self {
            DriverCall::LoadDriver => CallView::LoadDriver,
            DriverCall::QueryInstanceExtensions { api_version } => {
                CallView::QueryInstanceExtensions { api_version: *api_version }
            },
            DriverCall::CreateInstance {
                api_version,
                application_version,
                engine_version,
                extensions,
            } => CallView::CreateInstance {
                api_version: *api_version,
                application_version: *application_version,
                engine_version: *engine_version,
                extensions: names_of(extensions@),
            },
            DriverCall::EnumerateLayers => CallView::EnumerateLayers,
            DriverCall::QueryInstanceVersion => CallView::QueryInstanceVersion,
            DriverCall::WrapInstance { api_version, has_nv_optimus, extensions } => {
                CallView::WrapInstance {
                    api_version: *api_version,
                    has_nv_optimus: *has_nv_optimus,
                    extensions: names_of(extensions@),
                }
            },
            DriverCall::EnumeratePhysicalDevices => CallView::EnumeratePhysicalDevices,
            DriverCall::ExposeAdapter { device } => CallView::ExposeAdapter {
                device: *device as int,
            },
            DriverCall::QueryDeviceExtensions => CallView::QueryDeviceExtensions,
            DriverCall::CreateDevice { device, queue_family, multiview, extensions, required } => {
                CallView::CreateDevice {
                    device: *device as int,
                    queue_family: *queue_family,
                    multiview: *multiview,
                    extensions: names_of(extensions@),
                    required: names_of(required@),
                }
            },
            DriverCall::WrapDevice { queue_family, queue_index, extensions } => {
                CallView::WrapDevice {
                    queue_family: *queue_family,
                    queue_index: *queue_index,
                    extensions: names_of(extensions@),
                }
            },
            DriverCall::Deliver => CallView::Deliver,
            DriverCall::Abort(error) => CallView::Abort(*error),
        }
    }
}

impl View for Bringup {
    type V = BringupView;

    open spec fn view(&self) -> BringupView {
        BringupView {
            stage: self.stage,
            platform: self.platform,
            requested: names_of(self.requested@),
            instance_extensions: names_of(self.instance_extensions@),
            has_nv_optimus: self.has_nv_optimus,
            instance_version: self.instance_version,
            device: self.device as int,
            required: names_of(self.required@),
        }
    }
}

/// `state`, now waiting in `stage`.
pub open spec fn at_stage(state: BringupView, stage: Stage) -> BringupView {
    BringupView { stage, ..state }
}

/// Whether the bring-up has ended, in a delivered bundle or in an error.
pub open spec fn is_over(stage: Stage) -> bool {
    stage == Stage::Finished || stage == Stage::Failed
}

/// The state in which a bring-up starts, waiting for the driver to load.
pub open spec fn initial(platform: Platform, requested: Seq<Seq<char>>) -> BringupView {
    BringupView {
        stage: Stage::LoadingDriver,
        platform,
        requested,
        instance_extensions: Seq::empty(),
        has_nv_optimus: false,
        instance_version: 0,
        device: 0,
        required: Seq::empty(),
    }
}

/// What a reply that carries no value leads to.
pub open spec fn after_done(state: BringupView) -> Option<(BringupView, CallView)> {
    match state.stage {
        Stage::LoadingDriver => Some(
            (
                at_stage(state, Stage::QueryingInstanceExtensions),
                CallView::QueryInstanceExtensions { api_version: target_version(state.platform) },
            ),
        ),
        Stage::CreatingInstance => Some(
            (at_stage(state, Stage::EnumeratingLayers), CallView::EnumerateLayers),
        ),
        Stage::WrappingInstance => Some(
            (at_stage(state, Stage::EnumeratingDevices), CallView::EnumeratePhysicalDevices),
        ),
        Stage::CreatingDevice => Some(
            (
                at_stage(state, Stage::WrappingDevice),
                CallView::WrapDevice {
                    queue_family: 0,
                    queue_index: 0,
                    extensions: state.required,
                },
            ),
        ),
        Stage::WrappingDevice => Some((at_stage(state, Stage::Finished), CallView::Deliver)),
        _ => None,
    }
}

/// What a list of names leads to.
pub open spec fn after_names(state: BringupView, names: Seq<Seq<char>>) -> Option<
    (BringupView, CallView),
> {
    match state.stage {
        Stage::QueryingInstanceExtensions => Some(
            (
                BringupView {
                    stage: Stage::CreatingInstance,
                    instance_extensions: without_duplicates(names),
                    ..state
                },
                CallView::CreateInstance {
                    api_version: target_version(state.platform),
                    application_version: APPLICATION_VERSION,
                    engine_version: ENGINE_VERSION,
                    extensions: without_duplicates(names),
                },
            ),
        ),
        Stage::EnumeratingLayers => Some(
            (
                BringupView {
                    stage: Stage::QueryingInstanceVersion,
                    has_nv_optimus: names.contains(optimus_layer()),
                    ..state
                },
                CallView::QueryInstanceVersion,
            ),
        ),
        Stage::QueryingDeviceExtensions => Some(
            (
                BringupView { stage: Stage::CreatingDevice, required: names, ..state },
                CallView::CreateDevice {
                    device: state.device,
                    queue_family: 0,
                    multiview: true,
                    extensions: state.requested + names,
                    required: names,
                },
            ),
        ),
        _ => None,
    }
}

/// What the list of enumerated devices leads to.
pub open spec fn after_devices(state: BringupView, raw: Seq<i32>) -> Option<
    (BringupView, CallView),
> {
    if state.stage != Stage::EnumeratingDevices {
        None
    } else {
        match choice(classes_of(raw)) {
            Some(device) => Some(
                (
                    BringupView { stage: Stage::ExposingAdapter, device, ..state },
                    CallView::ExposeAdapter { device },
                ),
            ),
            None => Some(
                (
                    at_stage(state, Stage::Failed),
                    CallView::Abort(VulkanInitError::NoPhysicalDevice),
                ),
            ),
        }
    }
}

/// The state after `reply` and the call to make next; `None` where the
/// bring-up is over or waits for another kind of reply. A failed call ends
/// the bring-up with its error, whatever the call was.
pub open spec fn next(state: BringupView, reply: ReplyView) -> Option<(BringupView, CallView)> {
    if is_over(state.stage) {
        None
    } else {
        match reply {
            ReplyView::Failed(error) => Some(
                (at_stage(state, Stage::Failed), CallView::Abort(error)),
            ),
            ReplyView::Done => after_done(state),
            ReplyView::Names(names) => after_names(state, names),
            ReplyView::InstanceVersion(reported) => if state.stage
                == Stage::QueryingInstanceVersion {
                Some(
                    (
                        BringupView {
                            stage: Stage::WrappingInstance,
                            instance_version: resolved_version(reported),
                            ..state
                        },
                        CallView::WrapInstance {
                            api_version: resolved_version(reported),
                            has_nv_optimus: state.has_nv_optimus,
                            extensions: state.instance_extensions,
                        },
                    ),
                )
            } else {
                None
            },
            ReplyView::PhysicalDevices(raw) => after_devices(state, raw),
            ReplyView::Adapter(exposed) => if state.stage != Stage::ExposingAdapter {
                None
            } else if exposed {
                Some(
                    (
                        at_stage(state, Stage::QueryingDeviceExtensions),
                        CallView::QueryDeviceExtensions,
                    ),
                )
            } else {
                Some(
                    (
                        at_stage(state, Stage::Failed),
                        CallView::Abort(VulkanInitError::NoWgpuAdapter),
                    ),
                )
            },
        }
    }
}

impl Bringup {
    /// Starts a bring-up for `platform` with the device extensions that
    /// `settings` asks for, which it takes over. The first call loads the
    /// driver.
    pub fn begin(platform: Platform, settings: GraphicsInteropSettings) -> (out: (
        Bringup,
        DriverCall,
    ))
        ensures
            out.0@ == initial(platform, settings.device_extensions()),
            out.1@ == CallView::LoadDriver,
    {
        let state = Bringup {
            stage: Stage::LoadingDriver,
            platform,
            requested: settings.into_device_extensions(),
            instance_extensions: Vec::new(),
            has_nv_optimus: false,
            instance_version: 0,
            device: 0,
            required: Vec::new(),
        };
        assert(names_of(state.instance_extensions@) =~= Seq::<Seq<char>>::empty());
        assert(names_of(state.required@) =~= Seq::<Seq<char>>::empty());
        (state, DriverCall::LoadDriver)
    }

    /// Whether the bring-up has ended and takes no further reply.
    pub fn is_over(&self) -> (over: bool)
        ensures
            over == is_over(self@.stage),
    {
        match self.stage {
            Stage::Finished => true,
            Stage::Failed => true,
            _ => false,
        }
    }

    /// Takes the reply to the call that was made last and decides what to
    /// do next. Gives `None` where the bring-up is over or `reply` is not
    /// of the kind that it waits for.
    pub fn advance(self, reply: DriverReply) -> (out: Option<(Bringup, DriverCall)>)
        ensures
            out matches Some((state, call)) ==> next(self@, reply@) == Some((state@, call@)),
            out.is_none() ==> next(self@, reply@).is_none(),
    {
        if self.is_over() {
            return None;
        }
        let mut state = self;
        match reply {
            DriverReply::Failed(error) => {
                state.stage = Stage::Failed;
                Some((state, DriverCall::Abort(error)))
            },
            DriverReply::Done => match state.stage {
                Stage::LoadingDriver => {
                    let api_version = target_api_version(state.platform);
                    state.stage = Stage::QueryingInstanceExtensions;
                    Some((state, DriverCall::QueryInstanceExtensions { api_version }))
                },
                Stage::CreatingInstance => {
                    state.stage = Stage::EnumeratingLayers;
                    Some((state, DriverCall::EnumerateLayers))
                },
                Stage::WrappingInstance => {
                    state.stage = Stage::EnumeratingDevices;
                    Some((state, DriverCall::EnumeratePhysicalDevices))
                },
                Stage::CreatingDevice => {
                    let extensions = clone_names(&state.required);
                    state.stage = Stage::WrappingDevice;
                    Some(
                        (
                            state,
                            DriverCall::WrapDevice { queue_family: 0, queue_index: 0, extensions },
                        ),
                    )
                },
                Stage::WrappingDevice => {
                    state.stage = Stage::Finished;
                    Some((state, DriverCall::Deliver))
                },
                _ => None,
            },
            DriverReply::Names(names) => match state.stage {
                Stage::QueryingInstanceExtensions => {
                    let api_version = target_api_version(state.platform);
                    let kept = dedup_names(&names);
                    let extensions = clone_names(&kept);
                    state.stage = Stage::CreatingInstance;
                    state.instance_extensions = kept;
                    Some(
                        (
                            state,
                            DriverCall::CreateInstance {
                                api_version,
                                application_version: APPLICATION_VERSION,
                                engine_version: ENGINE_VERSION,
                                extensions,
                            },
                        ),
                    )
                },
                Stage::EnumeratingLayers => {
                    state.has_nv_optimus = has_nv_optimus(&names);
                    state.stage = Stage::QueryingInstanceVersion;
                    Some((state, DriverCall::QueryInstanceVersion))
                },
                Stage::QueryingDeviceExtensions => {
                    let extensions = join_names(&state.requested, &names);
                    let required = clone_names(&names);
                    let device = state.device;
                    state.stage = Stage::CreatingDevice;
                    state.required = names;
                    Some(
                        (
                            state,
                            DriverCall::CreateDevice {
                                device,
                                queue_family: 0,
                                multiview: true,
                                extensions,
                                required,
                            },
                        ),
                    )
                },
                _ => None,
            },
            DriverReply::InstanceVersion(reported) => match state.stage {
                Stage::QueryingInstanceVersion => {
                    let api_version = resolve_instance_version(reported);
                    let extensions = clone_names(&state.instance_extensions);
                    let has_nv_optimus = state.has_nv_optimus;
                    state.stage = Stage::WrappingInstance;
                    state.instance_version = api_version;
                    Some(
                        (
                            state,
                            DriverCall::WrapInstance { api_version, has_nv_optimus, extensions },
                        ),
                    )
                },
                _ => None,
            },
            DriverReply::PhysicalDevices(raw) => match state.stage {
                Stage::EnumeratingDevices => {
                    let classes = classify_devices(&raw);
                    match select_physical_device(&classes) {
                        Some(device) => {
                            state.stage = Stage::ExposingAdapter;
                            state.device = device;
                            Some((state, DriverCall::ExposeAdapter { device }))
                        },
                        None => {
                            state.stage = Stage::Failed;
                            Some((state, DriverCall::Abort(VulkanInitError::NoPhysicalDevice)))
                        },
                    }
                },
                _ => None,
            },
            DriverReply::Adapter(exposed) => match state.stage {
                Stage::ExposingAdapter => {
                    if exposed {
                        state.stage = Stage::QueryingDeviceExtensions;
                        Some((state, DriverCall::QueryDeviceExtensions))
                    } else {
                        state.stage = Stage::Failed;
                        Some((state, DriverCall::Abort(VulkanInitError::NoWgpuAdapter)))
                    }
                },
                _ => None,
            },
        }
    }
}

/// The step of a program's start-up that brings the graphics device up
/// before the renderer would look for one itself.
#[derive(Clone, Copy, Debug)]
pub struct VulkanWgpuInitPlugin;

impl VulkanWgpuInitPlugin {
    /// Decides what the step does: with settings it starts a bring-up and
    /// gives its first call; without them it does nothing.
    pub fn start(&self, platform: Platform, settings: Option<GraphicsInteropSettings>) -> (out:
        Option<(Bringup, DriverCall)>)
        ensures
            settings.is_none() <==> out.is_none(),
            out matches Some((state, call)) ==> state@ == initial(
                platform,
                settings.unwrap().device_extensions(),
            ) && call@ == CallView::LoadDriver,
    {
        match settings {
            Some(settings) => Some(Bringup::begin(platform, settings)),
            None => None,
        }
    }
}

/// Once the bring-up is over, in a bundle or in an error, no reply leads to
/// another driver call.
pub proof fn lemma_over_is_final(state: BringupView, reply: ReplyView)
    requires
        is_over(state.stage),
    ensures
        next(state, reply).is_none(),
{
}

/// A failed call ends the bring-up at once, with the error of that call:
/// whatever it waited for, and with nothing tried again.
pub proof fn lemma_failure_is_passed_on(state: BringupView, error: VulkanInitError)
    requires
        !is_over(state.stage),
    ensures
        next(state, ReplyView::Failed(error)) == Some(
            (at_stage(state, Stage::Failed), CallView::Abort(error)),
        ),
{
}

/// The instance is created with the names that the layer asked for, each of
/// them once and in the order of first occurrence: none is left out, and
/// none comes in from elsewhere.
pub proof fn lemma_instance_gets_each_extension_once(state: BringupView, wanted: Seq<Seq<char>>)
    requires
        state.stage == Stage::QueryingInstanceExtensions,
    ensures
        next(state, ReplyView::Names(wanted)) == Some(
            (
                (BringupView {
                    stage: Stage::CreatingInstance,
                    instance_extensions: without_duplicates(wanted),
                    ..state
                }),
                (CallView::CreateInstance {
                    api_version: target_version(state.platform),
                    application_version: APPLICATION_VERSION,
                    engine_version: ENGINE_VERSION,
                    extensions: without_duplicates(wanted),
                }),
            ),
        ),
        without_duplicates(wanted).no_duplicates(),
        forall|name: Seq<char>|
            without_duplicates(wanted).contains(name) <==> wanted.contains(name),
{
    lemma_without_duplicates(wanted);
}

/// Where no physical device was enumerated the bring-up fails with
/// `NoPhysicalDevice`, and no reply leads to a driver call after that.
pub proof fn lemma_no_device_ends_bringup(state: BringupView, later: ReplyView)
    requires
        state.stage == Stage::EnumeratingDevices,
    ensures
        next(state, ReplyView::PhysicalDevices(Seq::empty())) == Some(
            (at_stage(state, Stage::Failed), CallView::Abort(VulkanInitError::NoPhysicalDevice)),
        ),
        next(at_stage(state, Stage::Failed), later).is_none(),
{
    assert(classes_of(Seq::<i32>::empty()).len() == 0);
}

/// Where at least one physical device was enumerated, the bring-up goes on
/// with the chosen device and does not fail for want of one.
pub proof fn lemma_some_device_is_exposed(state: BringupView, raw: Seq<i32>)
    requires
        state.stage == Stage::EnumeratingDevices,
        raw.len() > 0,
    ensures
        choice(classes_of(raw)) matches Some(device) && is_choice(classes_of(raw), device) && next(
            state,
            ReplyView::PhysicalDevices(raw),
        ) == Some(
            (
                (BringupView { stage: Stage::ExposingAdapter, device, ..state }),
                (CallView::ExposeAdapter { device }),
            ),
        ),
{
    lemma_choice_exists(classes_of(raw));
}

/// Where the chosen device is not exposed as an adapter the bring-up fails
/// with `NoWgpuAdapter`; no reply leads to a driver call after that, so no
/// logical device is created and no other physical device is tried.
pub proof fn lemma_declined_adapter_ends_bringup(state: BringupView, later: ReplyView)
    requires
        state.stage == Stage::ExposingAdapter,
    ensures
        next(state, ReplyView::Adapter(false)) == Some(
            (at_stage(state, Stage::Failed), CallView::Abort(VulkanInitError::NoWgpuAdapter)),
        ),
        next(at_stage(state, Stage::Failed), later).is_none(),
{
}

/// An instance that reports no version is taken to support version 1.0, and
/// the bring-up goes on to wrap it.
pub proof fn lemma_unreported_version_is_oldest(state: BringupView)
    requires
        state.stage == Stage::QueryingInstanceVersion,
    ensures
        next(state, ReplyView::InstanceVersion(None)) == Some(
            (
                (BringupView {
                    stage: Stage::WrappingInstance,
                    instance_version: 0x40_0000,
                    ..state
                }),
                (CallView::WrapInstance {
                    api_version: 0x40_0000,
                    has_nv_optimus: state.has_nv_optimus,
                    extensions: state.instance_extensions,
                }),
            ),
        ),
{
    lemma_version_numbers();
}

/// No step changes the platform or the device extensions that the caller
/// asked for.
pub proof fn lemma_request_is_kept(state: BringupView, reply: ReplyView)
    ensures
        next(state, reply) matches Some((after, _)) ==> after.requested == state.requested
            && after.platform == state.platform,
{
}

/// The logical device is created on the chosen device with every extension
/// that the caller asked for, in the caller's order, followed by those that
/// the adapter's features need.
pub proof fn lemma_device_gets_all_extensions(state: BringupView, needed: Seq<Seq<char>>)
    requires
        state.stage == Stage::QueryingDeviceExtensions,
    ensures
        next(state, ReplyView::Names(needed)) == Some(
            (
                (BringupView { stage: Stage::CreatingDevice, required: needed, ..state }),
                (CallView::CreateDevice {
                    device: state.device,
                    queue_family: 0,
                    multiview: true,
                    extensions: state.requested + needed,
                    required: needed,
                }),
            ),
        ),
        (state.requested + needed).take(state.requested.len() as int) == state.requested,
        forall|name: Seq<char>|
            state.requested.contains(name) || needed.contains(name) ==> (state.requested
                + needed).contains(name),
{
    let all = state.requested + needed;
    assert(all.take(state.requested.len() as int) =~= state.requested);
    assert forall|name: Seq<char>|
        state.requested.contains(name) || needed.contains(name) implies all.contains(name) by {
        if state.requested.contains(name) {
            let i = choose|i: int| 0 <= i < state.requested.len() && state.requested[i] == name;
            assert(all[i] == name);
        } else {
            let i = choose|i: int| 0 <= i < needed.len() && needed[i] == name;
            assert(all[state.requested.len() + i] == name);
        }
    }
}

/// The state that `replies`, taken one after the other from `start`, lead
/// to; `None` where one of them is not taken.
pub open spec fn state_after(start: BringupView, replies: Seq<ReplyView>) -> Option<BringupView>
    decreases replies.len(),
{
    if replies.len() == 0 {
        Some(start)
    } else {
        match state_after(start, replies.drop_last()) {
            Some(state) => match next(state, replies.last()) {
                Some((after, _)) => Some(after),
                None => None,
            },
            None => None,
        }
    }
}

/// However a bring-up goes, it keeps the platform and the device extensions
/// that it was started with.
pub proof fn lemma_run_keeps_request(start: BringupView, replies: Seq<ReplyView>)
    ensures
        state_after(start, replies) matches Some(state) ==> state.requested == start.requested
            && state.platform == start.platform,
    decreases replies.len(),
{
    if replies.len() > 0 {
        lemma_run_keeps_request(start, replies.drop_last());
    }
}

/// Whenever a bring-up that was started with `requested` comes to create the
/// logical device, the extensions of that call begin with `requested` and go
/// on with those that the adapter's features need.
pub proof fn lemma_run_creates_device_with_request(
    platform: Platform,
    requested: Seq<Seq<char>>,
    replies: Seq<ReplyView>,
    needed: Seq<Seq<char>>,
)
    requires
        state_after(initial(platform, requested), replies) matches Some(state) && state.stage
            == Stage::QueryingDeviceExtensions,
    ensures
        next(
            state_after(initial(platform, requested), replies).unwrap(),
            ReplyView::Names(needed),
        ) matches Some((_, call)) && call == (CallView::CreateDevice {
            device: state_after(initial(platform, requested), replies).unwrap().device,
            queue_family: 0,
            multiview: true,
            extensions: requested + needed,
            required: needed,
        }),
{
    lemma_run_keeps_request(initial(platform, requested), replies);
}

/// Once a run of replies has ended the bring-up, no longer run is taken: no
/// driver call follows a delivered bundle or an error.
pub proof fn lemma_run_ends_once(start: BringupView, replies: Seq<ReplyView>, later: ReplyView)
    requires
        state_after(start, replies) matches Some(state) && is_over(state.stage),
    ensures
        state_after(start, replies.push(later)).is_none(),
{
    assert(replies.push(later).drop_last() =~= replies);
}

} // verus!
