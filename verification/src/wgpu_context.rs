//! The GPU context and the protocol that makes one.
//!
//! A context comes out of two requests to the GPU API: one for an adapter,
//! one for a device on it. Both are asynchronous, so the caller makes them.
//! This module says what to ask for and what each answer leads to:
//!
//! - [`WgpuContext::new`] or [`WgpuContext::new_with_limits`] gives an
//!   [`AwaitingAdapter`], which holds the options of the adapter request.
//! - [`AwaitingAdapter::adapter_answered`] takes the answer and gives an
//!   [`AwaitingDevice`], which holds the adapter and the device request.
//! - [`AwaitingDevice::device_answered`] takes the answer and gives the
//!   [`WgpuContext`].
//!
//! Nothing is kept between two constructions, and no step retries.

use crate::error::BitNetError;
use crate::features::{feature_flags, negotiate_features, negotiated_flags, wanted_flags};
use std::sync::Arc;
use vstd::prelude::*;

verus! {

/// `wgpu::Limits`: the capability bounds that a device must satisfy. Carried
/// through to the device request as the caller gave it.
#[verifier::external_type_specification]
#[verifier::external_body]
pub struct ExLimits(wgpu::Limits);

/// `wgpu::Adapter`: a handle to one physical or virtual GPU.
#[verifier::external_type_specification]
#[verifier::external_body]
pub struct ExAdapter(wgpu::Adapter);

/// `wgpu::Device`: a logical connection to an adapter.
#[verifier::external_type_specification]
#[verifier::external_body]
pub struct ExDevice(wgpu::Device);

/// `wgpu::Queue`: the channel through which work reaches a device.
#[verifier::external_type_specification]
#[verifier::external_body]
pub struct ExQueue(wgpu::Queue);

/// `wgpu::Surface`: a window or canvas that an adapter can present to. A
/// compute context has none.
#[verifier::external_type_specification]
#[verifier::external_body]
pub struct ExSurface<'window>(wgpu::Surface<'window>);

/// `wgpu::RequestAdapterError`: why the GPU API found no adapter.
#[verifier::external_type_specification]
#[verifier::external_body]
pub struct ExRequestAdapterError(wgpu::RequestAdapterError);

/// `wgpu::Adapter::features`: the features that devices on this adapter can
/// have. What comes back depends on the machine, so nothing is claimed of it.
#[verifier::external_body]
fn adapter_features(adapter: &wgpu::Adapter) -> wgpu::Features {
    adapter.features()
}

/// `wgpu::Device::features`: the features that can be used on this device.
/// What comes back depends on the device, so nothing is claimed of it.
#[verifier::external_body]
fn device_features(device: &wgpu::Device) -> wgpu::Features {
    device.features()
}

/// `Arc::clone`: one more pointer to the same allocation. Nothing is copied,
/// so the new pointer holds what the old one holds.
#[verifier::external_body]
fn share<T>(handle: &Arc<T>) -> (other: Arc<T>)
    ensures
        other == *handle,
{
    Arc::clone(handle)
}

/// How much the power draw of an adapter counts in its selection.
#[derive(Clone, Copy, Debug, PartialEq, Eq, Structural)]
pub enum PowerPreference {
    /// Power draw is not considered.
    Unspecified,
    /// The adapter that draws the least power.
    LowPower,
    /// The adapter with the highest performance.
    HighPerformance,
}

/// The criteria of an adapter request.
#[derive(Debug)]
pub struct AdapterOptions {
    /// The weight of power draw in the selection.
    pub power_preference: PowerPreference,
    /// Whether only a software fallback adapter may be returned.
    pub force_fallback_adapter: bool,
    /// The surface that the adapter must be able to present to, if any.
    pub compatible_surface: Option<wgpu::Surface<'static>>,
}

impl AdapterOptions {
    /// The one policy that a context is made under: the fastest adapter, no
    /// forced software fallback, no surface to present to.
    pub open spec fn fixed_policy() -> AdapterOptions {
        AdapterOptions {
            power_preference: PowerPreference::HighPerformance,
            force_fallback_adapter: false,
            compatible_surface: None,
        }
    }
}

/// The limits that a device request asks for.
#[derive(Debug)]
pub enum RequiredLimits {
    /// The default limits of the GPU API.
    Standard,
    /// The limits that the caller supplied, unchanged.
    Custom(wgpu::Limits),
}

/// What to ask of an adapter to get a device.
#[derive(Debug)]
pub struct DeviceRequest {
    /// The debug label of the device.
    pub label: &'static str,
    /// The features that the device must have.
    pub required_features: wgpu::Features,
    /// The limits that the device must satisfy.
    pub required_limits: RequiredLimits,
}

/// A device request as the contracts see it.
pub struct DeviceRequestView {
    /// The characters of the label.
    pub label: Seq<char>,
    /// The flags of the required features.
    pub required_flags: Set<nat>,
    /// The required limits.
    pub required_limits: RequiredLimits,
}

impl View for DeviceRequest {
    type V = DeviceRequestView;

    open spec fn view(&self) -> DeviceRequestView {
        DeviceRequestView {
            label: self.label@,
            required_flags: feature_flags(self.required_features),
            required_limits: self.required_limits,
        }
    }
}

/// A construction that waits for the answer to its adapter request.
#[derive(Debug)]
pub struct AwaitingAdapter {
    /// The criteria to request the adapter with.
    pub options: AdapterOptions,
    /// The debug label that the device will get.
    pub label: &'static str,
    /// The limits that the device will be asked for.
    pub limits: RequiredLimits,
}

/// A construction that has its adapter and waits for the answer to its
/// device request.
#[derive(Debug)]
pub struct AwaitingDevice {
    /// The adapter to ask for the device.
    pub adapter: wgpu::Adapter,
    /// The features that the adapter reported when it was found.
    pub advertised: wgpu::Features,
    /// What to ask of the adapter.
    pub request: DeviceRequest,
}

/// A shared handle to a GPU device, its queue and the features enabled on it.
///
/// A context does not change once it is made. Its clones refer to the same
/// device and queue, which live until the last of them is dropped.
#[derive(Debug)]
pub struct WgpuContext {
    /// The device, shared by all clones of the context.
    pub device: Arc<wgpu::Device>,
    /// The command queue of the device, shared by all clones of the context.
    pub queue: Arc<wgpu::Queue>,
    /// The features that the device reported as enabled when it was made.
    pub features: wgpu::Features,
}

impl Clone for WgpuContext {
    /// Another handle to the same device and queue. No GPU resource is
    /// duplicated.
    fn clone(&self) -> (other: Self)
        ensures
            other == *self,
    {
        WgpuContext {
            device: share(&self.device),
            queue: share(&self.queue),
            features: self.features,
        }
    }
}

impl WgpuContext {
    /// The label of a device with default limits.
    pub open spec fn default_label() -> Seq<char> {
        "Bitnet Device"@
    }

    /// The label of a device with limits of the caller's.
    pub open spec fn custom_label() -> Seq<char> {
        "Custom Device"@
    }

    /// Starts the construction of a context with the default limits.
    pub fn new() -> (start: AwaitingAdapter)
        ensures
            start.options == AdapterOptions::fixed_policy(),
            start.label@ == Self::default_label(),
            start.limits == RequiredLimits::Standard,
    {
        AwaitingAdapter {
            options: AdapterOptions {
                power_preference: PowerPreference::HighPerformance,
                force_fallback_adapter: false,
                compatible_surface: None,
            },
            label: "Bitnet Device",
            limits: RequiredLimits::Standard,
        }
    }

    /// Starts the construction of a context whose device must satisfy
    /// `limits`. The limits are not examined here: the device request carries
    /// them as they are, and fails where the adapter cannot meet them.
    pub fn new_with_limits(limits: wgpu::Limits) -> (start: AwaitingAdapter)
        ensures
            start.options == AdapterOptions::fixed_policy(),
            start.label@ == Self::custom_label(),
            start.limits == RequiredLimits::Custom(limits),
    {
        AwaitingAdapter {
            options: AdapterOptions {
                power_preference: PowerPreference::HighPerformance,
                force_fallback_adapter: false,
                compatible_surface: None,
            },
            label: "Custom Device",
            limits: RequiredLimits::Custom(limits),
        }
    }

    /// Bundles a device, its queue and the features enabled on it.
    pub fn from_parts(device: wgpu::Device, queue: wgpu::Queue, features: wgpu::Features) -> (context:
        WgpuContext)
        ensures
            context.device == device,
            context.queue == queue,
            context.features == features,
    {
        WgpuContext { device: Arc::new(device), queue: Arc::new(queue), features }
    }
}

impl AwaitingAdapter {
    /// The request that this construction sends to an adapter which
    /// advertises `advertised`.
    pub open spec fn request_for(self, advertised: wgpu::Features) -> DeviceRequestView {
        DeviceRequestView {
            label: self.label@,
            required_flags: negotiated_flags(feature_flags(advertised)),
            required_limits: self.limits,
        }
    }

    /// Whether `next` is what the answer `answer` to the adapter request may
    /// lead to. A failure leads to `NoSuitableAdapter`. An adapter leads to
    /// the device request for that adapter and the features recorded of it.
    pub open spec fn leads_to(
        self,
        answer: Result<wgpu::Adapter, wgpu::RequestAdapterError>,
        next: Result<AwaitingDevice, BitNetError>,
    ) -> bool {
        match answer {
            Err(_) => next == Err::<AwaitingDevice, BitNetError>(BitNetError::NoSuitableAdapter),
            Ok(adapter) => {
                &&& next matches Ok(waiting)
                &&& waiting.adapter == adapter
                &&& waiting.request@ == self.request_for(waiting.advertised)
            },
        }
    }

    /// The device request for an adapter that advertises `advertised`: the
    /// label and limits that the construction started with, and of the
    /// wanted features those that the adapter has.
    pub fn device_request(self, advertised: wgpu::Features) -> (request: DeviceRequest)
        ensures
            request@ == self.request_for(advertised),
    {
        DeviceRequest {
            label: self.label,
            required_features: negotiate_features(advertised),
            required_limits: self.limits,
        }
    }

    /// Takes the answer to the adapter request. Any failure, whatever its
    /// reason, ends the construction with `NoSuitableAdapter`. An adapter
    /// leads on to the device request, which is made from the features that
    /// the adapter reports.
    pub fn adapter_answered(
        self,
        answer: Result<wgpu::Adapter, wgpu::RequestAdapterError>,
    ) -> (next: Result<AwaitingDevice, BitNetError>)
        ensures
            self.leads_to(answer, next),
    {
        match answer {
            Err(_) => Err(BitNetError::NoSuitableAdapter),
            Ok(adapter) => {
                let advertised = adapter_features(&adapter);
                let request = self.device_request(advertised);
                Ok(AwaitingDevice { adapter, advertised, request })
            },
        }
    }
}

impl AwaitingDevice {
    /// Whether `outcome` is what the answer `answer` to the device request
    /// may lead to. A failure leads to `RequestDeviceError` with its cause.
    /// A device and its queue lead to a context that holds both.
    pub open spec fn leads_to(
        self,
        answer: Result<(wgpu::Device, wgpu::Queue), wgpu::RequestDeviceError>,
        outcome: Result<WgpuContext, BitNetError>,
    ) -> bool {
        match answer {
            Err(cause) => outcome == Err::<WgpuContext, BitNetError>(
                BitNetError::RequestDeviceError(cause),
            ),
            Ok(pair) => {
                &&& outcome matches Ok(context)
                &&& context.device == pair.0
                &&& context.queue == pair.1
            },
        }
    }

    /// Takes the answer to the device request. A failure ends the
    /// construction with `RequestDeviceError` and the cause as it came. A
    /// device and its queue go into the context, together with the features
    /// that the device reports as enabled.
    pub fn device_answered(
        self,
        answer: Result<(wgpu::Device, wgpu::Queue), wgpu::RequestDeviceError>,
    ) -> (outcome: Result<WgpuContext, BitNetError>)
        ensures
            self.leads_to(answer, outcome),
    {
        match answer {
            Err(cause) => Err(BitNetError::RequestDeviceError(cause)),
            Ok((device, queue)) => {
                let features = device_features(&device);
                Ok(WgpuContext::from_parts(device, queue, features))
            },
        }
    }
}

/// Whether a construction that started as `start` and got `adapter` and
/// `device` for answers may end with `outcome`. The device answer counts
/// only where an adapter was found.
pub open spec fn construction(
    start: AwaitingAdapter,
    adapter: Result<wgpu::Adapter, wgpu::RequestAdapterError>,
    device: Result<(wgpu::Device, wgpu::Queue), wgpu::RequestDeviceError>,
    outcome: Result<WgpuContext, BitNetError>,
) -> bool {
    exists|next: Result<AwaitingDevice, BitNetError>| #[trigger]
        start.leads_to(adapter, next) && match next {
            Err(error) => outcome == Err::<WgpuContext, BitNetError>(error),
            Ok(waiting) => waiting.leads_to(device, outcome),
        }
}

/// A construction fails in two ways only. It ends with `NoSuitableAdapter`
/// exactly when the adapter request failed, and with `RequestDeviceError`
/// exactly when an adapter was found and the device request failed; the
/// cause is then the one that the GPU API gave. In every other case it
/// ends with a context that holds the device and the queue of the answer.
pub proof fn lemma_construction_outcomes(
    start: AwaitingAdapter,
    adapter: Result<wgpu::Adapter, wgpu::RequestAdapterError>,
    device: Result<(wgpu::Device, wgpu::Queue), wgpu::RequestDeviceError>,
    outcome: Result<WgpuContext, BitNetError>,
)
    requires
        construction(start, adapter, device, outcome),
    ensures
        adapter is Err <==> outcome == Err::<WgpuContext, BitNetError>(
            BitNetError::NoSuitableAdapter,
        ),
        adapter is Ok && device is Err <==> outcome matches Err(
            BitNetError::RequestDeviceError(_),
        ),
        adapter is Ok && device is Ok <==> outcome is Ok,
        adapter is Ok ==> (device matches Err(cause) ==> outcome == Err::<WgpuContext, BitNetError>(
            BitNetError::RequestDeviceError(cause),
        )),
        adapter is Ok ==> (device matches Ok(pair) ==> outcome matches Ok(context)
            && context.device == pair.0 && context.queue == pair.1),
{
}

/// A construction asks the device for the limits that it started with and
/// for no feature that the adapter did not report: limits of the caller are
/// neither clamped nor replaced, and a missing feature is left out of the
/// request.
pub proof fn lemma_request_follows_start_and_adapter(
    start: AwaitingAdapter,
    adapter: wgpu::Adapter,
    next: Result<AwaitingDevice, BitNetError>,
)
    requires
        start.leads_to(Ok(adapter), next),
    ensures
        next matches Ok(waiting) && {
            &&& waiting.request.required_limits == start.limits
            &&& waiting.request@.required_flags.subset_of(feature_flags(waiting.advertised))
            &&& waiting.request@.required_flags.subset_of(wanted_flags())
        },
{
}

/// Constructions do not influence one another: two of them that get the
/// same answers fail in the same way, or both succeed with the device and
/// the queue of the answer. This holds whatever limits each started with.
pub proof fn lemma_same_answers_same_outcome(
    first_start: AwaitingAdapter,
    second_start: AwaitingAdapter,
    adapter: Result<wgpu::Adapter, wgpu::RequestAdapterError>,
    device: Result<(wgpu::Device, wgpu::Queue), wgpu::RequestDeviceError>,
    first: Result<WgpuContext, BitNetError>,
    second: Result<WgpuContext, BitNetError>,
)
    requires
        construction(first_start, adapter, device, first),
        construction(second_start, adapter, device, second),
    ensures
        first is Err ==> second == first,
        first matches Ok(context) ==> second matches Ok(other) && other.device == context.device
            && other.queue == context.queue,
{
}

} // verus!
