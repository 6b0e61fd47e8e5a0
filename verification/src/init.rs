//! Bring-up of the device, in the order the virtio specification
//! (section 3.1.1) prescribes.
//!
//! The driver decides; the caller performs each action on the device and
//! reports what came of it. Starting with [`VirtioBlkDriver::init_dev`], the
//! driver asks to reset the device, acknowledge it, announce the driver,
//! negotiate features (requiring `VERSION_1`), set `FEATURES_OK`, check that
//! the device kept it, create the request queue, read the capacity and finally
//! set `DRIVER_OK`. A missing `VERSION_1` or a device that refuses the
//! features ends the bring-up with an error.

use vstd::prelude::*;
use crate::driver::VirtioBlkDriver;
use crate::error::VirtioBlkError;
use crate::virtio_defs::{feature_version_1, features_contain, spec_features_contain, spec_version_1};

verus! {

/// Size of the request queue that the driver creates.
pub const VIRTIO_MAX_QUEUE_SIZE: u16 = 2048;

/// Index of the request queue on the device.
pub const REQUEST_QUEUE_INDEX: u16 = 0;

/// How far the bring-up of the device has come: which action the driver
/// waits to hear about.
#[derive(Debug, Clone, Copy, PartialEq, Eq, Structural)]
pub enum InitState {
    /// Not started.
    Idle,
    Resetting,
    Acknowledging,
    SettingDriver,
    Negotiating,
    SettingFeaturesOk { negotiated: u128 },
    CheckingFeatures { negotiated: u128 },
    CreatingQueue,
    ReadingCapacity,
    SettingDriverOk,
    /// The device is live.
    Ready,
    /// The bring-up failed.
    Failed,
}

/// What came of the last action.
pub enum InitEvent<Q> {
    /// An action without a result was performed.
    Completed,
    /// The features that feature negotiation settled on.
    FeaturesNegotiated(u128),
    /// Whether the device kept `FEATURES_OK` set.
    FeaturesChecked(bool),
    /// The request queue that was created.
    QueueCreated(Q),
    /// The capacity of the device, in sectors.
    CapacityRead(u64),
}

/// What the driver asks the caller to do next.
#[derive(Debug)]
pub enum InitAction {
    ResetDevice,
    AcknowledgeDevice,
    SetDriver,
    /// Negotiate features, offering these.
    NegotiateFeatures(u128),
    SetFeaturesOk,
    CheckFeatures,
    /// Create the request queue and tell the device about it.
    CreateQueue { size: u16, index: u16, features: u128 },
    ReadCapacity,
    /// Set `DRIVER_OK`; the device holds `device_size_bytes` bytes.
    SetDriverOk { device_size_bytes: u64 },
    /// The bring-up is over, with this outcome.
    Finished(Result<(), VirtioBlkError>),
}

/// What the bring-up knows of a driver: its state, its negotiated features,
/// whether a request queue is installed, and the id of its device.
pub struct InitView {
    pub state: InitState,
    pub features: u128,
    pub has_queue: bool,
    pub dev_id: u16,
}

/// The events that the driver accepts in state `s`: the report of the action
/// it asked for. A capacity must leave the device size in bytes within `u64`.
pub open spec fn accepts<Q>(s: InitState, e: InitEvent<Q>) -> bool {
    match s {
        InitState::Resetting | InitState::Acknowledging | InitState::SettingDriver
        | InitState::SettingFeaturesOk { .. } | InitState::SettingDriverOk => e is Completed,
        InitState::Negotiating => e is FeaturesNegotiated,
        InitState::CheckingFeatures { .. } => e is FeaturesChecked,
        InitState::CreatingQueue => e is QueueCreated,
        InitState::ReadingCapacity => e matches InitEvent::CapacityRead(c) && c <= u64::MAX / 512,
        InitState::Idle | InitState::Ready | InitState::Failed => false,
    }
}

/// The state that follows `s` on event `e`.
pub open spec fn next_state<Q>(s: InitState, e: InitEvent<Q>) -> InitState {
    match s {
        InitState::Resetting => InitState::Acknowledging,
        InitState::Acknowledging => InitState::SettingDriver,
        InitState::SettingDriver => InitState::Negotiating,
        InitState::Negotiating => match e {
            InitEvent::FeaturesNegotiated(f) => if spec_features_contain(f, spec_version_1()) {
                InitState::SettingFeaturesOk { negotiated: f }
            } else {
                InitState::Failed
            },
            _ => s,
        },
        InitState::SettingFeaturesOk { negotiated } => InitState::CheckingFeatures { negotiated },
        InitState::CheckingFeatures { negotiated } => match e {
            InitEvent::FeaturesChecked(ok) => if ok { InitState::CreatingQueue } else { InitState::Failed },
            _ => s,
        },
        InitState::CreatingQueue => InitState::ReadingCapacity,
        InitState::ReadingCapacity => InitState::SettingDriverOk,
        InitState::SettingDriverOk => InitState::Ready,
        _ => s,
    }
}

/// The action that the driver asks for after event `e` in state `s`.
pub open spec fn next_action<Q>(s: InitState, e: InitEvent<Q>, dev_id: u16) -> InitAction {
    match s {
        InitState::Resetting => InitAction::AcknowledgeDevice,
        InitState::Acknowledging => InitAction::SetDriver,
        InitState::SettingDriver => InitAction::NegotiateFeatures(spec_version_1()),
        InitState::Negotiating => match e {
            InitEvent::FeaturesNegotiated(f) => if spec_features_contain(f, spec_version_1()) {
                InitAction::SetFeaturesOk
            } else {
                InitAction::Finished(Err(VirtioBlkError::BlkDevError(dev_id)))
            },
            _ => InitAction::Finished(Err(VirtioBlkError::BlkDevError(dev_id))),
        },
        InitState::SettingFeaturesOk { .. } => InitAction::CheckFeatures,
        InitState::CheckingFeatures { negotiated } => match e {
            InitEvent::FeaturesChecked(ok) => if ok {
                InitAction::CreateQueue {
                    size: VIRTIO_MAX_QUEUE_SIZE,
                    index: REQUEST_QUEUE_INDEX,
                    features: negotiated,
                }
            } else {
                InitAction::Finished(Err(VirtioBlkError::BlkDevError(dev_id)))
            },
            _ => InitAction::Finished(Err(VirtioBlkError::BlkDevError(dev_id))),
        },
        InitState::CreatingQueue => InitAction::ReadCapacity,
        InitState::ReadingCapacity => match e {
            InitEvent::CapacityRead(c) => InitAction::SetDriverOk { device_size_bytes: (c * 512) as u64 },
            _ => InitAction::Finished(Err(VirtioBlkError::BlkDevError(dev_id))),
        },
        InitState::SettingDriverOk => InitAction::Finished(Ok(())),
        _ => InitAction::Finished(Err(VirtioBlkError::BlkDevError(dev_id))),
    }
}

/// What the bring-up knows after event `e`: the features are recorded once
/// the device has accepted them, and the queue once it is created.
pub open spec fn init_post<Q>(v: InitView, e: InitEvent<Q>) -> InitView {
    InitView {
        state: next_state(v.state, e),
        features: match (v.state, e) {
            (InitState::CheckingFeatures { negotiated }, InitEvent::FeaturesChecked(true)) => negotiated,
            _ => v.features,
        },
        has_queue: if v.state is CreatingQueue { true } else { v.has_queue },
        dev_id: v.dev_id,
    }
}

impl<R, Q> VirtioBlkDriver<R, Q> {
    /// What the bring-up knows of this driver.
    pub open spec fn init_view(&self) -> InitView {
        InitView {
            state: self.init_state,
            features: self.dev_cfg.features,
            has_queue: self.request_vq.vq is Some,
            dev_id: self.dev_cfg.dev_id,
        }
    }

    /// Starts (or restarts) the bring-up of the device: the first action is a
    /// reset.
    pub fn init_dev(&mut self) -> (a: InitAction)
        ensures
            final(self).init_state == InitState::Resetting,
            a is ResetDevice,
            final(self).dev_cfg == old(self).dev_cfg,
            final(self).dev_cfg.dev_id == old(self).dev_cfg.dev_id,
            final(self).irq == old(self).irq,
            final(self).request_vq == old(self).request_vq,
    {
        self.init_state = InitState::Resetting;
        InitAction::ResetDevice
    }

    /// Takes in what came of the last action and answers with the next one.
    pub fn init_dev_step(&mut self, event: InitEvent<Q>) -> (a: InitAction)
        requires
            accepts(old(self).init_state, event),
        ensures
            final(self).init_view() == init_post(old(self).init_view(), event),
            a == next_action(old(self).init_state, event, old(self).dev_cfg.dev_id),
            event matches InitEvent::QueueCreated(q) ==> final(self).request_vq.vq == Some(q),
            !(event is QueueCreated) ==> final(self).request_vq == old(self).request_vq,
            final(self).dev_cfg.raw == old(self).dev_cfg.raw,
            final(self).dev_cfg.dev_id == old(self).dev_cfg.dev_id,
            final(self).irq == old(self).irq,
    {
        let dev_id = self.get_dev_id();
        match self.init_state {
            InitState::Resetting => {
                self.init_state = InitState::Acknowledging;
                InitAction::AcknowledgeDevice
            },
            InitState::Acknowledging => {
                self.init_state = InitState::SettingDriver;
                InitAction::SetDriver
            },
            InitState::SettingDriver => {
                self.init_state = InitState::Negotiating;
                InitAction::NegotiateFeatures(feature_version_1())
            },
            InitState::Negotiating => {
                let negotiated = match event {
                    InitEvent::FeaturesNegotiated(f) => f,
                    _ => { return InitAction::Finished(Err(VirtioBlkError::BlkDevError(dev_id))); },
                };
                let minimal = feature_version_1();
                if !features_contain(negotiated, minimal) {
                    self.init_state = InitState::Failed;
                    return InitAction::Finished(Err(VirtioBlkError::BlkDevError(dev_id)));
                }
                self.init_state = InitState::SettingFeaturesOk { negotiated };
                InitAction::SetFeaturesOk
            },
            InitState::SettingFeaturesOk { negotiated } => {
                self.init_state = InitState::CheckingFeatures { negotiated };
                InitAction::CheckFeatures
            },
            InitState::CheckingFeatures { negotiated } => {
                let accepted = match event {
                    InitEvent::FeaturesChecked(ok) => ok,
                    _ => { return InitAction::Finished(Err(VirtioBlkError::BlkDevError(dev_id))); },
                };
                if accepted {
                    self.dev_cfg.features = negotiated;
                    self.init_state = InitState::CreatingQueue;
                    InitAction::CreateQueue {
                        size: VIRTIO_MAX_QUEUE_SIZE,
                        index: REQUEST_QUEUE_INDEX,
                        features: negotiated,
                    }
                } else {
                    self.init_state = InitState::Failed;
                    InitAction::Finished(Err(VirtioBlkError::BlkDevError(dev_id)))
                }
            },
            InitState::CreatingQueue => {
                match event {
                    InitEvent::QueueCreated(q) => { self.request_vq.add(q); },
                    _ => {},
                }
                self.init_state = InitState::ReadingCapacity;
                InitAction::ReadCapacity
            },
            InitState::ReadingCapacity => {
                let capacity = match event {
                    InitEvent::CapacityRead(c) => c,
                    _ => { return InitAction::Finished(Err(VirtioBlkError::BlkDevError(dev_id))); },
                };
                self.init_state = InitState::SettingDriverOk;
                InitAction::SetDriverOk { device_size_bytes: capacity * 512 }
            },
            InitState::SettingDriverOk => {
                self.init_state = InitState::Ready;
                InitAction::Finished(Ok(()))
            },
            _ => InitAction::Finished(Err(VirtioBlkError::BlkDevError(dev_id))),
        }
    }
}

/// Runs the bring-up from `v` on `events` as long as each event is accepted:
/// where it ends up and the actions it asked for on the way.
pub open spec fn init_run<Q>(v: InitView, events: Seq<InitEvent<Q>>) -> (InitView, Seq<InitAction>)
    decreases events.len(),
{
    if events.len() == 0 || !accepts(v.state, events[0]) {
        (v, Seq::empty())
    } else {
        let rest = init_run(init_post(v, events[0]), events.drop_first());
        (rest.0, seq![next_action(v.state, events[0], v.dev_id)] + rest.1)
    }
}

/// The reports of a device that answers every action of the bring-up: it
/// settles on features `f`, keeps `FEATURES_OK` where `ok`, provides queue `q`
/// and has `capacity` sectors.
pub open spec fn device_reports<Q>(f: u128, ok: bool, q: Q, capacity: u64) -> Seq<InitEvent<Q>> {
    seq![
        InitEvent::Completed,
        InitEvent::Completed,
        InitEvent::Completed,
        InitEvent::FeaturesNegotiated(f),
        InitEvent::Completed,
        InitEvent::FeaturesChecked(ok),
        InitEvent::QueueCreated(q),
        InitEvent::CapacityRead(capacity),
        InitEvent::Completed,
    ]
}

/// The queue is installed and the recorded features include `VERSION_1`.
pub open spec fn setup_complete(v: InitView) -> bool {
    v.has_queue && spec_features_contain(v.features, spec_version_1())
}

/// Features are only carried on, and recorded, where they include
/// `VERSION_1`; once the bring-up reads the capacity, the queue is installed
/// and the features accepted.
pub open spec fn init_inv(v: InitView) -> bool {
    match v.state {
        InitState::SettingFeaturesOk { negotiated } => spec_features_contain(negotiated, spec_version_1()),
        InitState::CheckingFeatures { negotiated } => spec_features_contain(negotiated, spec_version_1()),
        InitState::CreatingQueue => spec_features_contain(v.features, spec_version_1()),
        InitState::ReadingCapacity | InitState::SettingDriverOk | InitState::Ready => setup_complete(v),
        _ => true,
    }
}

/// The bring-up, started after a reset and answered by a device that settles
/// on features `f`, keeps `FEATURES_OK` where `ok` and provides queue `q`,
/// ends as follows:
/// - with `VERSION_1` among `f` and `ok`, the device is live, `f` is recorded
///   and the queue installed, after exactly the steps the virtio
///   specification orders: acknowledge, driver, negotiate (offering
///   `VERSION_1`), `FEATURES_OK`, check, create the queue, read the capacity,
///   `DRIVER_OK`;
/// - without `VERSION_1` among `f`, it fails right after negotiation;
/// - where the device drops `FEATURES_OK`, it fails right after the check.
/// A failed bring-up records no features.
pub proof fn lemma_bring_up<Q>(v: InitView, f: u128, ok: bool, q: Q, capacity: u64)
    requires
        v.state == InitState::Resetting,
        capacity <= u64::MAX / 512,
    ensures
        ({
            let (w, acts) = init_run(v, device_reports(f, ok, q, capacity));
            &&& w.dev_id == v.dev_id
            &&& (spec_features_contain(f, spec_version_1()) && ok) ==> {
                &&& w.state == InitState::Ready
                &&& w.features == f
                &&& w.has_queue
                &&& acts == seq![
                    InitAction::AcknowledgeDevice,
                    InitAction::SetDriver,
                    InitAction::NegotiateFeatures(spec_version_1()),
                    InitAction::SetFeaturesOk,
                    InitAction::CheckFeatures,
                    InitAction::CreateQueue {
                        size: VIRTIO_MAX_QUEUE_SIZE,
                        index: REQUEST_QUEUE_INDEX,
                        features: f,
                    },
                    InitAction::ReadCapacity,
                    InitAction::SetDriverOk { device_size_bytes: (capacity * 512) as u64 },
                    InitAction::Finished(Ok(())),
                ]
            }
            &&& !spec_features_contain(f, spec_version_1()) ==> {
                &&& w.state == InitState::Failed
                &&& w.features == v.features
                &&& acts == seq![
                    InitAction::AcknowledgeDevice,
                    InitAction::SetDriver,
                    InitAction::NegotiateFeatures(spec_version_1()),
                    InitAction::Finished(Err(VirtioBlkError::BlkDevError(v.dev_id))),
                ]
            }
            &&& (spec_features_contain(f, spec_version_1()) && !ok) ==> {
                &&& w.state == InitState::Failed
                &&& w.features == v.features
                &&& w.has_queue == v.has_queue
                &&& acts == seq![
                    InitAction::AcknowledgeDevice,
                    InitAction::SetDriver,
                    InitAction::NegotiateFeatures(spec_version_1()),
                    InitAction::SetFeaturesOk,
                    InitAction::CheckFeatures,
                    InitAction::Finished(Err(VirtioBlkError::BlkDevError(v.dev_id))),
                ]
            }
        }),
{
    let evs = device_reports(f, ok, q, capacity);
    reveal_with_fuel(init_run, 10);
    let (w, acts) = init_run(v, evs);
    if spec_features_contain(f, spec_version_1()) && ok {
        assert(acts =~= seq![
            InitAction::AcknowledgeDevice,
            InitAction::SetDriver,
            InitAction::NegotiateFeatures(spec_version_1()),
            InitAction::SetFeaturesOk,
            InitAction::CheckFeatures,
            InitAction::CreateQueue {
                size: VIRTIO_MAX_QUEUE_SIZE,
                index: REQUEST_QUEUE_INDEX,
                features: f,
            },
            InitAction::ReadCapacity,
            InitAction::SetDriverOk { device_size_bytes: (capacity * 512) as u64 },
            InitAction::Finished(Ok(())),
        ]);
    }
    if !spec_features_contain(f, spec_version_1()) {
        assert(acts =~= seq![
            InitAction::AcknowledgeDevice,
            InitAction::SetDriver,
            InitAction::NegotiateFeatures(spec_version_1()),
            InitAction::Finished(Err(VirtioBlkError::BlkDevError(v.dev_id))),
        ]);
    }
    if spec_features_contain(f, spec_version_1()) && !ok {
        assert(acts =~= seq![
            InitAction::AcknowledgeDevice,
            InitAction::SetDriver,
            InitAction::NegotiateFeatures(spec_version_1()),
            InitAction::SetFeaturesOk,
            InitAction::CheckFeatures,
            InitAction::Finished(Err(VirtioBlkError::BlkDevError(v.dev_id))),
        ]);
    }
}

/// `DRIVER_OK` is never asked for, and the bring-up never succeeds, before
/// the request queue is installed and the device has accepted features that
/// include `VERSION_1`: every accepted event keeps [`init_inv`], which holds
/// from the start of the bring-up on.
pub proof fn lemma_driver_ok_after_setup<Q>(v: InitView, e: InitEvent<Q>, dev_id: u16)
    requires
        init_inv(v),
        accepts(v.state, e),
    ensures
        init_inv(init_post(v, e)),
        next_action(v.state, e, dev_id) is SetDriverOk ==> setup_complete(v),
        next_action(v.state, e, dev_id) == InitAction::Finished(Ok(())) ==> init_post(v, e).state
            == InitState::Ready && setup_complete(init_post(v, e)),
{
}

/// Once the bring-up has reported its outcome, it is over: the driver is
/// ready on success and failed otherwise, and takes in no further event.
pub proof fn lemma_finished_is_final<Q, P>(v: InitView, e: InitEvent<Q>, later: InitEvent<P>, dev_id: u16)
    requires
        accepts(v.state, e),
        next_action(v.state, e, dev_id) is Finished,
    ensures
        next_action(v.state, e, dev_id) == InitAction::Finished(Ok(())) ==> init_post(v, e).state
            == InitState::Ready,
        next_action(v.state, e, dev_id) != InitAction::Finished(Ok(())) ==> init_post(v, e).state
            == InitState::Failed,
        !accepts(init_post(v, e).state, later),
{
}

/// The bring-up never changes the device id: whatever the device reports,
/// the driver ends with the id it started with, and every failure it reports
/// names that device.
pub proof fn lemma_bring_up_keeps_dev_id<Q>(v: InitView, events: Seq<InitEvent<Q>>)
    ensures
        init_run(v, events).0.dev_id == v.dev_id,
        forall|j: int| 0 <= j < init_run(v, events).1.len() ==> (#[trigger] init_run(v, events).1[j] matches
            InitAction::Finished(Err(e)) ==> e == VirtioBlkError::BlkDevError(v.dev_id)),
    decreases events.len(),
{
    if events.len() > 0 && accepts(v.state, events[0]) {
        let w = init_post(v, events[0]);
        lemma_bring_up_keeps_dev_id(w, events.drop_first());
        let acts = init_run(v, events).1;
        let rest = init_run(w, events.drop_first()).1;
        assert forall|j: int| 0 <= j < acts.len() implies (#[trigger] acts[j] matches InitAction::Finished(
            Err(e),
        ) ==> e == VirtioBlkError::BlkDevError(v.dev_id)) by {
            if j > 0 {
                assert(acts[j] == rest[j - 1]);
            }
        }
    }
}

} // verus!
