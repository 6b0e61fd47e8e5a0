use virtio_blk::driver::{BlkDevCfg, VirtioBlkDriver};
use virtio_blk::error::VirtioBlkError;
use virtio_blk::init::{InitAction, InitEvent, InitState, REQUEST_QUEUE_INDEX, VIRTIO_MAX_QUEUE_SIZE};
use virtio_blk::queue::RequestQueue;

const VERSION_1: u128 = 1 << 32;

fn fresh(dev_id: u16) -> VirtioBlkDriver<(), u16> {
    VirtioBlkDriver {
        dev_cfg: BlkDevCfg { raw: (), dev_id, features: 0 },
        irq: 3,
        request_vq: RequestQueue::new(),
        init_state: InitState::Idle,
    }
}

#[test]
fn bring_up_follows_the_specified_order() {
    let mut d = fresh(0x10);
    assert!(matches!(d.init_dev(), InitAction::ResetDevice));
    assert!(matches!(d.init_dev_step(InitEvent::Completed), InitAction::AcknowledgeDevice));
    assert!(matches!(d.init_dev_step(InitEvent::Completed), InitAction::SetDriver));
    match d.init_dev_step(InitEvent::Completed) {
        InitAction::NegotiateFeatures(f) => assert_eq!(f, VERSION_1),
        other => panic!("unexpected {:?}", other),
    }
    let negotiated = VERSION_1 | 0x40;
    assert!(matches!(d.init_dev_step(InitEvent::FeaturesNegotiated(negotiated)), InitAction::SetFeaturesOk));
    assert!(matches!(d.init_dev_step(InitEvent::Completed), InitAction::CheckFeatures));
    match d.init_dev_step(InitEvent::FeaturesChecked(true)) {
        InitAction::CreateQueue { size, index, features } => {
            assert_eq!((size, index, features), (VIRTIO_MAX_QUEUE_SIZE, REQUEST_QUEUE_INDEX, negotiated));
            assert_eq!((size, index), (2048, 0));
        }
        other => panic!("unexpected {:?}", other),
    }
    assert_eq!(d.dev_cfg.features, negotiated);
    assert!(matches!(d.init_dev_step(InitEvent::QueueCreated(77)), InitAction::ReadCapacity));
    assert_eq!(d.request_vq.vq, Some(77));
    match d.init_dev_step(InitEvent::CapacityRead(2048)) {
        InitAction::SetDriverOk { device_size_bytes } => assert_eq!(device_size_bytes, 1024 * 1024),
        other => panic!("unexpected {:?}", other),
    }
    match d.init_dev_step(InitEvent::Completed) {
        InitAction::Finished(r) => assert_eq!(r, Ok(())),
        other => panic!("unexpected {:?}", other),
    }
    assert_eq!(d.init_state, InitState::Ready);
}

#[test]
fn bring_up_fails_without_version_1() {
    let mut d = fresh(0x22);
    d.init_dev();
    d.init_dev_step(InitEvent::Completed);
    d.init_dev_step(InitEvent::Completed);
    d.init_dev_step(InitEvent::Completed);
    match d.init_dev_step(InitEvent::FeaturesNegotiated(0x40)) {
        InitAction::Finished(r) => assert_eq!(r, Err(VirtioBlkError::BlkDevError(0x22))),
        other => panic!("unexpected {:?}", other),
    }
    assert_eq!(d.init_state, InitState::Failed);
    assert_eq!(d.dev_cfg.features, 0);
}

#[test]
fn bring_up_fails_when_device_drops_features_ok() {
    let mut d = fresh(0x33);
    d.init_dev();
    d.init_dev_step(InitEvent::Completed);
    d.init_dev_step(InitEvent::Completed);
    d.init_dev_step(InitEvent::Completed);
    d.init_dev_step(InitEvent::FeaturesNegotiated(VERSION_1));
    d.init_dev_step(InitEvent::Completed);
    match d.init_dev_step(InitEvent::FeaturesChecked(false)) {
        InitAction::Finished(r) => assert_eq!(r, Err(VirtioBlkError::BlkDevError(0x33))),
        other => panic!("unexpected {:?}", other),
    }
    assert_eq!(d.init_state, InitState::Failed);
    assert_eq!(d.dev_cfg.features, 0);
    assert!(d.request_vq.vq.is_none());
}

#[test]
fn init_dev_restarts_with_a_reset() {
    let mut d = fresh(1);
    d.init_dev();
    d.init_dev_step(InitEvent::Completed);
    assert!(matches!(d.init_dev(), InitAction::ResetDevice));
    assert_eq!(d.init_state, InitState::Resetting);
}
