use webvr_session::error::VRError;
use webvr_session::layer::{parse_bounds, validate_layer, VRLayer};
use webvr_session::protocol::{WebVRMsg, WebVRDeviceType};
use webvr_session::router::{request_expects_reply, WebVRThread};
use webvr_session::sync_loop::{FrameSyncLoop, SyncAction, SyncPhase};
use webvr_session::protocol::VRCompositorCommand;

#[test]
fn parse_bounds_accepts_empty_and_four() {
    let dflt: Vec<u32> = vec![1, 2, 3, 4];

    let mut dst = dflt.clone();
    assert!(parse_bounds(&None, &mut dst).is_ok());
    assert_eq!(dst, dflt);

    let mut dst = dflt.clone();
    assert!(parse_bounds(&Some(vec![]), &mut dst).is_ok());
    assert_eq!(dst, dflt);

    let mut dst = dflt.clone();
    assert!(parse_bounds(&Some(vec![9, 8, 7, 6]), &mut dst).is_ok());
    assert_eq!(dst, vec![9, 8, 7, 6]);
}

#[test]
fn parse_bounds_rejects_other_lengths_without_writing() {
    for len in [1usize, 2, 3, 5, 6] {
        let mut dst: Vec<u32> = vec![1, 2, 3, 4];
        let src: Option<Vec<u32>> = Some(vec![42; len]);
        assert_eq!(parse_bounds(&src, &mut dst), Err(VRError::InvalidBounds));
        assert_eq!(dst, vec![1, 2, 3, 4]);
    }
}

#[test]
fn validate_layer_fills_default_viewports() {
    let layer = VRLayer { source: Some(11), left_bounds: None, right_bounds: Some(vec![]) };
    let (stored, ctx) = validate_layer(&layer).expect("layer should be valid");
    assert_eq!(ctx, 11);
    assert_eq!(
        stored.left_bounds,
        vec![0, 0, 0.5f32.to_bits(), 1.0f32.to_bits()]
    );
    assert_eq!(
        stored.right_bounds,
        vec![0.5f32.to_bits(), 0, 0.5f32.to_bits(), 1.0f32.to_bits()]
    );
}

#[test]
fn validate_layer_checks_source_before_bounds() {
    let layer = VRLayer { source: None, left_bounds: Some(vec![1, 2, 3]), right_bounds: None };
    assert_eq!(validate_layer(&layer).unwrap_err(), VRError::NoWebGLContext);

    let layer = VRLayer { source: Some(4), left_bounds: None, right_bounds: Some(vec![1, 2]) };
    assert_eq!(validate_layer(&layer).unwrap_err(), VRError::InvalidBounds);
}

#[test]
fn error_messages_match_the_wire_strings() {
    assert_eq!(VRError::CannotPresent.message(), "VRDisplay canPresent is false");
    assert_eq!(VRError::WrongLayerCount.message(), "The number of layers must be 1");
    assert_eq!(VRError::NotPresenting.message(), "VRDisplay is not presenting");
    assert_eq!(VRError::NotAvailable.message(), "Not available");
    assert_eq!(
        VRError::Remote(String::from("driver fault")).message(),
        "driver fault"
    );
}

#[test]
fn reply_expectations_follow_the_protocol() {
    assert!(!request_expects_reply(&WebVRMsg::RegisterContext(1)));
    assert!(!request_expects_reply(&WebVRMsg::UnregisterContext(1)));
    assert!(!request_expects_reply(&WebVRMsg::ResetPose(1, 3)));
    assert!(!request_expects_reply(&WebVRMsg::Exit));
    assert!(request_expects_reply(&WebVRMsg::PollEvents));
    assert!(request_expects_reply(&WebVRMsg::GetVRDisplays));
    assert!(request_expects_reply(&WebVRMsg::GetFrameData(1, 3, 0, 0)));
    assert!(request_expects_reply(&WebVRMsg::RequestPresent(1, 3)));
    assert!(request_expects_reply(&WebVRMsg::ExitPresent(1, 3)));
}

#[test]
fn device_type_exposes_its_wire_form() {
    assert_eq!(WebVRDeviceType(5).as_u32(), 5);
}

#[test]
fn router_registry_keeps_order_and_uniqueness() {
    let mut router = WebVRThread::new();
    router.register_context(10);
    router.register_context(20);
    router.register_context(10);
    router.register_context(30);
    assert_eq!(router.event_targets(), &vec![10, 20, 30]);
    assert!(router.is_registered(20));
    assert!(!router.is_registered(40));

    router.unregister_context(20);
    assert_eq!(router.event_targets(), &vec![10, 30]);

    router.unregister_context(99);
    assert_eq!(router.event_targets(), &vec![10, 30]);
}

#[test]
fn router_consumes_its_own_control_messages() {
    let mut router = WebVRThread::new();
    assert!(router.handle_control_message(&WebVRMsg::RegisterContext(5)));
    assert!(router.handle_control_message(&WebVRMsg::RegisterContext(6)));
    assert!(router.handle_control_message(&WebVRMsg::UnregisterContext(5)));
    assert_eq!(router.event_targets(), &vec![6]);
    assert!(!router.handle_control_message(&WebVRMsg::PollEvents));
    assert!(!router.handle_control_message(&WebVRMsg::RequestPresent(1, 3)));
    assert_eq!(router.event_targets(), &vec![6]);
}

#[test]
fn sync_loop_paces_dispatch_and_terminates_on_failure() {
    let mut sync = FrameSyncLoop::new(2);
    assert_eq!(sync.phase, SyncPhase::AwaitingSync);
    assert!(matches!(sync.create_command(), VRCompositorCommand::Create(2)));
    assert!(matches!(sync.sync_poses_command(), VRCompositorCommand::SyncPoses(2)));

    assert_eq!(sync.on_sync_reply(Ok(())), SyncAction::DispatchCallbacks);
    assert_eq!(sync.phase, SyncPhase::AwaitingDispatch);
    sync.on_dispatch_complete();
    assert_eq!(sync.phase, SyncPhase::AwaitingSync);
    assert!(sync.is_running());

    assert_eq!(
        sync.on_sync_reply(Err(String::from("compositor session released"))),
        SyncAction::Stop
    );
    assert_eq!(sync.phase, SyncPhase::Terminated);
    assert!(!sync.is_running());
}
