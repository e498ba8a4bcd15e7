use webvr_session::display_data::{VRDisplayCapabilities, VREye, VREyeParameters, VRFieldOfView,
    WebVRDisplayData, WebVREyeParameters};
use webvr_session::error::VRError;
use webvr_session::layer::VRLayer;
use webvr_session::protocol::{VRCompositorCommand, VRDisplayEvent, WebVRDeviceType, WebVRMsg};
use webvr_session::vrdisplay::{CancelOutcome, RafOutcome, RequestPresentStep, VRDisplay};

fn eye_params() -> WebVREyeParameters {
    WebVREyeParameters {
        offset: vec![0, 0, 0],
        field_of_view: VRFieldOfView {
            up_degrees: 45.0f64.to_bits(),
            right_degrees: 45.0f64.to_bits(),
            down_degrees: 45.0f64.to_bits(),
            left_degrees: 45.0f64.to_bits(),
        },
        render_width: 1080,
        render_height: 1200,
    }
}

fn display_data(can_present: bool) -> WebVRDisplayData {
    WebVRDisplayData {
        display_id: 3,
        display_name: String::from("Test HMD"),
        connected: true,
        capabilities: VRDisplayCapabilities {
            can_present,
            has_orientation: true,
            has_position: false,
            has_external_display: false,
        },
        stage_parameters: None,
        left_eye_parameters: eye_params(),
        right_eye_parameters: eye_params(),
    }
}

fn valid_layer() -> VRLayer {
    VRLayer { source: Some(7), left_bounds: None, right_bounds: None }
}

fn present(session: &mut VRDisplay, device: u32) {
    match session.request_present(&vec![valid_layer()]) {
        RequestPresentStep::RpcNeeded(layer, ctx, msg) => {
            assert_eq!(msg, WebVRMsg::RequestPresent(1, 3));
            session
                .request_present_complete(layer, ctx, Ok(WebVRDeviceType(device)))
                .expect("present should succeed");
        },
        _ => panic!("expected an RPC to be needed"),
    }
}

#[test]
fn new_session_is_idle() {
    let session = VRDisplay::new(1, display_data(true));
    assert!(!session.is_presenting());
    assert!(session.is_connected());
    assert_eq!(session.get_display_id(), 3);
    assert_eq!(session.display_name().as_str(), "Test HMD");
    assert!(session.compositor_id.is_none());
    assert_eq!(session.next_raf_id, 1);
}

#[test]
fn default_depth_range_matches_floats() {
    let session = VRDisplay::new(1, display_data(true));
    assert_eq!(session.depth_near(), 0.01f64.to_bits());
    assert_eq!(session.depth_far(), 10000.0f64.to_bits());
}

#[test]
fn depth_setters_store_bits() {
    let mut session = VRDisplay::new(1, display_data(true));
    session.set_depth_near(0.5f64.to_bits());
    session.set_depth_far(250.0f64.to_bits());
    assert_eq!(session.depth_near(), 0.5f64.to_bits());
    assert_eq!(session.depth_far(), 250.0f64.to_bits());
}

#[test]
fn eye_parameters_by_eye() {
    let session = VRDisplay::new(1, display_data(true));
    assert_eq!(session.get_eye_parameters(VREye::Left).render_width, 1080);
    assert_eq!(session.get_eye_parameters(VREye::Right).render_height, 1200);
    assert!(session.capabilities().can_present);
    assert!(session.stage_parameters().is_none());
}

#[test]
fn eye_parameters_object_wraps_a_snapshot() {
    let params = VREyeParameters::new(eye_params());
    assert_eq!(params.render_width(), 1080);
    assert_eq!(params.render_height(), 1200);
    assert_eq!(params.offset(), &vec![0, 0, 0]);
    assert_eq!(params.field_of_view().up_degrees, 45.0f64.to_bits());
}

#[test]
fn request_present_rejects_when_cannot_present() {
    let mut session = VRDisplay::new(1, display_data(false));
    match session.request_present(&vec![valid_layer()]) {
        RequestPresentStep::Rejected(e) => {
            assert_eq!(e, VRError::CannotPresent);
            assert_eq!(e.message().as_str(), "VRDisplay canPresent is false");
        },
        _ => panic!("expected a rejection"),
    }
    assert!(!session.is_presenting());
}

#[test]
fn request_present_rejects_wrong_layer_count() {
    let mut session = VRDisplay::new(1, display_data(true));
    match session.request_present(&vec![]) {
        RequestPresentStep::Rejected(e) => assert_eq!(e, VRError::WrongLayerCount),
        _ => panic!("expected a rejection"),
    }
    match session.request_present(&vec![valid_layer(), valid_layer()]) {
        RequestPresentStep::Rejected(e) => {
            assert_eq!(e.message().as_str(), "The number of layers must be 1");
        },
        _ => panic!("expected a rejection"),
    }
    assert!(!session.is_presenting());
}

#[test]
fn request_present_rejects_three_element_bounds() {
    let mut session = VRDisplay::new(1, display_data(true));
    let layer = VRLayer {
        source: Some(7),
        left_bounds: Some(vec![0, 0, 1.0f32.to_bits()]),
        right_bounds: None,
    };
    match session.request_present(&vec![layer]) {
        RequestPresentStep::Rejected(e) => {
            assert_eq!(e, VRError::InvalidBounds);
            assert_eq!(
                e.message().as_str(),
                "The number of values in the leftBounds/rightBounds arrays must be 0 or 4"
            );
        },
        _ => panic!("expected a rejection"),
    }
    assert!(!session.is_presenting());
}

#[test]
fn request_present_rejects_missing_source() {
    let mut session = VRDisplay::new(1, display_data(true));
    let layer = VRLayer { source: None, left_bounds: None, right_bounds: None };
    match session.request_present(&vec![layer]) {
        RequestPresentStep::Rejected(e) => {
            assert_eq!(e.message().as_str(), "VRLayer source must be a WebGL Context");
        },
        _ => panic!("expected a rejection"),
    }
}

#[test]
fn successful_present_sets_state() {
    let mut session = VRDisplay::new(1, display_data(true));
    present(&mut session, 2);
    assert!(session.is_presenting());
    assert_eq!(session.compositor_id, Some(WebVRDeviceType(2)));
    assert_eq!(session.layer_ctx, Some(7));
}

#[test]
fn failed_present_leaves_session_idle() {
    let mut session = VRDisplay::new(1, display_data(true));
    match session.request_present(&vec![valid_layer()]) {
        RequestPresentStep::RpcNeeded(layer, ctx, _msg) => {
            let r = session.request_present_complete(
                layer,
                ctx,
                Err(String::from("device is claimed")),
            );
            assert_eq!(r, Err(VRError::Remote(String::from("device is claimed"))));
        },
        _ => panic!("expected an RPC to be needed"),
    }
    assert!(!session.is_presenting());
    assert!(session.compositor_id.is_none());
}

#[test]
fn repeated_present_updates_layer_without_rpc() {
    let mut session = VRDisplay::new(1, display_data(true));
    present(&mut session, 2);
    let custom: Vec<u32> =
        vec![0.1f32.to_bits(), 0.2f32.to_bits(), 0.3f32.to_bits(), 0.4f32.to_bits()];
    let layer = VRLayer {
        source: Some(9),
        left_bounds: Some(custom.clone()),
        right_bounds: Some(vec![0, 0, 0, 0]),
    };
    match session.request_present(&vec![layer]) {
        RequestPresentStep::LayerUpdated => {},
        _ => panic!("expected an immediate layer update"),
    }
    assert!(session.is_presenting());
    assert_eq!(session.compositor_id, Some(WebVRDeviceType(2)));
    assert_eq!(session.layer.left_bounds, custom);
    assert_eq!(session.layer.right_bounds, vec![0, 0, 0, 0]);
    assert_eq!(session.layer_ctx, Some(9));
}

#[test]
fn exit_present_while_idle_rejects() {
    let session = VRDisplay::new(1, display_data(true));
    let r = session.exit_present();
    match r {
        Err(e) => assert_eq!(e.message().as_str(), "VRDisplay is not presenting"),
        Ok(_) => panic!("expected a rejection"),
    }
    assert!(!session.is_presenting());
}

#[test]
fn exit_present_round_trip() {
    let mut session = VRDisplay::new(1, display_data(true));
    present(&mut session, 2);
    let msg = session.exit_present().expect("exit should be allowed while presenting");
    assert_eq!(msg, WebVRMsg::ExitPresent(1, 3));
    match session.exit_present_complete(Ok(())) {
        Ok(VRCompositorCommand::Release(id)) => assert_eq!(id, 2),
        _ => panic!("expected a release command"),
    }
    assert!(!session.is_presenting());
    assert!(session.compositor_id.is_none());
}

#[test]
fn failed_exit_stays_presenting() {
    let mut session = VRDisplay::new(1, display_data(true));
    present(&mut session, 2);
    session.exit_present().expect("exit should be allowed while presenting");
    let r = session.exit_present_complete(Err(String::from("driver busy")));
    assert!(matches!(r, Err(VRError::Remote(_))));
    assert!(session.is_presenting());
    assert_eq!(session.compositor_id, Some(WebVRDeviceType(2)));
}

#[test]
fn submit_frame_sends_stored_bounds() {
    let mut session = VRDisplay::new(1, display_data(true));
    present(&mut session, 2);
    match session.submit_frame() {
        Some(VRCompositorCommand::SubmitFrame(id, left, right)) => {
            assert_eq!(id, 2);
            assert_eq!(left, vec![0, 0, 0.5f32.to_bits(), 1.0f32.to_bits()]);
            assert_eq!(
                right,
                vec![0.5f32.to_bits(), 0, 0.5f32.to_bits(), 1.0f32.to_bits()]
            );
        },
        _ => panic!("expected a submit command"),
    }
}

#[test]
fn submit_frame_while_idle_is_a_no_op() {
    let session = VRDisplay::new(1, display_data(true));
    assert!(session.submit_frame().is_none());
}

#[test]
fn raf_handles_start_at_one_and_increase() {
    let mut session = VRDisplay::new(1, display_data(true));
    present(&mut session, 2);
    let h1 = session.request_animation_frame(100);
    let h2 = session.request_animation_frame(200);
    assert_eq!(h1, RafOutcome::Scheduled(1));
    assert_eq!(h2, RafOutcome::Scheduled(2));
}

#[test]
fn raf_while_idle_delegates() {
    let mut session = VRDisplay::new(1, display_data(true));
    assert_eq!(session.request_animation_frame(100), RafOutcome::Delegated);
    assert_eq!(session.cancel_animation_frame(1), CancelOutcome::Delegated);
}

#[test]
fn drain_returns_callbacks_in_registration_order() {
    let mut session = VRDisplay::new(1, display_data(true));
    present(&mut session, 2);
    session.request_animation_frame(100);
    session.request_animation_frame(200);
    session.request_animation_frame(300);
    let batch = session.drain_raf_callbacks();
    assert_eq!(batch, vec![100, 200, 300]);
    assert!(session.raf_callback_list.is_empty());
}

#[test]
fn cancelled_callback_does_not_fire() {
    let mut session = VRDisplay::new(1, display_data(true));
    present(&mut session, 2);
    session.request_animation_frame(100);
    session.request_animation_frame(200);
    assert_eq!(session.cancel_animation_frame(1), CancelOutcome::Handled);
    let batch = session.drain_raf_callbacks();
    assert_eq!(batch, vec![200]);
}

#[test]
fn cancel_after_drain_is_idempotent() {
    let mut session = VRDisplay::new(1, display_data(true));
    present(&mut session, 2);
    session.request_animation_frame(100);
    let batch = session.drain_raf_callbacks();
    assert_eq!(batch, vec![100]);
    assert_eq!(session.cancel_animation_frame(1), CancelOutcome::Handled);
    assert!(session.raf_callback_list.is_empty());
    let next = session.drain_raf_callbacks();
    assert!(next.is_empty());
}

#[test]
fn callbacks_registered_during_presenting_survive_layer_update() {
    let mut session = VRDisplay::new(1, display_data(true));
    present(&mut session, 2);
    session.request_animation_frame(100);
    match session.request_present(&vec![valid_layer()]) {
        RequestPresentStep::LayerUpdated => {},
        _ => panic!("expected an immediate layer update"),
    }
    assert_eq!(session.drain_raf_callbacks(), vec![100]);
}

#[test]
fn request_builders_carry_session_state() {
    let mut session = VRDisplay::new(1, display_data(true));
    session.set_depth_near(0.25f64.to_bits());
    session.set_depth_far(500.0f64.to_bits());
    assert_eq!(
        session.frame_data_request(),
        WebVRMsg::GetFrameData(1, 3, 0.25f64.to_bits(), 500.0f64.to_bits())
    );
    assert_eq!(session.reset_pose_request(), WebVRMsg::ResetPose(1, 3));
}

#[test]
fn update_display_replaces_the_descriptor() {
    let mut session = VRDisplay::new(1, display_data(true));
    let mut fresh = display_data(false);
    fresh.display_name = String::from("Replaced HMD");
    session.update_display(fresh);
    assert_eq!(session.display_name().as_str(), "Replaced HMD");
    assert!(!session.capabilities().can_present);
}

#[test]
fn events_update_descriptor_and_say_when_to_notify() {
    let mut session = VRDisplay::new(1, display_data(true));
    let mut fresh = display_data(true);
    fresh.display_name = String::from("Other HMD");
    assert!(!session.handle_webvr_event(VRDisplayEvent::Connect(fresh)));
    assert_eq!(session.display_name().as_str(), "Other HMD");

    assert!(session.handle_webvr_event(VRDisplayEvent::Focus(display_data(true))));
    assert!(session.handle_webvr_event(VRDisplayEvent::Blur(display_data(true))));

    let mut silent = display_data(true);
    silent.display_name = String::from("Silent HMD");
    assert!(!session.handle_webvr_event(VRDisplayEvent::Change(silent)));
    assert_eq!(session.display_name().as_str(), "Silent HMD");

    assert!(!session.handle_webvr_event(VRDisplayEvent::Disconnect(3)));
    assert!(!session.is_connected());
}

#[test]
fn present_change_event_clears_presentation() {
    let mut session = VRDisplay::new(1, display_data(true));
    present(&mut session, 2);
    assert!(session.handle_webvr_event(VRDisplayEvent::PresentChange(display_data(true), false)));
    assert!(!session.is_presenting());
    assert!(session.compositor_id.is_none());
}

#[test]
fn present_change_event_without_a_session_is_ignored() {
    let mut session = VRDisplay::new(1, display_data(true));
    assert!(session.handle_webvr_event(VRDisplayEvent::PresentChange(display_data(true), true)));
    assert!(!session.is_presenting());
    assert!(session.compositor_id.is_none());
}
