use game_eng::frame::{
    acquire_decision, event_action, tick_frame_counter, AcquireDecision, FrameAction, FrameEvent,
    FRAME_SAMPLE_WINDOW,
};
use game_eng::framework::{
    meets_shader_model, missing_features, requested_features, supports_downlevel_flags,
    supports_features,
};

#[test]
fn events_map_to_their_actions() {
    assert_eq!(event_action(&FrameEvent::RedrawEventsCleared), FrameAction::RequestRedraw);
    assert_eq!(
        event_action(&FrameEvent::Resized { width: 0, height: 55 }),
        FrameAction::ApplyResize { width: 0, height: 55 }
    );
    assert_eq!(
        event_action(&FrameEvent::ScaleFactorChanged { width: 12, height: 9 }),
        FrameAction::ApplyResize { width: 12, height: 9 }
    );
    assert_eq!(event_action(&FrameEvent::CloseRequested), FrameAction::Exit);
    assert_eq!(event_action(&FrameEvent::EscapePressed), FrameAction::Exit);
    assert_eq!(event_action(&FrameEvent::ReportKeyPressed), FrameAction::PrintReport);
    assert_eq!(event_action(&FrameEvent::OtherWindowEvent), FrameAction::Ignore);
    assert_eq!(event_action(&FrameEvent::RedrawRequested), FrameAction::RenderFrame);
    assert_eq!(event_action(&FrameEvent::Other), FrameAction::Ignore);
}

#[test]
fn successful_acquire_renders() {
    assert_eq!(acquire_decision(0, true), AcquireDecision::Render);
    assert_eq!(acquire_decision(1, true), AcquireDecision::Render);
}

#[test]
fn first_failure_earns_exactly_one_retry() {
    assert_eq!(acquire_decision(0, false), AcquireDecision::RetryAfterReconfigure);
}

#[test]
fn second_failure_is_fatal() {
    assert_eq!(acquire_decision(1, false), AcquireDecision::Abort);
    assert_eq!(acquire_decision(5, false), AcquireDecision::Abort);
}

#[test]
fn frame_counter_reports_every_hundredth_frame() {
    assert_eq!(FRAME_SAMPLE_WINDOW, 100);
    assert_eq!(tick_frame_counter(0), (1, false));
    assert_eq!(tick_frame_counter(98), (99, false));
    assert_eq!(tick_frame_counter(99), (0, true));
}

#[test]
fn requested_features_merge_required_and_offered_optionals() {
    assert_eq!(requested_features(0b0011, 0b1100, 0b0101), 0b0111);
    assert_eq!(requested_features(0, 0, 0), 0);
    assert_eq!(requested_features(0b1, 0b10, 0), 0b1);
}

#[test]
fn feature_support_is_mask_containment() {
    assert!(supports_features(0b111, 0b101));
    assert!(!supports_features(0b001, 0b101));
    assert_eq!(missing_features(0b001, 0b101), 0b100);
    assert_eq!(missing_features(0b111, 0b101), 0);
}

#[test]
fn shader_model_and_downlevel_checks_compare_levels_and_masks() {
    assert!(meets_shader_model(5, 5));
    assert!(meets_shader_model(5, 4));
    assert!(!meets_shader_model(2, 5));
    assert!(supports_downlevel_flags(0b1111, 0b0101));
    assert!(!supports_downlevel_flags(0b1010, 0b0101));
}
