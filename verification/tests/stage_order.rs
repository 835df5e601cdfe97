use game_eng::base::BaseBuildOrder;
use game_eng::order::BuilderOrderChecker;
use game_eng::tex_array::TextureRendererBuildOrder;
use std::sync::atomic::AtomicBool;
use std::sync::atomic::Ordering;

#[test]
fn strictly_increasing_stages_are_accepted() {
    let mut checker = BuilderOrderChecker::new(BaseBuildOrder::InstanceAndBackend);
    checker.check_and_change(BaseBuildOrder::Window);
    checker.check_and_change(BaseBuildOrder::Surface);
    checker.check_and_change(BaseBuildOrder::Adapter);
    checker.check_and_change(BaseBuildOrder::DeviceAndQueue);
    checker.check_and_change(BaseBuildOrder::SurfaceConfiguration);
    checker.check_order(&BaseBuildOrder::Build);
}

#[test]
fn skipping_ahead_is_accepted() {
    let mut checker = BuilderOrderChecker::new(BaseBuildOrder::InstanceAndBackend);
    checker.check_and_change(BaseBuildOrder::Adapter);
    checker.check_order(&BaseBuildOrder::Build);
}

#[test]
fn in_order_change_does_not_invoke_fallback() {
    let violated = AtomicBool::new(false);
    let mut checker = BuilderOrderChecker::new(TextureRendererBuildOrder::BaseAndWindow);
    checker.check_and_change_else(TextureRendererBuildOrder::CreatePipeline, || {
        violated.store(true, Ordering::SeqCst);
    });
    assert!(!violated.load(Ordering::SeqCst));
}

#[test]
fn out_of_order_change_invokes_fallback() {
    let violated = AtomicBool::new(false);
    let mut checker = BuilderOrderChecker::new(TextureRendererBuildOrder::CreateBindGroup);
    checker.check_and_change_else(TextureRendererBuildOrder::CreatePipeline, || {
        violated.store(true, Ordering::SeqCst);
    });
    assert!(violated.load(Ordering::SeqCst));
}

#[test]
fn repeating_the_current_stage_invokes_fallback() {
    let violated = AtomicBool::new(false);
    let checker = BuilderOrderChecker::new(BaseBuildOrder::Surface);
    checker.check_order_else(&BaseBuildOrder::Surface, || {
        violated.store(true, Ordering::SeqCst);
    });
    assert!(violated.load(Ordering::SeqCst));
}

#[test]
fn later_stage_does_not_invoke_fallback() {
    let violated = AtomicBool::new(false);
    let checker = BuilderOrderChecker::new(BaseBuildOrder::Surface);
    checker.check_order_else(&BaseBuildOrder::Adapter, || {
        violated.store(true, Ordering::SeqCst);
    });
    assert!(!violated.load(Ordering::SeqCst));
}
