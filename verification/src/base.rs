//! The graphics-context builder: it sequences instance, window, surface,
//! adapter, device/queue and swapchain configuration into an immutable
//! context, each step gated by the order tracker.
//!
//! The GPU objects themselves live with the driver; what the construction
//! logic decides and records — which step may run, which adapter is chosen,
//! what configuration the surface receives — is held here as plain values.

use crate::order::{BuildStage, BuilderOrderChecker};
use vstd::pervasive::unreached;
use vstd::prelude::*;

verus! {

/// Construction stages of the graphics context, in build order.
#[derive(Clone, Copy, Debug, PartialEq, Eq, Structural)]
pub enum BaseBuildOrder {
    InstanceAndBackend,
    Window,
    Surface,
    Adapter,
    DeviceAndQueue,
    SurfaceConfiguration,
    Build,
}

impl BuildStage for BaseBuildOrder {
    open spec fn ord(&self) -> int {
        match self {
            BaseBuildOrder::InstanceAndBackend => 0,
            BaseBuildOrder::Window => 1,
            BaseBuildOrder::Surface => 2,
            BaseBuildOrder::Adapter => 3,
            BaseBuildOrder::DeviceAndQueue => 4,
            BaseBuildOrder::SurfaceConfiguration => 5,
            BaseBuildOrder::Build => 6,
        }
    }

    fn ordinal(&self) -> (r: u64) {
        match self {
            BaseBuildOrder::InstanceAndBackend => 0,
            BaseBuildOrder::Window => 1,
            BaseBuildOrder::Surface => 2,
            BaseBuildOrder::Adapter => 3,
            BaseBuildOrder::DeviceAndQueue => 4,
            BaseBuildOrder::SurfaceConfiguration => 5,
            BaseBuildOrder::Build => 6,
        }
    }
}

/// How presentation of rendered frames is scheduled.
#[derive(Clone, Copy, Debug, PartialEq, Eq, Structural)]
pub enum PresentMode {
    AutoVsync,
    AutoNoVsync,
    Fifo,
    FifoRelaxed,
    Immediate,
    Mailbox,
}

/// The negotiated swapchain configuration.  Pixel formats and alpha modes
/// are driver-reported choices and are carried as opaque numeric codes.
#[derive(Clone, Copy, Debug, PartialEq, Eq, Structural)]
pub struct SurfaceConfig {
    pub width: u32,
    pub height: u32,
    pub format: u32,
    pub present_mode: PresentMode,
    pub alpha_mode: u32,
}

/// The part of an OS window that the context logic reads: its inner size.
#[derive(Clone, Copy, Debug, PartialEq, Eq, Structural)]
pub struct Window {
    pub width: u32,
    pub height: u32,
}

impl Window {
    /// Records a window of the given inner size.
    pub fn new(width: u32, height: u32) -> (r: Self)
        ensures
            r == (Window { width, height }),
    {
        Window { width, height }
    }
}

/// What the adapter-selection logic reads of one enumerated adapter:
/// whether it can present to the surface (the driver reports at least one
/// supported format for it) and whether the caller's predicate accepted it.
#[derive(Clone, Copy, Debug, PartialEq, Eq, Structural)]
pub struct AdapterInfo {
    pub surface_compatible: bool,
    pub predicate_ok: bool,
}

/// An adapter is usable when it can present to the surface and the caller's
/// predicate accepts it.
pub open spec fn adapter_compatible(a: AdapterInfo) -> bool {
    a.surface_compatible && a.predicate_ok
}

/// `i` is the position of the first usable adapter in `s`.
pub open spec fn is_first_compatible(s: Seq<AdapterInfo>, i: int) -> bool {
    &&& 0 <= i < s.len()
    &&& adapter_compatible(s[i])
    &&& forall|j: int| 0 <= j < i ==> !adapter_compatible(#[trigger] s[j])
}

/// Returns the position of the first adapter that can present to the
/// surface and that the caller's predicate accepts, if any.
pub fn find_compatible(adapters: &Vec<AdapterInfo>) -> (r: Option<usize>)
    ensures
        (r matches Some(i) ==> is_first_compatible(adapters@, i as int)),
        (r is None ==> forall|j: int|
            0 <= j < adapters@.len() ==> !adapter_compatible(#[trigger] adapters@[j])),
{
    let mut k: usize = 0;
    while k < adapters.len()
        invariant
            k <= adapters.len(),
            forall|j: int| 0 <= j < k ==> !adapter_compatible(#[trigger] adapters@[j]),
        decreases adapters.len() - k,
    {
        let a = adapters[k];
        if a.surface_compatible && a.predicate_ok {
            return Some(k);
        }
        k += 1;
    }
    None
}

/// Which selection policy produced the adapter.
#[derive(Clone, Copy, Debug, PartialEq, Eq, Structural)]
pub enum AdapterChoice {
    /// Chosen by enumerating all adapters and taking the first usable one.
    Enumerated { index: usize },
    /// Negotiated by the driver's environment/default policy.
    Negotiated,
}

/// A swapchain dimension may never be zero; zero requests are clamped to 1.
pub open spec fn clamp_dimension_spec(d: u32) -> u32 {
    if d == 0 {
        1u32
    } else {
        d
    }
}

/// Clamps one swapchain dimension to the minimum of 1.
pub fn clamp_dimension(d: u32) -> (r: u32)
    ensures
        r == clamp_dimension_spec(d),
{
    if d == 0 {
        1
    } else {
        d
    }
}

/// The swapchain configuration derived from what the surface and adapter
/// report: the first supported format and alpha mode, the window's inner
/// size, and vertical-sync (FIFO) presentation.
pub open spec fn initial_surface_config_spec(
    window: Window,
    formats: Seq<u32>,
    alpha_modes: Seq<u32>,
) -> SurfaceConfig {
    SurfaceConfig {
        width: window.width,
        height: window.height,
        format: formats[0],
        present_mode: PresentMode::Fifo,
        alpha_mode: alpha_modes[0],
    }
}

/// Derives the swapchain configuration for a window of the given inner size
/// from the driver-reported format and alpha-mode lists.
pub fn initial_surface_config(
    width: u32,
    height: u32,
    formats: &Vec<u32>,
    alpha_modes: &Vec<u32>,
) -> (r: SurfaceConfig)
    requires
        formats@.len() > 0,
        alpha_modes@.len() > 0,
    ensures
        r == initial_surface_config_spec(Window { width, height }, formats@, alpha_modes@),
{
    SurfaceConfig {
        width,
        height,
        format: formats[0],
        present_mode: PresentMode::Fifo,
        alpha_mode: alpha_modes[0],
    }
}

/// The finished graphics context.  Its verified state is the swapchain
/// configuration applied to the surface; the driver-side objects (instance,
/// surface, adapter, device, queue) stay with their owner.
pub struct Base {
    config: SurfaceConfig,
}

/// Builds a `Base`, one step per stage, each step gated by the order
/// tracker.
pub struct BaseBuilder {
    window: Option<Window>,
    surface_created: bool,
    adapter: Option<AdapterChoice>,
    device_and_queue_acquired: bool,
    config: Option<SurfaceConfig>,
    stage: BuilderOrderChecker<BaseBuildOrder>,
}

impl BaseBuilder {
    /// Ordinal of the construction stage most recently completed.
    pub closed spec fn stage_ord(&self) -> int {
        self.stage.current_stage().ord()
    }

    /// The window bound to the builder, if the window step has run.
    pub closed spec fn window_model(&self) -> Option<Window> {
        self.window
    }

    pub open spec fn has_window(&self) -> bool {
        self.window_model() is Some
    }

    /// The bound window; meaningful only once the window step has run.
    pub open spec fn window_spec(&self) -> Window {
        match self.window_model() {
            Some(w) => w,
            None => Window { width: 0, height: 0 },
        }
    }

    pub closed spec fn has_surface(&self) -> bool {
        self.surface_created
    }

    /// The chosen adapter, if the adapter step has run.
    pub closed spec fn adapter_model(&self) -> Option<AdapterChoice> {
        self.adapter
    }

    pub open spec fn has_adapter(&self) -> bool {
        self.adapter_model() is Some
    }

    pub closed spec fn has_device_and_queue(&self) -> bool {
        self.device_and_queue_acquired
    }

    /// The derived swapchain configuration, if the configuration step has
    /// run.
    pub closed spec fn config_model(&self) -> Option<SurfaceConfig> {
        self.config
    }

    pub open spec fn has_config(&self) -> bool {
        self.config_model() is Some
    }

    /// Construction state and stage agree: exactly the components of the
    /// stages already passed are present.
    pub open spec fn wf(&self) -> bool {
        &&& 0 <= self.stage_ord() <= 5
        &&& (self.has_window() <==> self.stage_ord() >= 1)
        &&& (self.has_surface() <==> self.stage_ord() >= 2)
        &&& (self.has_adapter() <==> self.stage_ord() >= 3)
        &&& (self.has_device_and_queue() <==> self.stage_ord() >= 4)
        &&& (self.has_config() <==> self.stage_ord() >= 5)
    }

    pub open spec fn can_pass_window(&self) -> bool {
        self.stage_ord() < 1
    }

    pub open spec fn can_get_surface(&self) -> bool {
        self.stage_ord() < 2 && self.has_window()
    }

    pub open spec fn can_select_adapter(&self) -> bool {
        self.stage_ord() < 3 && self.has_surface()
    }

    pub open spec fn can_get_device_and_queue(&self) -> bool {
        self.stage_ord() < 4 && self.has_adapter()
    }

    pub open spec fn can_configure_surface(&self) -> bool {
        &&& self.stage_ord() < 5
        &&& self.has_window()
        &&& self.has_surface()
        &&& self.has_adapter()
        &&& self.has_device_and_queue()
    }

    pub open spec fn can_build(&self) -> bool {
        &&& self.has_surface()
        &&& self.has_adapter()
        &&& self.has_device_and_queue()
        &&& self.has_config()
    }

    /// Binds the window the context will present to.
    pub fn pass_window(self, window: Window) -> (r: Self)
        requires
            self.wf(),
            self.can_pass_window(),
        ensures
            r.wf(),
            r.stage_ord() == 1,
            r.window_model() == Some(window),
            !r.has_surface(),
            !r.has_adapter(),
            !r.has_device_and_queue(),
            !r.has_config(),
    {
        let BaseBuilder {
            window: _,
            surface_created,
            adapter,
            device_and_queue_acquired,
            config,
            mut stage,
        } = self;
        stage.check_and_change(BaseBuildOrder::Window);
        BaseBuilder {
            window: Some(window),
            surface_created,
            adapter,
            device_and_queue_acquired,
            config,
            stage,
        }
    }

    /// Creates the presentation surface for the bound window.
    pub fn get_surface(self) -> (r: Self)
        requires
            self.wf(),
            self.can_get_surface(),
        ensures
            r.wf(),
            r.stage_ord() == 2,
            r.window_model() == self.window_model(),
            r.has_surface(),
            !r.has_adapter(),
            !r.has_device_and_queue(),
            !r.has_config(),
    {
        let BaseBuilder {
            window,
            surface_created: _,
            adapter,
            device_and_queue_acquired,
            config,
            mut stage,
        } = self;
        stage.check_and_change(BaseBuildOrder::Surface);
        BaseBuilder {
            window,
            surface_created: true,
            adapter,
            device_and_queue_acquired,
            config,
            stage,
        }
    }

    /// Selects the first enumerated adapter that can present to the surface
    /// and that the caller's predicate accepts.  Absence of any such adapter
    /// is fatal at startup; the precondition rules it out, and callers test
    /// with `find_compatible` first.
    pub fn adapter_from_all_compatible_adapters(self, adapters: &Vec<AdapterInfo>) -> (r: Self)
        requires
            self.wf(),
            self.can_select_adapter(),
            exists|i: int| 0 <= i < adapters@.len() && adapter_compatible(#[trigger] adapters@[i]),
        ensures
            r.wf(),
            r.stage_ord() == 3,
            r.window_model() == self.window_model(),
            r.has_surface(),
            (r.adapter_model() matches Some(AdapterChoice::Enumerated { index })
                && is_first_compatible(adapters@, index as int)),
            !r.has_device_and_queue(),
            !r.has_config(),
    {
        let BaseBuilder {
            window,
            surface_created,
            adapter: _,
            device_and_queue_acquired,
            config,
            mut stage,
        } = self;
        stage.check_and_change(BaseBuildOrder::Adapter);
        match find_compatible(adapters) {
            Some(index) => BaseBuilder {
                window,
                surface_created,
                adapter: Some(AdapterChoice::Enumerated { index }),
                device_and_queue_acquired,
                config,
                stage,
            },
            None => unreached(),
        }
    }

    /// Records an adapter negotiated by the driver's environment/default
    /// policy.  The driver's failure to find one is fatal at startup; the
    /// caller performs the negotiation and proceeds only on success.
    pub fn adapter_from_compatible_adapters(self) -> (r: Self)
        requires
            self.wf(),
            self.can_select_adapter(),
        ensures
            r.wf(),
            r.stage_ord() == 3,
            r.window_model() == self.window_model(),
            r.has_surface(),
            r.adapter_model() == Some(AdapterChoice::Negotiated),
            !r.has_device_and_queue(),
            !r.has_config(),
    {
        let BaseBuilder {
            window,
            surface_created,
            adapter: _,
            device_and_queue_acquired,
            config,
            mut stage,
        } = self;
        stage.check_and_change(BaseBuildOrder::Adapter);
        BaseBuilder {
            window,
            surface_created,
            adapter: Some(AdapterChoice::Negotiated),
            device_and_queue_acquired,
            config,
            stage,
        }
    }

    /// Records the acquisition of the logical device and queue from the
    /// chosen adapter.  The feature set actually requested is derived by the
    /// framework rules; an unmet request is fatal at startup and is handled
    /// by the caller before this step runs.
    pub fn get_device_and_queue(self) -> (r: Self)
        requires
            self.wf(),
            self.can_get_device_and_queue(),
        ensures
            r.wf(),
            r.stage_ord() == 4,
            r.window_model() == self.window_model(),
            r.has_surface(),
            r.adapter_model() == self.adapter_model(),
            r.has_device_and_queue(),
            !r.has_config(),
    {
        let BaseBuilder {
            window,
            surface_created,
            adapter,
            device_and_queue_acquired: _,
            config,
            mut stage,
        } = self;
        stage.check_and_change(BaseBuildOrder::DeviceAndQueue);
        BaseBuilder {
            window,
            surface_created,
            adapter,
            device_and_queue_acquired: true,
            config,
            stage,
        }
    }

    /// Derives the swapchain configuration from the driver-reported format
    /// and alpha-mode lists and the bound window's inner size, and applies
    /// it to the surface.
    pub fn configure_surface(self, formats: &Vec<u32>, alpha_modes: &Vec<u32>) -> (r: Self)
        requires
            self.wf(),
            self.can_configure_surface(),
            formats@.len() > 0,
            alpha_modes@.len() > 0,
        ensures
            r.wf(),
            r.stage_ord() == 5,
            r.window_model() == self.window_model(),
            r.has_surface(),
            r.adapter_model() == self.adapter_model(),
            r.has_device_and_queue(),
            r.config_model() == Some(
                initial_surface_config_spec(self.window_spec(), formats@, alpha_modes@),
            ),
    {
        let BaseBuilder {
            window,
            surface_created,
            adapter,
            device_and_queue_acquired,
            config: _,
            mut stage,
        } = self;
        stage.check_and_change(BaseBuildOrder::SurfaceConfiguration);
        let size = match &window {
            Some(w) => (w.width, w.height),
            None => unreached(),
        };
        let config = initial_surface_config(size.0, size.1, formats, alpha_modes);
        BaseBuilder {
            window,
            surface_created,
            adapter,
            device_and_queue_acquired,
            config: Some(config),
            stage,
        }
    }

    /// Finalizes into an immutable context.  Every component must be
    /// present; a partially initialized builder cannot reach this point.
    pub fn build(self) -> (r: Base)
        requires
            self.wf(),
            self.can_build(),
        ensures
            Some(r.config_spec()) == self.config_model(),
    {
        let BaseBuilder {
            window: _,
            surface_created: _,
            adapter: _,
            device_and_queue_acquired: _,
            config,
            stage,
        } = self;
        stage.check_order(&BaseBuildOrder::Build);
        match config {
            Some(config) => Base { config },
            None => unreached(),
        }
    }
}

impl Base {
    /// The swapchain configuration currently applied to the surface.
    pub closed spec fn config_spec(&self) -> SurfaceConfig {
        self.config
    }

    /// Returns the swapchain configuration currently applied to the surface.
    pub fn config(&self) -> (r: SurfaceConfig)
        ensures
            r == self.config_spec(),
    {
        self.config
    }

    /// Starts the staged construction of a context.  The GPU instance and
    /// the backend selection exist from this point on.
    pub fn init() -> (r: BaseBuilder)
        ensures
            r.wf(),
            r.stage_ord() == 0,
            !r.has_window(),
            !r.has_surface(),
            !r.has_adapter(),
            !r.has_device_and_queue(),
            !r.has_config(),
    {
        BaseBuilder {
            window: None,
            surface_created: false,
            adapter: None,
            device_and_queue_acquired: false,
            config: None,
            stage: BuilderOrderChecker::new(BaseBuildOrder::InstanceAndBackend),
        }
    }

    /// Applies a new window size to the stored swapchain configuration,
    /// clamping each dimension to the minimum of 1 before it reaches the
    /// swapchain.  The caller re-applies the returned configuration to the
    /// surface before the next present.
    pub fn resize(&mut self, width: u32, height: u32)
        ensures
            final(self).config_spec() == (SurfaceConfig {
                width: clamp_dimension_spec(width),
                height: clamp_dimension_spec(height),
                ..old(self).config_spec()
            }),
    {
        self.config.width = clamp_dimension(width);
        self.config.height = clamp_dimension(height);
    }
}

/// The device step cannot run before the surface step: a well-formed
/// builder without a surface holds no adapter either, so the
/// device-acquisition precondition is unsatisfiable, as is everything after
/// it.
pub proof fn lemma_no_device_before_surface(b: &BaseBuilder)
    requires
        b.wf(),
        !b.has_surface(),
    ensures
        !b.can_get_device_and_queue(),
        !b.can_configure_surface(),
        !b.can_build(),
{
}

/// The device step never runs twice, nor after a later step: once the
/// device stage is passed, its precondition is unsatisfiable again.
pub proof fn lemma_no_repeated_device_step(b: &BaseBuilder)
    requires
        b.wf(),
        b.stage_ord() >= 4,
    ensures
        !b.can_get_device_and_queue(),
{
}

/// A context is never built partially initialized: once a well-formed
/// builder holds a configuration, it holds every other component as well.
pub proof fn lemma_build_is_complete(b: &BaseBuilder)
    requires
        b.wf(),
        b.has_config(),
    ensures
        b.has_window(),
        b.has_surface(),
        b.has_adapter(),
        b.has_device_and_queue(),
        b.can_build(),
{
}

} // verus!
