//! The window's event handling and the order in which the Vulkan objects
//! are destroyed.

use vstd::prelude::*;

verus! {

/// The window events the program tells apart.
#[derive(Clone, Copy, PartialEq, Eq, Structural, Debug)]
pub enum WindowEventKind {
    CloseRequested,
    RedrawRequested,
    Other,
}

/// What the event loop is to do.
#[derive(Clone, Copy, PartialEq, Eq, Structural, Debug)]
pub enum LoopAction {
    /// Leave the event loop.
    Exit,
    /// Ask the window to be drawn again.
    RequestRedraw,
    /// Nothing to do.
    Nothing,
}

/// The response to a window event: a close request ends the loop; nothing
/// else is acted on.
pub fn on_window_event(event: WindowEventKind) -> (action: LoopAction)
    ensures
        action == (if event == WindowEventKind::CloseRequested { LoopAction::Exit } else { LoopAction::Nothing }),
{
    match event {
        WindowEventKind::CloseRequested => LoopAction::Exit,
        WindowEventKind::RedrawRequested => LoopAction::Nothing,
        WindowEventKind::Other => LoopAction::Nothing,
    }
}

/// Before the loop waits, a window that exists is asked to be drawn again.
pub fn on_about_to_wait(has_window: bool) -> (action: LoopAction)
    ensures
        action == (if has_window { LoopAction::RequestRedraw } else { LoopAction::Nothing }),
{
    if has_window {
        LoopAction::RequestRedraw
    } else {
        LoopAction::Nothing
    }
}

/// Which Vulkan objects exist when the program ends. A destroyable object
/// needs both its handle and the loader of its extension.
pub struct LiveResources {
    pub image_views: usize,
    pub swapchain_loader: bool,
    pub swapchain: bool,
    pub device: bool,
    pub surface_loader: bool,
    pub surface: bool,
    pub debug_utils_loader: bool,
    pub debug_messenger: bool,
    pub instance: bool,
}

/// One destruction.
#[derive(Clone, Copy, PartialEq, Eq, Structural, Debug)]
pub enum TeardownStep {
    DestroyImageView(usize),
    DestroySwapchain,
    DestroyDevice,
    DestroySurface,
    DestroyDebugMessenger,
    DestroyInstance,
}

pub open spec fn step_if(present: bool, step: TeardownStep) -> Seq<TeardownStep> {
    if present { seq![step] } else { Seq::empty() }
}

/// The destructions in order: the image views, the swap chain, the device,
/// the surface, the debug messenger, and last the instance; each only when
/// it exists.
#[verifier::opaque]
pub open spec fn teardown_steps(r: LiveResources) -> Seq<TeardownStep> {
    Seq::new(r.image_views as nat, |i: int| TeardownStep::DestroyImageView(i as usize))
        + step_if(r.swapchain_loader && r.swapchain, TeardownStep::DestroySwapchain)
        + step_if(r.device, TeardownStep::DestroyDevice)
        + step_if(r.surface_loader && r.surface, TeardownStep::DestroySurface)
        + step_if(r.debug_utils_loader && r.debug_messenger, TeardownStep::DestroyDebugMessenger)
        + step_if(r.instance, TeardownStep::DestroyInstance)
}

/// The object destroyed by `child` was made from the one destroyed by
/// `parent`.
pub open spec fn made_from(child: TeardownStep, parent: TeardownStep) -> bool {
    match parent {
        TeardownStep::DestroyDevice => child is DestroyImageView || child is DestroySwapchain,
        TeardownStep::DestroyInstance => child is DestroyDevice || child is DestroySurface
            || child is DestroyDebugMessenger,
        _ => false,
    }
}

/// The destructions to perform when the program ends. The device must
/// exist: the image views are destroyed through it.
pub fn teardown_plan(resources: &LiveResources) -> (steps: Vec<TeardownStep>)
    requires
        resources.device,
    ensures
        steps@ == teardown_steps(*resources),
{
    reveal(teardown_steps);
    let mut steps: Vec<TeardownStep> = Vec::new();
    let mut i: usize = 0;
    while i < resources.image_views
        invariant
            i <= resources.image_views,
            steps@ == Seq::new(i as nat, |k: int| TeardownStep::DestroyImageView(k as usize)),
        decreases resources.image_views - i,
    {
        steps.push(TeardownStep::DestroyImageView(i));
        i = i + 1;
        assert(steps@ =~= Seq::new(i as nat, |k: int| TeardownStep::DestroyImageView(k as usize)));
    }
    let ghost views = steps@;
    if resources.swapchain_loader && resources.swapchain {
        steps.push(TeardownStep::DestroySwapchain);
    }
    let ghost s1 = steps@;
    assert(s1 =~= views + step_if(resources.swapchain_loader && resources.swapchain, TeardownStep::DestroySwapchain));
    steps.push(TeardownStep::DestroyDevice);
    let ghost s2 = steps@;
    assert(s2 =~= s1 + step_if(resources.device, TeardownStep::DestroyDevice));
    if resources.surface_loader && resources.surface {
        steps.push(TeardownStep::DestroySurface);
    }
    let ghost s3 = steps@;
    assert(s3 =~= s2 + step_if(resources.surface_loader && resources.surface, TeardownStep::DestroySurface));
    if resources.debug_utils_loader && resources.debug_messenger {
        steps.push(TeardownStep::DestroyDebugMessenger);
    }
    let ghost s4 = steps@;
    assert(s4 =~= s3 + step_if(resources.debug_utils_loader && resources.debug_messenger, TeardownStep::DestroyDebugMessenger));
    if resources.instance {
        steps.push(TeardownStep::DestroyInstance);
    }
    assert(steps@ =~= s4 + step_if(resources.instance, TeardownStep::DestroyInstance));
    assert(steps@ =~= teardown_steps(*resources));
    steps
}

/// The rank of a step in the order of destruction.
pub open spec fn rank(step: TeardownStep) -> int {
    match step {
        TeardownStep::DestroyImageView(_) => 0,
        TeardownStep::DestroySwapchain => 1,
        TeardownStep::DestroyDevice => 2,
        TeardownStep::DestroySurface => 3,
        TeardownStep::DestroyDebugMessenger => 4,
        TeardownStep::DestroyInstance => 5,
    }
}

/// Where each kind of step stands in `teardown_steps(r)`.
proof fn lemma_teardown_positions(r: LiveResources)
    ensures
        ({
            let s = teardown_steps(r);
            let pa = r.image_views as int;
            let pb = pa + (if r.swapchain_loader && r.swapchain { 1int } else { 0 });
            let pc = pb + (if r.device { 1int } else { 0 });
            let pd = pc + (if r.surface_loader && r.surface { 1int } else { 0 });
            let pe = pd + (if r.debug_utils_loader && r.debug_messenger { 1int } else { 0 });
            &&& s.len() == pe + (if r.instance { 1int } else { 0 })
            &&& forall|i: int| 0 <= i < s.len() ==> {
                &&& (i < pa ==> s[i] == TeardownStep::DestroyImageView(i as usize))
                &&& (pa <= i < pb ==> s[i] == TeardownStep::DestroySwapchain)
                &&& (pb <= i < pc ==> s[i] == TeardownStep::DestroyDevice)
                &&& (pc <= i < pd ==> s[i] == TeardownStep::DestroySurface)
                &&& (pd <= i < pe ==> s[i] == TeardownStep::DestroyDebugMessenger)
                &&& (pe <= i ==> s[i] == TeardownStep::DestroyInstance)
            }
        }),
{
    reveal(teardown_steps);
    let v = Seq::new(r.image_views as nat, |i: int| TeardownStep::DestroyImageView(i as usize));
    let s1 = v + step_if(r.swapchain_loader && r.swapchain, TeardownStep::DestroySwapchain);
    let s2 = s1 + step_if(r.device, TeardownStep::DestroyDevice);
    let s3 = s2 + step_if(r.surface_loader && r.surface, TeardownStep::DestroySurface);
    let s4 = s3 + step_if(r.debug_utils_loader && r.debug_messenger, TeardownStep::DestroyDebugMessenger);
    let s = s4 + step_if(r.instance, TeardownStep::DestroyInstance);
    assert(s == teardown_steps(r));
    assert forall|i: int| 0 <= i < s.len() implies {
        &&& (i < s1.len() ==> (i < v.len() ==> s[i] == TeardownStep::DestroyImageView(i as usize))
            && (v.len() <= i ==> s[i] == TeardownStep::DestroySwapchain))
        &&& (s1.len() <= i < s2.len() ==> s[i] == TeardownStep::DestroyDevice)
        &&& (s2.len() <= i < s3.len() ==> s[i] == TeardownStep::DestroySurface)
        &&& (s3.len() <= i < s4.len() ==> s[i] == TeardownStep::DestroyDebugMessenger)
        &&& (s4.len() <= i ==> s[i] == TeardownStep::DestroyInstance)
    } by {
        if i < s4.len() {
            assert(s[i] == s4[i]);
            if i < s3.len() {
                assert(s4[i] == s3[i]);
                if i < s2.len() {
                    assert(s3[i] == s2[i]);
                    if i < s1.len() {
                        assert(s2[i] == s1[i]);
                        if i < v.len() {
                            assert(s1[i] == v[i]);
                        }
                    }
                }
            }
        }
    }
}

proof fn lemma_teardown_shape(r: LiveResources)
    ensures
        forall|i: int, j: int| 0 <= i < j < teardown_steps(r).len() ==> {
            ||| rank(#[trigger] teardown_steps(r)[i]) < rank(#[trigger] teardown_steps(r)[j])
            ||| (teardown_steps(r)[i] matches TeardownStep::DestroyImageView(a)
                && teardown_steps(r)[j] matches TeardownStep::DestroyImageView(b) && a < b)
        },
{
    lemma_teardown_positions(r);
}

/// One for an object that is live (with its loader, where it needs one),
/// none otherwise.
pub open spec fn live_count(live: bool) -> int {
    if live { 1 } else { 0 }
}

/// The plan destroys exactly the live objects: image view `k` exactly when
/// `k` is below the number of image views, the swap chain and the surface
/// and the debug messenger exactly when both the object and its loader are
/// live, and the device and the instance exactly when they are live, each
/// independently of the others; it holds one step per live object.
pub proof fn law_teardown_destroys_exactly_the_live_objects(r: LiveResources)
    ensures
        forall|k: usize| #[trigger] teardown_steps(r).contains(TeardownStep::DestroyImageView(k)) <==> k < r.image_views,
        teardown_steps(r).contains(TeardownStep::DestroySwapchain) <==> (r.swapchain_loader && r.swapchain),
        teardown_steps(r).contains(TeardownStep::DestroyDevice) <==> r.device,
        teardown_steps(r).contains(TeardownStep::DestroySurface) <==> (r.surface_loader && r.surface),
        teardown_steps(r).contains(TeardownStep::DestroyDebugMessenger) <==> (r.debug_utils_loader && r.debug_messenger),
        teardown_steps(r).contains(TeardownStep::DestroyInstance) <==> r.instance,
        teardown_steps(r).len() == r.image_views + live_count(r.swapchain_loader && r.swapchain)
            + live_count(r.device) + live_count(r.surface_loader && r.surface)
            + live_count(r.debug_utils_loader && r.debug_messenger) + live_count(r.instance),
{
    lemma_teardown_positions(r);
    let s = teardown_steps(r);
    let pa = r.image_views as int;
    let pb = pa + (if r.swapchain_loader && r.swapchain { 1int } else { 0 });
    let pc = pb + (if r.device { 1int } else { 0 });
    let pd = pc + (if r.surface_loader && r.surface { 1int } else { 0 });
    let pe = pd + (if r.debug_utils_loader && r.debug_messenger { 1int } else { 0 });
    assert forall|k: usize| #[trigger] s.contains(TeardownStep::DestroyImageView(k)) <==> k < r.image_views by {
        if k < r.image_views {
            assert(s[k as int] == TeardownStep::DestroyImageView(k));
        }
        if s.contains(TeardownStep::DestroyImageView(k)) {
            let i = choose|i: int| 0 <= i < s.len() && s[i] == TeardownStep::DestroyImageView(k);
            assert(i < pa);
        }
    }
    if r.swapchain_loader && r.swapchain {
        assert(s[pa] == TeardownStep::DestroySwapchain);
    }
    if s.contains(TeardownStep::DestroySwapchain) {
        let i = choose|i: int| 0 <= i < s.len() && s[i] == TeardownStep::DestroySwapchain;
        assert(pa <= i < pb);
    }
    if r.device {
        assert(s[pb] == TeardownStep::DestroyDevice);
    }
    if s.contains(TeardownStep::DestroyDevice) {
        let i = choose|i: int| 0 <= i < s.len() && s[i] == TeardownStep::DestroyDevice;
        assert(pb <= i < pc);
    }
    if r.surface_loader && r.surface {
        assert(s[pc] == TeardownStep::DestroySurface);
    }
    if s.contains(TeardownStep::DestroySurface) {
        let i = choose|i: int| 0 <= i < s.len() && s[i] == TeardownStep::DestroySurface;
        assert(pc <= i < pd);
    }
    if r.debug_utils_loader && r.debug_messenger {
        assert(s[pd] == TeardownStep::DestroyDebugMessenger);
    }
    if s.contains(TeardownStep::DestroyDebugMessenger) {
        let i = choose|i: int| 0 <= i < s.len() && s[i] == TeardownStep::DestroyDebugMessenger;
        assert(pd <= i < pe);
    }
    if r.instance {
        assert(s[pe] == TeardownStep::DestroyInstance);
    }
    if s.contains(TeardownStep::DestroyInstance) {
        let i = choose|i: int| 0 <= i < s.len() && s[i] == TeardownStep::DestroyInstance;
        assert(pe <= i);
    }
}

/// No object is destroyed twice, and every object is destroyed before the
/// object it was made from: image views and the swap chain before the
/// device, and the device, the surface and the debug messenger before the
/// instance.
pub proof fn law_teardown_order(r: LiveResources)
    ensures
        teardown_steps(r).no_duplicates(),
        forall|i: int, j: int| 0 <= i < j < teardown_steps(r).len() ==>
            !made_from(#[trigger] teardown_steps(r)[j], #[trigger] teardown_steps(r)[i]),
{
    lemma_teardown_shape(r);
    let s = teardown_steps(r);
    assert forall|i: int, j: int| 0 <= i < s.len() && 0 <= j < s.len() && i != j implies s[i] != s[j] by {
        if i < j {
            assert(rank(s[i]) < rank(s[j]) || (s[i] matches TeardownStep::DestroyImageView(a)
                && s[j] matches TeardownStep::DestroyImageView(b) && a < b));
        } else {
            assert(rank(s[j]) < rank(s[i]) || (s[j] matches TeardownStep::DestroyImageView(a)
                && s[i] matches TeardownStep::DestroyImageView(b) && a < b));
        }
    }
}

} // verus!
