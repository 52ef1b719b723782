use vstd::prelude::*;

use crate::packing::QUAD_VERTICES;

verus! {

/// Which kind of GPU adapter to ask for.
#[derive(Clone, Copy, Debug, PartialEq, Eq, Structural)]
pub enum PowerMode {
    LowPower,
    HighPerformance,
}

/// What a call of `render` does for the current surface.
#[derive(Clone, Copy, Debug, PartialEq, Eq, Structural)]
pub enum FramePlan {
    /// A zero-sized surface: nothing is written or drawn.
    Skip,
    /// Globals are written and the frame is cleared; there are no stars to draw.
    ClearOnly,
    /// Globals are written, the frame is cleared, and `instances` star quads of
    /// `vertices` vertices each are drawn.
    DrawStars { vertices: u32, instances: u32 },
}

/// Battery saving asks for a low-power adapter, otherwise for a high-performance one.
pub fn power_mode(battery_saving: bool) -> (m: PowerMode)
    ensures
        m == (if battery_saving { PowerMode::LowPower } else { PowerMode::HighPerformance }),
{
    if battery_saving {
        PowerMode::LowPower
    } else {
        PowerMode::HighPerformance
    }
}

/// The index of the first sRGB surface format, or of the first format when none is sRGB.
/// `is_srgb[i]` tells whether the surface's `i`-th format is sRGB.
pub fn choose_surface_format(is_srgb: &Vec<bool>) -> (r: usize)
    requires
        is_srgb.len() > 0,
    ensures
        r < is_srgb.len(),
        (exists|i: int| 0 <= i < is_srgb.len() && is_srgb[i]) ==> {
            &&& is_srgb[r as int]
            &&& forall|j: int| 0 <= j < r ==> !is_srgb[j]
        },
        (forall|i: int| 0 <= i < is_srgb.len() ==> !is_srgb[i]) ==> r == 0,
{
    let mut i: usize = 0;
    while i < is_srgb.len()
        invariant
            i <= is_srgb.len(),
            forall|j: int| 0 <= j < i ==> !is_srgb[j],
        decreases is_srgb.len() - i,
    {
        if is_srgb[i] {
            return i;
        }
        i = i + 1;
    }
    0
}

/// A window dimension as the surface uses it: at least 1.
pub fn window_dimension(raw: i32) -> (r: u32)
    ensures
        r == (if raw < 1 { 1 } else { raw as int }),
{
    if raw < 1 {
        1
    } else {
        raw as u32
    }
}

/// A dimension reported by a surface change: negative values read as 0.
pub fn reported_dimension(raw: i32) -> (r: u32)
    ensures
        r == (if raw < 0 { 0 } else { raw as int }),
{
    if raw < 0 {
        0
    } else {
        raw as u32
    }
}

/// The lifecycle state of the wallpaper surface: its configured size (never zero),
/// whether it is visible, and how many stars it shows.
pub struct SurfaceState {
    width: u32,
    height: u32,
    visible: bool,
    star_count: u32,
}

/// The abstract value of a `SurfaceState`.
pub struct SurfaceView {
    pub width: u32,
    pub height: u32,
    pub visible: bool,
    pub star_count: u32,
}

/// What can happen to a live surface.
pub enum SurfaceEvent {
    /// The surface changed size.
    Resize { width: u32, height: u32 },
    /// The wallpaper was shown (`true`) or hidden (`false`).
    Visibility(bool),
    /// A frame tick: the state is only read.
    Frame,
}

/// Clamps a configured side to at least 1.
pub open spec fn at_least_one(x: u32) -> u32 {
    if x < 1 { 1 } else { x }
}

/// A side of at least 1 is kept as given; only a zero side becomes 1.
pub proof fn lemma_at_least_one(x: u32)
    ensures
        x >= 1 ==> at_least_one(x) == x,
        x == 0 ==> at_least_one(x) == 1,
        at_least_one(x) >= 1,
        at_least_one(x) >= x,
{
}

/// The state after one event.
pub open spec fn apply_event(v: SurfaceView, e: SurfaceEvent) -> SurfaceView {
    match e {
        SurfaceEvent::Resize { width, height } => SurfaceView {
            width: at_least_one(width),
            height: at_least_one(height),
            ..v
        },
        SurfaceEvent::Visibility(visible) => SurfaceView { visible, ..v },
        SurfaceEvent::Frame => v,
    }
}

/// The state after a sequence of events, applied first to last.
pub open spec fn apply_events(v: SurfaceView, events: Seq<SurfaceEvent>) -> SurfaceView
    decreases events.len(),
{
    if events.len() == 0 {
        v
    } else {
        apply_event(apply_events(v, events.drop_last()), events.last())
    }
}

/// The visibility set by the last `Visibility` event of `events`, or `initial` when
/// there is none.
pub open spec fn last_visibility(events: Seq<SurfaceEvent>, initial: bool) -> bool
    decreases events.len(),
{
    if events.len() == 0 {
        initial
    } else {
        match events.last() {
            SurfaceEvent::Visibility(visible) => visible,
            _ => last_visibility(events.drop_last(), initial),
        }
    }
}

/// The plan for a surface of the given size and star count.
pub open spec fn spec_frame_plan(width: u32, height: u32, star_count: u32) -> FramePlan {
    if width == 0 || height == 0 {
        FramePlan::Skip
    } else if star_count > 0 {
        FramePlan::DrawStars { vertices: QUAD_VERTICES, instances: star_count }
    } else {
        FramePlan::ClearOnly
    }
}

impl View for SurfaceState {
    type V = SurfaceView;

    closed spec fn view(&self) -> SurfaceView {
        SurfaceView {
            width: self.width,
            height: self.height,
            visible: self.visible,
            star_count: self.star_count,
        }
    }
}

impl SurfaceState {
    #[verifier::type_invariant]
    spec fn size_nonzero(self) -> bool {
        self.width >= 1 && self.height >= 1
    }

    /// A new surface of the window's size (each side at least 1), visible, with
    /// `star_count` stars.
    pub fn new(window_width: i32, window_height: i32, star_count: u32) -> (s: SurfaceState)
        ensures
            s@.width == (if window_width < 1 { 1 } else { window_width as int }),
            s@.height == (if window_height < 1 { 1 } else { window_height as int }),
            s@.visible,
            s@.star_count == star_count,
    {
        SurfaceState {
            width: window_dimension(window_width),
            height: window_dimension(window_height),
            visible: true,
            star_count,
        }
    }

    /// Takes the new size of the surface (each side at least 1); visibility and stars
    /// are unchanged. The surface is then reconfigured and rendered.
    pub fn resize(&mut self, width: u32, height: u32)
        ensures
            final(self)@ == apply_event(old(self)@, SurfaceEvent::Resize { width, height }),
            final(self)@.width == at_least_one(width),
            final(self)@.height == at_least_one(height),
            final(self)@.width == (if width < 1 { 1 } else { width }),
            final(self)@.height == (if height < 1 { 1 } else { height }),
            final(self)@.visible == old(self)@.visible,
            final(self)@.star_count == old(self)@.star_count,
    {
        proof {
            use_type_invariant(&*self);
        }
        self.width = if width < 1 { 1 } else { width };
        self.height = if height < 1 { 1 } else { height };
    }

    /// Whether a frame tick renders: only while the surface is visible.
    pub fn on_frame(&self) -> (render: bool)
        ensures
            render == self@.visible,
    {
        self.visible
    }

    /// Records the new visibility; returns whether to render now (when it became visible).
    pub fn set_visible(&mut self, visible: bool) -> (render: bool)
        ensures
            final(self)@ == apply_event(old(self)@, SurfaceEvent::Visibility(visible)),
            final(self)@.visible == visible,
            final(self)@.width == old(self)@.width,
            final(self)@.height == old(self)@.height,
            final(self)@.star_count == old(self)@.star_count,
            render == visible,
    {
        proof {
            use_type_invariant(&*self);
        }
        self.visible = visible;
        visible
    }

    /// What rendering the current state does. The size is never zero, so a render
    /// always writes the globals and clears the frame, and draws the stars exactly
    /// when there are some.
    pub fn frame_plan(&self) -> (p: FramePlan)
        ensures
            p == spec_frame_plan(self@.width, self@.height, self@.star_count),
            p != FramePlan::Skip,
            p == (if self@.star_count > 0 {
                FramePlan::DrawStars { vertices: QUAD_VERTICES, instances: self@.star_count }
            } else {
                FramePlan::ClearOnly
            }),
    {
        proof {
            use_type_invariant(self);
        }
        if self.width == 0 || self.height == 0 {
            FramePlan::Skip
        } else if self.star_count > 0 {
            FramePlan::DrawStars { vertices: QUAD_VERTICES, instances: self.star_count }
        } else {
            FramePlan::ClearOnly
        }
    }

    pub fn width(&self) -> (r: u32)
        ensures
            r == self@.width,
            r >= 1,
    {
        proof {
            use_type_invariant(self);
        }
        self.width
    }

    pub fn height(&self) -> (r: u32)
        ensures
            r == self@.height,
            r >= 1,
    {
        proof {
            use_type_invariant(self);
        }
        self.height
    }

    pub fn visible(&self) -> (r: bool)
        ensures
            r == self@.visible,
    {
        self.visible
    }

    pub fn star_count(&self) -> (r: u32)
        ensures
            r == self@.star_count,
    {
        self.star_count
    }
}

/// Over any sequence of resizes, visibility changes and frame ticks, the surface is
/// visible (so a frame tick renders) exactly when the last visibility change showed
/// it, or, when there was none, when it was visible at the start (a new surface is);
/// the star count never changes, and a nonzero size stays nonzero.
pub proof fn lemma_events_visibility(v: SurfaceView, events: Seq<SurfaceEvent>)
    ensures
        apply_events(v, events).visible == last_visibility(events, v.visible),
        apply_events(v, events).star_count == v.star_count,
        v.width >= 1 && v.height >= 1 ==> apply_events(v, events).width >= 1 && apply_events(
            v,
            events,
        ).height >= 1,
    decreases events.len(),
{
    if events.len() > 0 {
        lemma_events_visibility(v, events.drop_last());
    }
}

} // verus!
