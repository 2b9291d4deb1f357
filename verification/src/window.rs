//! The state of the window and the driver of its frames.
//!
//! Each call decides what is to be done and changes the state; the caller
//! carries out the actions that the answer names: it makes or releases the
//! presentation target, hands the scene to the rasteriser, presents, and
//! asks the platform for the next frame.

use crate::frame::{frame_commands, render_anim_frame, FramePhase};
use crate::glyph::{FragmentView, GlyphCache};
use crate::resolve::{flatten, fragments_resolve, resolved};
use crate::scene::{Command, FragmentKey, Scene};
use crate::surface::{
    after_connect, after_resize, connect_result, destroy_result, resize_result, valid_dimensions,
    SurfaceAction, SurfaceError, SurfaceManager, SurfaceState,
};
use crate::text::{text_cache, Layout};
use vstd::prelude::*;

verus! {

/// How the platform is asked for the next frame.
#[derive(Clone, Copy, Debug, PartialEq, Eq, Structural)]
pub enum FrameScheduler {
    /// By a wake-up when the event loop is idle.
    IdleCallback,
    /// By marking the window as in need of a repaint.
    InvalidateRequest,
}

/// The request that goes to the platform.
#[derive(Clone, Copy, Debug, PartialEq, Eq, Structural)]
pub enum ScheduleRequest {
    Idle { token: usize },
    Invalidate,
}

impl FrameScheduler {
    /// The request of this strategy.
    pub open spec fn request_spec(self) -> ScheduleRequest {
        match self {
            FrameScheduler::IdleCallback => ScheduleRequest::Idle { token: 0 },
            FrameScheduler::InvalidateRequest => ScheduleRequest::Invalidate,
        }
    }

    /// Asks for the next frame.
    #[verifier::when_used_as_spec(request_spec)]
    pub fn request_next_frame(self) -> (r: ScheduleRequest)
        ensures
            r == self.request_spec(),
    {
        match self {
            FrameScheduler::IdleCallback => ScheduleRequest::Idle { token: 0 },
            FrameScheduler::InvalidateRequest => ScheduleRequest::Invalidate,
        }
    }
}

/// What is to be done for one frame, in this order: carry out `surface`;
/// hand the scene to the rasteriser with `width` and `height`; present;
/// send `next`.
#[derive(Clone, Copy, Debug, PartialEq, Eq, Structural)]
pub struct FramePlan {
    pub surface: SurfaceAction,
    pub width: u32,
    pub height: u32,
    pub frame_index: u64,
    pub next: ScheduleRequest,
}

/// The number of the frame after frame `i`.
pub open spec fn next_frame_index(i: u64) -> u64 {
    if i == u64::MAX {
        0
    } else {
        (i + 1) as u64
    }
}

/// The state of one window: its surface, the size of its content, the
/// scene of the last frame, the glyph fragments made so far, and the
/// number of the next frame.
pub struct WindowState {
    surface: SurfaceManager,
    scene: Scene,
    cache: GlyphCache,
    size: (u32, u32),
    counter: u64,
    scheduler: FrameScheduler,
}

impl WindowState {
    /// The state of the surface.
    pub closed spec fn surface(&self) -> SurfaceState {
        self.surface@
    }

    /// The commands of the scene of the last frame.
    pub closed spec fn scene_commands(&self) -> Seq<Command> {
        self.scene@
    }

    /// The glyph fragments made so far.
    pub closed spec fn fragments(&self) -> Map<FragmentKey, FragmentView> {
        self.cache@
    }

    /// The size of the content of the window, as last recorded.
    pub closed spec fn size(&self) -> (u32, u32) {
        self.size
    }

    /// The number of the next frame.
    pub closed spec fn counter(&self) -> u64 {
        self.counter
    }

    /// The strategy by which the next frame is asked for.
    pub closed spec fn scheduler(&self) -> FrameScheduler {
        self.scheduler
    }

    /// The recorded size is one that a surface can have, and a surface
    /// that exists has that size; the scene is balanced, the cache is in
    /// order, and it holds every fragment of the scene.
    pub closed spec fn wf(&self) -> bool {
        &&& valid_dimensions(self.size.0 as int, self.size.1 as int)
        &&& self.surface@ matches SurfaceState::Created { width, height } ==> self.size == (
            width,
            height,
        )
        &&& self.scene.wf()
        &&& self.cache.wf()
        &&& fragments_resolve(self.scene@, self.cache@)
    }

    /// A window that is not connected yet: no surface, a content of 800
    /// by 600, an empty scene, frame 0, and frames asked for by
    /// invalidating.
    pub fn new() -> (w: WindowState)
        ensures
            w.wf(),
            w.surface() == SurfaceState::Uninitialized,
            w.size() == (800u32, 600u32),
            w.counter() == 0,
            w.scene_commands() == Seq::<Command>::empty(),
            w.fragments() == Map::<FragmentKey, FragmentView>::empty(),
            w.scheduler() == FrameScheduler::InvalidateRequest,
    {
        WindowState {
            surface: SurfaceManager::new(),
            scene: Scene::new(),
            cache: GlyphCache::new(),
            size: (800, 600),
            counter: 0,
            scheduler: FrameScheduler::InvalidateRequest,
        }
    }

    /// The same window with another strategy for the next frame.
    pub fn with_scheduler(self, scheduler: FrameScheduler) -> (w: WindowState)
        requires
            self.wf(),
        ensures
            w.wf(),
            w.scheduler() == scheduler,
            w.surface() == self.surface(),
            w.size() == self.size(),
            w.counter() == self.counter(),
            w.scene_commands() == self.scene_commands(),
            w.fragments() == self.fragments(),
    {
        WindowState {
            surface: self.surface,
            scene: self.scene,
            cache: self.cache,
            size: self.size,
            counter: self.counter,
            scheduler,
        }
    }

    /// The state of the surface.
    pub fn surface_state(&self) -> (s: SurfaceState)
        ensures
            s == self.surface(),
    {
        self.surface.state()
    }

    /// The number of the next frame.
    pub fn frame_counter(&self) -> (i: u64)
        ensures
            i == self.counter(),
    {
        self.counter
    }

    /// The size of the content of the window, as last recorded.
    pub fn content_size(&self) -> (s: (u32, u32))
        ensures
            s == self.size(),
    {
        self.size
    }

    /// The scene of the last frame.
    pub fn scene(&self) -> (s: &Scene)
        ensures
            s@ == self.scene_commands(),
            self.wf() ==> s.wf(),
    {
        &self.scene
    }

    /// The cache of glyph fragments.
    pub fn cache(&self) -> (c: &GlyphCache)
        ensures
            c@ == self.fragments(),
            self.wf() ==> c.wf(),
    {
        &self.cache
    }

    /// The scene of the last frame as the rasteriser takes it: with every
    /// glyph fragment written out as the fill of its outline.
    pub fn flat_scene(&self) -> (s: Scene)
        requires
            self.wf(),
        ensures
            s.wf(),
            s@ == resolved(self.scene_commands(), self.fragments()),
    {
        match flatten(&self.scene, &self.cache) {
            Some(s) => s,
            None => {
                proof {
                    assert(false);
                }
                Scene::new()
            },
        }
    }

    /// Asks for the next frame, by the strategy of this window.
    pub fn schedule_render(&self) -> (r: ScheduleRequest)
        ensures
            r == self.scheduler().request_spec(),
    {
        self.scheduler.request_next_frame()
    }

    /// The window is connected, and its content has the given size. Where
    /// the surface manager accepts, the answer names what to do to the
    /// presentation target and asks for the first frame.
    pub fn connect(&mut self, width: i64, height: i64) -> (r: Result<
        (SurfaceAction, ScheduleRequest),
        SurfaceError,
    >)
        requires
            old(self).wf(),
        ensures
            final(self).wf(),
            match connect_result(old(self).surface(), width as int, height as int) {
                Ok(action) => r == Ok::<(SurfaceAction, ScheduleRequest), SurfaceError>(
                    (action, old(self).scheduler().request_spec()),
                ),
                Err(e) => r == Err::<(SurfaceAction, ScheduleRequest), SurfaceError>(e),
            },
            final(self).surface() == after_connect(old(self).surface(), width as int, height as int),
            final(self).size() == match final(self).surface() {
                SurfaceState::Created { width, height } => (width, height),
                _ => old(self).size(),
            },
            final(self).counter() == old(self).counter(),
            final(self).scheduler() == old(self).scheduler(),
            final(self).scene_commands() == old(self).scene_commands(),
            final(self).fragments() == old(self).fragments(),
    {
        match self.surface.on_connect(width, height) {
            Ok(action) => {
                match action {
                    SurfaceAction::Create { width, height } => {
                        self.size = (width, height);
                    },
                    _ => {},
                }
                Ok((action, self.scheduler.request_next_frame()))
            },
            Err(e) => Err(e),
        }
    }

    /// The content of the window has a new size. Where the surface
    /// manager accepts, the size is recorded and the surface has it
    /// before the next frame is rendered.
    pub fn resize(&mut self, width: i64, height: i64) -> (r: Result<SurfaceAction, SurfaceError>)
        requires
            old(self).wf(),
        ensures
            final(self).wf(),
            r == resize_result(old(self).surface(), width as int, height as int),
            final(self).surface() == after_resize(old(self).surface(), width as int, height as int),
            final(self).size() == if r is Ok {
                (width as u32, height as u32)
            } else {
                old(self).size()
            },
            final(self).counter() == old(self).counter(),
            final(self).scheduler() == old(self).scheduler(),
            final(self).scene_commands() == old(self).scene_commands(),
            final(self).fragments() == old(self).fragments(),
    {
        match self.surface.on_resize(width, height) {
            Ok(action) => {
                self.size = (width as u32, height as u32);
                Ok(action)
            },
            Err(e) => Err(e),
        }
    }

    /// Renders one frame. A window whose surface was destroyed refuses,
    /// and nothing changes. Otherwise the surface is made if there is
    /// none, at the recorded size; the scene becomes the frame of `layout`
    /// and `phase`; the counter moves on by one; and the plan says what is
    /// left to do, ending with the request for the next frame.
    pub fn render(&mut self, layout: &Layout, phase: FramePhase) -> (r: Result<
        FramePlan,
        SurfaceError,
    >)
        requires
            old(self).wf(),
        ensures
            final(self).wf(),
            final(self).scheduler() == old(self).scheduler(),
            final(self).size() == old(self).size(),
            old(self).surface() is Destroyed ==> {
                &&& r == Err::<FramePlan, SurfaceError>(SurfaceError::SurfaceClosed)
                &&& final(self).surface() == old(self).surface()
                &&& final(self).counter() == old(self).counter()
                &&& final(self).scene_commands() == old(self).scene_commands()
                &&& final(self).fragments() == old(self).fragments()
            },
            !(old(self).surface() is Destroyed) ==> {
                &&& r == Ok::<FramePlan, SurfaceError>(
                    FramePlan {
                        surface: if old(self).surface() is Created {
                            SurfaceAction::Keep
                        } else {
                            SurfaceAction::Create {
                                width: old(self).size().0,
                                height: old(self).size().1,
                            }
                        },
                        width: old(self).size().0,
                        height: old(self).size().1,
                        frame_index: old(self).counter(),
                        next: old(self).scheduler().request_spec(),
                    },
                )
                &&& final(self).surface() == (SurfaceState::Created {
                    width: old(self).size().0,
                    height: old(self).size().1,
                })
                &&& final(self).counter() == next_frame_index(old(self).counter())
                &&& final(self).scene_commands() == frame_commands(layout@, phase)
                &&& final(self).fragments() == text_cache(old(self).fragments(), layout@)
                &&& old(self).fragments().submap_of(final(self).fragments())
                &&& fragments_resolve(final(self).scene_commands(), final(self).fragments())
            },
    {
        let (width, height) = self.size;
        let action = match self.surface.on_connect(width as i64, height as i64) {
            Ok(action) => action,
            Err(e) => {
                return Err(e);
            },
        };
        render_anim_frame(&mut self.scene, &mut self.cache, layout, phase);
        let frame_index: u64 = self.counter;
        self.counter = if frame_index == u64::MAX {
            0
        } else {
            frame_index + 1
        };
        Ok(FramePlan { surface: action, width, height, frame_index, next: self.scheduler.request_next_frame() })
    }

    /// The window goes away: the surface is released, and the window
    /// renders no more.
    pub fn destroy(&mut self) -> (r: Result<SurfaceAction, SurfaceError>)
        requires
            old(self).wf(),
        ensures
            final(self).wf(),
            r == destroy_result(old(self).surface()),
            final(self).surface() == SurfaceState::Destroyed,
            final(self).size() == old(self).size(),
            final(self).counter() == old(self).counter(),
            final(self).scheduler() == old(self).scheduler(),
            final(self).scene_commands() == old(self).scene_commands(),
            final(self).fragments() == old(self).fragments(),
    {
        self.surface.on_destroy()
    }
}

} // verus!
