//! The lifecycle of the surface that frames are presented on.
//!
//! The manager decides; whoever owns the window and the graphics device
//! carries out the action that each decision names.

use vstd::prelude::*;

verus! {

/// Where a surface stands in its life.
#[derive(Clone, Copy, Debug, PartialEq, Eq, Structural)]
pub enum SurfaceState {
    Uninitialized,
    Created { width: u32, height: u32 },
    Destroyed,
}

/// Why the manager refused.
#[derive(Clone, Copy, Debug, PartialEq, Eq, Structural)]
pub enum SurfaceError {
    /// The surface was destroyed; nothing more can be done with it.
    SurfaceClosed,
    /// A width or a height that is not positive, or larger than a surface
    /// can be.
    InvalidDimensions,
}

/// What is to be done to the presentation target after a decision.
#[derive(Clone, Copy, Debug, PartialEq, Eq, Structural)]
pub enum SurfaceAction {
    /// Nothing.
    Keep,
    /// Make a target of this size.
    Create { width: u32, height: u32 },
    /// Release the target and make a new one of this size.
    Recreate { width: u32, height: u32 },
    /// Release the target.
    Release,
}

/// The frame that the platform puts around the content of a window.
#[derive(Clone, Copy, Debug, PartialEq, Eq, Structural)]
pub struct Insets {
    pub left: u32,
    pub right: u32,
    pub top: u32,
    pub bottom: u32,
}

/// A width and a height that a surface can have.
pub open spec fn valid_dimensions(width: int, height: int) -> bool {
    0 < width <= u32::MAX && 0 < height <= u32::MAX
}

/// The size of the content of a window: its size less the insets.
pub open spec fn content_size_spec(width: u32, height: u32, insets: Insets) -> (int, int) {
    (width - insets.left - insets.right, height - insets.top - insets.bottom)
}

/// The size of the content of a window. It is not positive where the
/// insets take up the whole window.
pub fn content_size(width: u32, height: u32, insets: Insets) -> (r: (i64, i64))
    ensures
        r.0 == content_size_spec(width, height, insets).0,
        r.1 == content_size_spec(width, height, insets).1,
{
    (
        (width as i64) - (insets.left as i64) - (insets.right as i64),
        (height as i64) - (insets.top as i64) - (insets.bottom as i64),
    )
}

/// What `on_connect` answers in state `s`.
pub open spec fn connect_result(s: SurfaceState, width: int, height: int) -> Result<
    SurfaceAction,
    SurfaceError,
> {
    match s {
        SurfaceState::Destroyed => Err(SurfaceError::SurfaceClosed),
        SurfaceState::Created { .. } => Ok(SurfaceAction::Keep),
        SurfaceState::Uninitialized => if valid_dimensions(width, height) {
            Ok(SurfaceAction::Create { width: width as u32, height: height as u32 })
        } else {
            Err(SurfaceError::InvalidDimensions)
        },
    }
}

/// The state after `on_connect` in state `s`.
pub open spec fn after_connect(s: SurfaceState, width: int, height: int) -> SurfaceState {
    if s is Uninitialized && valid_dimensions(width, height) {
        SurfaceState::Created { width: width as u32, height: height as u32 }
    } else {
        s
    }
}

/// What `on_resize` answers in state `s`.
pub open spec fn resize_result(s: SurfaceState, width: int, height: int) -> Result<
    SurfaceAction,
    SurfaceError,
> {
    match s {
        SurfaceState::Destroyed => Err(SurfaceError::SurfaceClosed),
        _ => if !valid_dimensions(width, height) {
            Err(SurfaceError::InvalidDimensions)
        } else if s is Created {
            Ok(SurfaceAction::Recreate { width: width as u32, height: height as u32 })
        } else {
            Ok(SurfaceAction::Create { width: width as u32, height: height as u32 })
        },
    }
}

/// The state after `on_resize` in state `s`.
pub open spec fn after_resize(s: SurfaceState, width: int, height: int) -> SurfaceState {
    if !(s is Destroyed) && valid_dimensions(width, height) {
        SurfaceState::Created { width: width as u32, height: height as u32 }
    } else {
        s
    }
}

/// What `on_destroy` answers in state `s`.
pub open spec fn destroy_result(s: SurfaceState) -> Result<SurfaceAction, SurfaceError> {
    match s {
        SurfaceState::Destroyed => Err(SurfaceError::SurfaceClosed),
        SurfaceState::Created { .. } => Ok(SurfaceAction::Release),
        SurfaceState::Uninitialized => Ok(SurfaceAction::Keep),
    }
}

/// A state in which a surface that exists has a size that it can have.
pub open spec fn sound_state(s: SurfaceState) -> bool {
    s matches SurfaceState::Created { width, height } ==> valid_dimensions(
        width as int,
        height as int,
    )
}

/// Tells whether a width and a height are such that a surface can have
/// them.
pub fn check_dimensions(width: i64, height: i64) -> (ok: bool)
    ensures
        ok == valid_dimensions(width as int, height as int),
{
    0 < width && width <= 0xffff_ffff && 0 < height && height <= 0xffff_ffff
}

/// Owns the state of the surface of one window.
#[derive(Clone, Copy, Debug, PartialEq, Eq)]
pub struct SurfaceManager {
    state: SurfaceState,
}

impl View for SurfaceManager {
    type V = SurfaceState;

    closed spec fn view(&self) -> SurfaceState {
        self.state
    }
}

impl SurfaceManager {
    /// A manager without a surface.
    pub fn new() -> (m: SurfaceManager)
        ensures
            m@ == SurfaceState::Uninitialized,
    {
        SurfaceManager { state: SurfaceState::Uninitialized }
    }

    /// The state of the surface.
    pub fn state(&self) -> (s: SurfaceState)
        ensures
            s == self@,
    {
        self.state
    }

    /// The window is there, and its content has the given size. A manager
    /// without a surface makes one of that size; one that has a surface
    /// keeps it.
    pub fn on_connect(&mut self, width: i64, height: i64) -> (r: Result<
        SurfaceAction,
        SurfaceError,
    >)
        ensures
            r == connect_result(old(self)@, width as int, height as int),
            final(self)@ == after_connect(old(self)@, width as int, height as int),
    {
        match self.state {
            SurfaceState::Destroyed => Err(SurfaceError::SurfaceClosed),
            SurfaceState::Created { .. } => Ok(SurfaceAction::Keep),
            SurfaceState::Uninitialized => {
                if !check_dimensions(width, height) {
                    return Err(SurfaceError::InvalidDimensions);
                }
                let w: u32 = width as u32;
                let h: u32 = height as u32;
                self.state = SurfaceState::Created { width: w, height: h };
                Ok(SurfaceAction::Create { width: w, height: h })
            },
        }
    }

    /// The content of the window has a new size. The surface is released
    /// and made anew at that size, never resized in place; a size that no
    /// surface can have is refused before anything is released.
    pub fn on_resize(&mut self, width: i64, height: i64) -> (r: Result<
        SurfaceAction,
        SurfaceError,
    >)
        ensures
            r == resize_result(old(self)@, width as int, height as int),
            final(self)@ == after_resize(old(self)@, width as int, height as int),
    {
        match self.state {
            SurfaceState::Destroyed => Err(SurfaceError::SurfaceClosed),
            SurfaceState::Created { .. } => {
                if !check_dimensions(width, height) {
                    return Err(SurfaceError::InvalidDimensions);
                }
                let w: u32 = width as u32;
                let h: u32 = height as u32;
                self.state = SurfaceState::Created { width: w, height: h };
                Ok(SurfaceAction::Recreate { width: w, height: h })
            },
            SurfaceState::Uninitialized => {
                if !check_dimensions(width, height) {
                    return Err(SurfaceError::InvalidDimensions);
                }
                let w: u32 = width as u32;
                let h: u32 = height as u32;
                self.state = SurfaceState::Created { width: w, height: h };
                Ok(SurfaceAction::Create { width: w, height: h })
            },
        }
    }

    /// The window goes away. The surface is released, and every later
    /// call is refused.
    pub fn on_destroy(&mut self) -> (r: Result<SurfaceAction, SurfaceError>)
        ensures
            r == destroy_result(old(self)@),
            final(self)@ == SurfaceState::Destroyed,
    {
        let r = match self.state {
            SurfaceState::Destroyed => Err(SurfaceError::SurfaceClosed),
            SurfaceState::Created { .. } => Ok(SurfaceAction::Release),
            SurfaceState::Uninitialized => Ok(SurfaceAction::Keep),
        };
        self.state = SurfaceState::Destroyed;
        r
    }
}

/// Resizing twice to one size is resizing once: after either the surface
/// exists and has that size.
pub proof fn lemma_resize_idempotent(s: SurfaceState, width: int, height: int)
    requires
        s is Created,
        valid_dimensions(width, height),
    ensures
        after_resize(s, width, height) == (SurfaceState::Created {
            width: width as u32,
            height: height as u32,
        }),
        after_resize(after_resize(s, width, height), width, height) == after_resize(
            s,
            width,
            height,
        ),
        resize_result(after_resize(s, width, height), width, height) is Ok,
{
}

/// After a resize that is accepted, the recorded size is the size that
/// was given, in whatever state the manager was.
pub proof fn lemma_resize_records_size(s: SurfaceState, width: int, height: int)
    ensures
        resize_result(s, width, height) is Ok ==> after_resize(s, width, height) == (
        SurfaceState::Created { width: width as u32, height: height as u32 }),
        resize_result(s, width, height) is Err ==> after_resize(s, width, height) == s,
        resize_result(s, width, height) is Ok <==> !(s is Destroyed) && valid_dimensions(
            width,
            height,
        ),
{
}

/// Nothing leads out of the destroyed state, and no step makes a surface
/// of a size that it cannot have.
pub proof fn lemma_lifecycle(s: SurfaceState, width: int, height: int)
    ensures
        s is Destroyed ==> after_connect(s, width, height) is Destroyed && after_resize(
            s,
            width,
            height,
        ) is Destroyed,
        sound_state(s) ==> sound_state(after_connect(s, width, height)) && sound_state(
            after_resize(s, width, height),
        ),
{
}

} // verus!
