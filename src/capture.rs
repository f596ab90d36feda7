//! The region-capture controller: a state machine over a transient capture
//! surface. It decides; the caller opens and closes surfaces, grabs the
//! screen and uploads what the controller hands back.
use vstd::prelude::*;
use crate::rect::{Num, Point, Rect, rect_from};
use crate::store::{encode_png, png_of};

verus! {

/// Where a physical display lies, in screen pixels.
#[derive(Debug, Clone, Copy, PartialEq, Eq)]
pub struct DisplayBounds {
    pub x: i32,
    pub y: i32,
    pub width: u32,
    pub height: u32,
}

impl DisplayBounds {
    pub open spec fn spec_contains(&self, p: Point<i32>) -> bool {
        &&& self.x <= p.x < self.x + self.width
        &&& self.y <= p.y < self.y + self.height
    }

    pub fn contains(&self, p: Point<i32>) -> (r: bool)
        ensures
            r == self.spec_contains(p),
    {
        let px = p.x as i64;
        let py = p.y as i64;
        self.x as i64 <= px && px < self.x as i64 + self.width as i64 && self.y as i64 <= py && py
            < self.y as i64 + self.height as i64
    }
}

/// The first display that contains the point.
pub fn display_at(displays: &Vec<DisplayBounds>, p: Point<i32>) -> (r: Option<usize>)
    ensures
        r matches Some(i) ==> i < displays.len() && displays@[i as int].spec_contains(p) && forall|
            j: int,
        | 0 <= j < i ==> !(#[trigger] displays@[j]).spec_contains(p),
        r is None ==> forall|j: int|
            0 <= j < displays.len() ==> !(#[trigger] displays@[j]).spec_contains(p),
{
    let mut i: usize = 0;
    while i < displays.len()
        invariant
            i <= displays.len(),
            forall|j: int| 0 <= j < i ==> !(#[trigger] displays@[j]).spec_contains(p),
        decreases displays.len() - i,
    {
        if displays[i].contains(p) {
            return Some(i);
        }
        i = i + 1;
    }
    None
}

#[derive(Debug, Clone, Copy, PartialEq, Eq)]
pub enum ScreenshotState {
    /// No capture surface is open.
    Idle,
    /// A capture surface is open and waits for the first contact.
    Started { surface: u64 },
    /// The user pressed at `origin`, on display `display`.
    InProgress { surface: u64, origin: Point<i32>, display: usize },
}

#[derive(Debug, Clone, Copy, PartialEq, Eq)]
pub enum CaptureError {
    /// A capture is already under way.
    NotIdle,
    /// No capture surface is open.
    NotStarted,
    /// No press has been recorded.
    NotInProgress,
    /// The event came from another surface than the open one.
    WrongSurface,
    /// No known display contains the point.
    NoDisplay,
    /// The raster does not hold four bytes for each pixel of the region.
    RasterSize,
    /// The image encoder refused the raster.
    Encoding,
}

/// What a finished gesture asks for: close the surface, then grab the
/// rectangle from the display and upload it.
#[derive(Debug, Clone, Copy)]
pub struct CaptureJob {
    pub surface: u64,
    pub display: usize,
    pub rect: Rect<i32>,
}

pub struct ScreenshotManager {
    inner: ScreenshotState,
    next_surface: u64,
}

impl ScreenshotManager {
    pub closed spec fn state(&self) -> ScreenshotState {
        self.inner
    }

    pub closed spec fn spec_next_surface(&self) -> u64 {
        self.next_surface
    }

    pub fn new() -> (r: Self)
        ensures
            r.state() == ScreenshotState::Idle,
    {
        ScreenshotManager { inner: ScreenshotState::Idle, next_surface: 0 }
    }

    pub fn current(&self) -> (r: ScreenshotState)
        ensures
            r == self.state(),
    {
        self.inner
    }

    /// Opens a capture surface: returns the identity of the surface to
    /// show. No screen access happens yet.
    pub fn start(&mut self) -> (r: Result<u64, CaptureError>)
        ensures
            old(self).state() is Idle ==> r == Ok::<u64, CaptureError>(old(self).spec_next_surface())
                && final(self).state() == (ScreenshotState::Started {
                surface: old(self).spec_next_surface(),
            }) && final(self).spec_next_surface() == (if old(self).spec_next_surface() == u64::MAX {
                0
            } else {
                (old(self).spec_next_surface() + 1) as u64
            }),
            !(old(self).state() is Idle) ==> r == Err::<u64, CaptureError>(CaptureError::NotIdle)
                && final(self).state() == old(self).state(),
    {
        match self.inner {
            ScreenshotState::Idle => {
                let surface = self.next_surface;
                self.next_surface = self.next_surface.wrapping_add(1);
                self.inner = ScreenshotState::Started { surface };
                Ok(surface)
            },
            _ => Err(CaptureError::NotIdle),
        }
    }

    /// Records the first contact on the open surface and the display that
    /// contains it.
    pub fn begin(&mut self, surface: u64, point: Point<i32>, displays: &Vec<DisplayBounds>) -> (r:
        Result<(), CaptureError>)
        ensures
            !(old(self).state() is Started) ==> r == Err::<(), CaptureError>(CaptureError::NotStarted)
                && final(self).state() == old(self).state(),
            old(self).state() matches ScreenshotState::Started { surface: s } ==> ({
                &&& s != surface ==> r == Err::<(), CaptureError>(CaptureError::WrongSurface)
                    && final(self).state() == old(self).state()
                &&& s == surface && (forall|j: int|
                    0 <= j < displays.len() ==> !(#[trigger] displays@[j]).spec_contains(point))
                    ==> r == Err::<(), CaptureError>(CaptureError::NoDisplay) && final(self).state()
                    == old(self).state()
                &&& r is Ok ==> s == surface
                &&& r is Ok ==> (final(self).state() matches ScreenshotState::InProgress {
                    surface: s2,
                    origin,
                    display,
                } && s2 == s && origin == point && display < displays.len()
                    && displays@[display as int].spec_contains(point))
                &&& s == surface && (exists|j: int|
                    0 <= j < displays.len() && (#[trigger] displays@[j]).spec_contains(point))
                    ==> r is Ok
            }),
            final(self).spec_next_surface() == old(self).spec_next_surface(),
    {
        match self.inner {
            ScreenshotState::Started { surface: s } => {
                if s != surface {
                    return Err(CaptureError::WrongSurface);
                }
                match display_at(displays, point) {
                    Some(display) => {
                        self.inner = ScreenshotState::InProgress { surface: s, origin: point, display };
                        Ok(())
                    },
                    None => Err(CaptureError::NoDisplay),
                }
            },
            _ => Err(CaptureError::NotStarted),
        }
    }

    /// Ends the gesture at `point`: back to idle, handing back the surface
    /// to close and the normalized rectangle to grab from the recorded
    /// display.
    pub fn finish(&mut self, surface: u64, point: Point<i32>) -> (r: Result<CaptureJob, CaptureError>)
        ensures
            !(old(self).state() is InProgress) ==> r == Err::<CaptureJob, CaptureError>(
                CaptureError::NotInProgress,
            ) && final(self).state() == old(self).state(),
            old(self).state() matches ScreenshotState::InProgress { surface: s, origin, display }
                ==> ({
                &&& s != surface ==> r == Err::<CaptureJob, CaptureError>(CaptureError::WrongSurface)
                    && final(self).state() == old(self).state()
                &&& s == surface ==> (r matches Ok(job) && job.surface == s && job.display == display
                    && job.rect == rect_from(origin, point) && job.rect.wf() && final(self).state()
                    == ScreenshotState::Idle)
            }),
            final(self).spec_next_surface() == old(self).spec_next_surface(),
    {
        match self.inner {
            ScreenshotState::InProgress { surface: s, origin, display } => {
                if s != surface {
                    return Err(CaptureError::WrongSurface);
                }
                let rect = origin.to_rect(point);
                self.inner = ScreenshotState::Idle;
                Ok(CaptureJob { surface: s, display, rect })
            },
            _ => Err(CaptureError::NotInProgress),
        }
    }

    /// Abandons the gesture: back to idle, handing back the surface to
    /// close if one is open. Nothing is captured or uploaded.
    pub fn cancel(&mut self) -> (r: Option<u64>)
        ensures
            final(self).state() == ScreenshotState::Idle,
            final(self).spec_next_surface() == old(self).spec_next_surface(),
            old(self).state() is Idle ==> r is None,
            old(self).state() matches ScreenshotState::Started { surface } ==> r == Some(surface),
            old(self).state() matches ScreenshotState::InProgress { surface, .. } ==> r == Some(
                surface,
            ),
    {
        let open = match self.inner {
            ScreenshotState::Idle => None,
            ScreenshotState::Started { surface } => Some(surface),
            ScreenshotState::InProgress { surface, .. } => Some(surface),
        };
        self.inner = ScreenshotState::Idle;
        open
    }
}

impl Default for ScreenshotManager {
    fn default() -> (r: Self)
        ensures
            r.state() == ScreenshotState::Idle,
    {
        ScreenshotManager::new()
    }
}

impl CaptureJob {
    /// Encodes the RGBA raster grabbed for the job's rectangle as a PNG
    /// file, the bytes to upload.
    pub fn encode(&self, rgba: Vec<u8>) -> (r: Result<Vec<u8>, CaptureError>)
        requires
            self.rect.wf(),
        ensures
            ({
                let w = self.rect.spec_width();
                let h = self.rect.spec_height();
                &&& rgba@.len() != w * h * 4 ==> r == Err::<Vec<u8>, CaptureError>(
                    CaptureError::RasterSize,
                )
                &&& rgba@.len() == w * h * 4 ==> match png_of(w as u32, h as u32, rgba@) {
                    Some(b) => r matches Ok(v) && v@ == b,
                    None => r == Err::<Vec<u8>, CaptureError>(CaptureError::Encoding),
                }
            }),
    {
        let w = self.rect.width();
        let h = self.rect.height();
        assert(w <= u32::MAX && h <= u32::MAX) by {
            assert(self.rect.spec_top_left().x.val() >= i32::MIN);
        }
        assert((w as u128) * (h as u128) <= 0xffff_ffff_ffff_ffffu128) by (nonlinear_arith)
            requires
                w <= u32::MAX,
                h <= u32::MAX,
        ;
        let area: u128 = (w as u128) * (h as u128);
        let needed: u128 = area * 4;
        if rgba.len() as u128 != needed {
            return Err(CaptureError::RasterSize);
        }
        match encode_png(w as u32, h as u32, rgba) {
            Some(png) => Ok(png),
            None => Err(CaptureError::Encoding),
        }
    }
}

} // verus!
