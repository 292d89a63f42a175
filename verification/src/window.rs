use vstd::prelude::*;

verus! {

/// The window configuration a host opens its window with: dimensions, a
/// minimum size, a title and a frame-rate cap. Plain bookkeeping; actually
/// opening the window is the host's business.
pub struct Window {
    pub width: i32,
    pub height: i32,
    pub min_w: i32,
    pub min_h: i32,
    pub title: &'static str,
    pub target_fps: u32,
}

impl Window {
    /// A configuration for a window of the given size, whose minimum size
    /// starts out equal to it, capped at 60 frames per second.
    pub fn init(width: i32, height: i32, title: &'static str) -> (r: Window)
        ensures
            r.width == width,
            r.height == height,
            r.min_w == width,
            r.min_h == height,
            r.title@ == title@,
            r.target_fps == 60,
    {
        Window { width, height, title, target_fps: 60, min_w: width, min_h: height }
    }

    pub fn set_target_fps(&mut self, target: u32)
        ensures
            *final(self) == (Window { target_fps: target, ..*old(self) }),
    {
        self.target_fps = target;
    }

    pub fn set_min_size(&mut self, width: i32, height: i32)
        ensures
            *final(self) == (Window { min_w: width, min_h: height, ..*old(self) }),
    {
        self.min_w = width;
        self.min_h = height;
    }
}

} // verus!
