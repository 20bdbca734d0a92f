//! What the library knows of the native window.

use vstd::prelude::*;

verus! {

/// How the window is asked for.
#[derive(Clone, Copy, Debug, PartialEq, Eq, Structural)]
pub struct WindowDescriptor {
    /// Requested inner width, in physical pixels.
    pub width: u32,
    /// Requested inner height, in physical pixels.
    pub height: u32,
    /// Whether the user may resize the window.
    pub resizable: bool,
}

/// The native window as last observed.
#[derive(Clone, Copy, Debug, PartialEq, Eq, Structural)]
pub struct Window {
    /// Native handle of the window.
    pub handle: u64,
    /// Inner width, in physical pixels.
    pub width: u32,
    /// Inner height, in physical pixels.
    pub height: u32,
    /// Whether the window is shown.
    pub visible: bool,
}

impl Window {
    /// Inner size in physical pixels, width first.
    pub open spec fn size_spec(self) -> Seq<u32> {
        seq![self.width, self.height]
    }

    /// Inner size in physical pixels, width first.
    pub fn inner_size(&self) -> (res: [u32; 2])
        ensures
            res@ == self.size_spec(),
    {
        let res = [self.width, self.height];
        assert(res@ =~= self.size_spec());
        res
    }

    /// Records the inner size the window system reports.
    pub fn set_inner_size(&mut self, width: u32, height: u32)
        ensures
            *final(self) == (Window { width, height, ..*old(self) }),
    {
        self.width = width;
        self.height = height;
    }

    /// Records whether the window is shown.
    pub fn set_visible(&mut self, visible: bool)
        ensures
            *final(self) == (Window { visible, ..*old(self) }),
    {
        self.visible = visible;
    }

    /// Native handle of the window.
    pub fn raw_handle(&self) -> (res: u64)
        ensures
            res == self.handle,
    {
        self.handle
    }
}

} // verus!
