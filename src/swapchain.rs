use vstd::prelude::*;

use crate::error::FbError;
use crate::negotiate::Negotiation;
use crate::screeninfo::VarScreeninfo;

verus! {

/// The abstract state of a swap chain.
///
/// The two mappings of a double-buffered device are told apart by where
/// they were mapped: mapping 0 starts at byte offset zero of device memory,
/// mapping 1 one frame further. `front` is the mapping in the visible role.
pub struct ChainView<S> {
    pub visible: S,
    pub back: Option<S>,
    pub vinfo: VarScreeninfo,
    pub front: nat,
}

/// The variable info with the pan offset moved to the other frame.
pub open spec fn toggled(v: VarScreeninfo) -> VarScreeninfo {
    VarScreeninfo { yoffset: if v.yoffset == 0 { v.yres } else { 0 }, ..v }
}

impl<S> ChainView<S> {
    pub open spec fn is_double(self) -> bool {
        self.back is Some
    }

    /// The mapping in the back role.
    pub open spec fn back_mapping(self) -> nat {
        (1 - self.front) as nat
    }

    /// In double mode the device shows exactly the visible mapping: its pan
    /// offset is that mapping's first row, and the virtual height holds both
    /// frames. A single mapping is mapping 0.
    pub open spec fn wf(self) -> bool {
        if self.is_double() {
            &&& (self.front == 0 || self.front == 1)
            &&& self.vinfo.yoffset == (if self.front == 0 { 0 } else { self.vinfo.yres })
            &&& self.vinfo.yres_virtual as int >= 2 * self.vinfo.yres as int
        } else {
            self.front == 0
        }
    }

    /// The state after the device has accepted a pan to the back mapping.
    pub open spec fn swapped(self) -> ChainView<S> {
        ChainView {
            visible: self.back->0,
            back: Some(self.visible),
            vinfo: toggled(self.vinfo),
            front: self.back_mapping(),
        }
    }

    /// The state after a swap whose pan-display call had the given outcome.
    pub open spec fn after_swap(self, panned: bool) -> ChainView<S> {
        if self.is_double() && panned {
            self.swapped()
        } else {
            self
        }
    }

    /// The result of a swap whose pan-display call had the given outcome.
    pub open spec fn swap_result(self, panned: bool) -> Result<(), FbError> {
        if self.is_double() && !panned {
            Err(FbError::PanDisplay)
        } else {
            Ok(())
        }
    }

    /// `(width, height)` of the visible area in pixels.
    pub open spec fn screen_size(self) -> (usize, usize) {
        (self.vinfo.xres as usize, self.vinfo.yres as usize)
    }

    pub open spec fn color_depth(self) -> usize {
        self.vinfo.bits_per_pixel as usize
    }
}

enum Frames<S> {
    Double(S, S),
    Single(S),
}

/// The pan state: the variable info last given to the device and the
/// mapping it shows.
struct PanState {
    vinfo: VarScreeninfo,
    front: Ghost<nat>,
}

/// One or two mapped surfaces of a framebuffer and the roles they play.
///
/// `S` is the surface storage, a memory mapping of device memory in use.
/// In double mode the visible surface is the one the device shows and the
/// back surface the one that can be drawn to without tearing; a swap
/// exchanges the roles if and only if the device accepts the pan.
pub struct SwapChain<S> {
    frames: Frames<S>,
    pan: PanState,
}

impl<S> View for SwapChain<S> {
    type V = ChainView<S>;

    closed spec fn view(&self) -> ChainView<S> {
        ChainView {
            visible: match self.frames {
                Frames::Double(v, _) => v,
                Frames::Single(v) => v,
            },
            back: match self.frames {
                Frames::Double(_, b) => Some(b),
                Frames::Single(_) => None,
            },
            vinfo: self.pan.vinfo,
            front: self.pan.front@,
        }
    }
}

/// Exchanges the two surfaces of a double pair; reports whether there were two.
fn exchange<S>(frames: &mut Frames<S>) -> (r: bool)
    ensures
        r == (*old(frames) is Double),
        *final(frames) == (match *old(frames) {
            Frames::Double(v, b) => Frames::Double(b, v),
            Frames::Single(v) => Frames::Single(v),
        }),
    no_unwind
{
    match frames {
        Frames::Double(disp, buff) => {
            std::mem::swap(disp, buff);
            true
        },
        Frames::Single(_) => false,
    }
}

/// The surface in the visible role.
fn visible_mut<S>(frames: &mut Frames<S>) -> (r: &mut S)
    ensures
        (match *old(frames) {
            Frames::Double(v, b) => *r == v && *final(frames) == Frames::Double(*final(r), b),
            Frames::Single(v) => *r == v && *final(frames) == Frames::Single(*final(r)),
        }),
    no_unwind
{
    match frames {
        Frames::Double(disp, _) => disp,
        Frames::Single(disp) => disp,
    }
}

/// The surface in the back role, if there is one.
fn back_mut<S>(frames: &mut Frames<S>) -> (r: Option<&mut S>)
    ensures
        (match *old(frames) {
            Frames::Double(v, b) => r.is_some() && *r.unwrap() == b
                && *final(frames) == Frames::Double(v, *final(r.unwrap())),
            Frames::Single(v) => r.is_none() && *final(frames) == Frames::Single(v),
        }),
    no_unwind
{
    match frames {
        Frames::Double(_, buff) => Some(buff),
        Frames::Single(_) => None,
    }
}

impl<S> SwapChain<S> {
    #[verifier::type_invariant]
    spec fn inv(self) -> bool {
        self@.wf()
    }

    /// Builds the chain over the surfaces mapped at the negotiated regions:
    /// `visible` at offset zero and, when double-buffered, `back` one frame
    /// further. The device shows offset zero after negotiation.
    pub fn new(n: Negotiation, visible: S, back: Option<S>) -> (r: SwapChain<S>)
        requires
            back.is_some() == n.double,
            n.double ==> n.vinfo.yoffset == 0 && n.vinfo.yres_virtual as int >= 2 * n.vinfo.yres as int,
        ensures
            r@ == (ChainView { visible, back, vinfo: n.vinfo, front: 0 }),
            r@.wf(),
    {
        let frames = match back {
            Some(b) => Frames::Double(visible, b),
            None => Frames::Single(visible),
        };
        SwapChain { frames, pan: PanState { vinfo: n.vinfo, front: Ghost(0) } }
    }

    /// The surface the device is showing. Writes to it are visible at once
    /// and may tear.
    pub fn get_disp_data(&mut self) -> (r: &mut S)
        ensures
            *r == old(self)@.visible,
            final(self)@ == (ChainView { visible: *final(r), ..old(self)@ }),
    {
        proof {
            use_type_invariant(&*self);
        }
        visible_mut(&mut self.frames)
    }

    /// The surface to draw the next frame into; `None` in single mode.
    pub fn get_buff_data(&mut self) -> (r: Option<&mut S>)
        ensures
            r.is_some() == old(self)@.is_double(),
            r.is_some() ==> *r.unwrap() == old(self)@.back->0
                && final(self)@ == (ChainView { back: Some(*final(r.unwrap())), ..old(self)@ }),
            r.is_none() ==> final(self)@ == old(self)@,
    {
        proof {
            use_type_invariant(&*self);
        }
        back_mut(&mut self.frames)
    }

    /// Bits per pixel.
    pub fn color_depth(&self) -> (r: usize)
        ensures
            r == self@.color_depth(),
    {
        self.pan.vinfo.bits_per_pixel as usize
    }

    /// `(width, height)` of the visible area in pixels.
    pub fn screen_size(&self) -> (r: (usize, usize))
        ensures
            r == self@.screen_size(),
    {
        (self.pan.vinfo.xres as usize, self.pan.vinfo.yres as usize)
    }

    /// The variable info currently in force on the device.
    pub fn vinfo(&self) -> (r: VarScreeninfo)
        ensures
            r == self@.vinfo,
    {
        self.pan.vinfo
    }

    /// The variable info that a swap gives to the pan-display call, or
    /// `None` in single mode, where a swap makes no call.
    pub fn pan_target(&self) -> (r: Option<VarScreeninfo>)
        ensures
            r == (if self@.is_double() { Some(toggled(self@.vinfo)) } else { None }),
    {
        match &self.frames {
            Frames::Double(_, _) => {
                let mut v = self.pan.vinfo;
                v.yoffset = if v.yoffset == 0 { v.yres } else { 0 };
                Some(v)
            },
            Frames::Single(_) => None,
        }
    }

    /// Completes a swap, given whether the device accepted the pan to
    /// `pan_target()`. The roles are exchanged if and only if it did; in
    /// single mode nothing changes and the swap succeeds.
    pub fn swap(&mut self, panned: bool) -> (r: Result<(), FbError>)
        ensures
            final(self)@ == old(self)@.after_swap(panned),
            r == old(self)@.swap_result(panned),
            final(self)@.wf(),
    {
        proof {
            use_type_invariant(&*self);
        }
        if !panned {
            return match &self.frames {
                Frames::Double(_, _) => Err(FbError::PanDisplay),
                Frames::Single(_) => Ok(()),
            };
        }
        if !exchange(&mut self.frames) {
            return Ok(());
        }
        let mut v = self.pan.vinfo;
        v.yoffset = if v.yoffset == 0 { v.yres } else { 0 };
        let ghost next: nat = (1 - self.pan.front@) as nat;
        self.pan = PanState { vinfo: v, front: Ghost(next) };
        Ok(())
    }
}

} // verus!
