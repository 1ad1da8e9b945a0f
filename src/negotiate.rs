use vstd::prelude::*;

use crate::error::FbError;
use crate::screeninfo::{FixScreeninfo, VarScreeninfo};

verus! {

/// Largest value a 32-bit geometry field can hold.
pub const U32_LIMIT: u64 = 0xffff_ffff;

/// The control call that must be made on the device before mapping its memory.
#[derive(Clone, Copy, Debug, PartialEq, Eq, Structural)]
pub enum GeometryRequest {
    /// Single-surface mode: the geometry is left as it is.
    Nothing,
    /// Push the negotiated variable info, which doubles the virtual height.
    SetVinfo,
    /// The virtual height already suffices: pan back to offset zero.
    PanDisplay,
}

/// A byte range of device memory to be mapped as one surface.
#[derive(Clone, Copy, Debug, PartialEq, Eq, Structural)]
pub struct Region {
    pub offset: u64,
    pub len: u64,
}

/// The outcome of negotiating geometry with the device.
#[derive(Clone, Copy, Debug, PartialEq, Eq, Structural)]
pub struct Negotiation {
    /// Variable info as it stands after the request has been made.
    pub vinfo: VarScreeninfo,
    /// Bytes in one full visible frame: `line_length * yres`.
    pub frame_len: u64,
    /// Whether two surfaces are used.
    pub double: bool,
    /// What must be asked of the device, with `vinfo` as payload.
    pub request: GeometryRequest,
}

/// Bytes in one full visible frame.
pub open spec fn frame_bytes(fix: FixScreeninfo, var: VarScreeninfo) -> int {
    fix.line_length as int * var.yres as int
}

/// The device memory holds two full frames.
pub open spec fn fits_double(fix: FixScreeninfo, var: VarScreeninfo) -> bool {
    fix.smem_len as int >= 2 * frame_bytes(fix, var)
}

/// What negotiation yields for the given fixed and variable info.
///
/// A doubled height that does not fit the 32-bit field cannot be pushed to
/// the device, so it counts as a refused set-variable-info.
pub open spec fn negotiated(fix: FixScreeninfo, var: VarScreeninfo) -> Result<Negotiation, FbError> {
    let frame_len = frame_bytes(fix, var) as u64;
    if !fits_double(fix, var) {
        Ok(Negotiation { vinfo: var, frame_len, double: false, request: GeometryRequest::Nothing })
    } else if var.yres_virtual as int >= 2 * var.yres as int {
        Ok(
            Negotiation {
                vinfo: VarScreeninfo { yoffset: 0, ..var },
                frame_len,
                double: true,
                request: GeometryRequest::PanDisplay,
            },
        )
    } else if 2 * var.yres as int > U32_LIMIT {
        Err(FbError::SetVinfo)
    } else {
        Ok(
            Negotiation {
                vinfo: VarScreeninfo { yoffset: 0, yres_virtual: (2 * var.yres) as u32, ..var },
                frame_len,
                double: true,
                request: GeometryRequest::SetVinfo,
            },
        )
    }
}

/// The byte ranges of device memory that hold the surfaces.
pub open spec fn regions_of(n: Negotiation) -> Seq<Region> {
    if n.double {
        seq![
            Region { offset: 0, len: n.frame_len },
            Region { offset: n.frame_len, len: n.frame_len },
        ]
    } else {
        seq![Region { offset: 0, len: n.frame_len }]
    }
}

/// The error that a refused request stands for.
pub open spec fn request_failure(req: GeometryRequest) -> Result<(), FbError> {
    match req {
        GeometryRequest::Nothing => Ok(()),
        GeometryRequest::SetVinfo => Err(FbError::SetVinfo),
        GeometryRequest::PanDisplay => Err(FbError::PanDisplay),
    }
}

/// Decides single or double buffering from the queried device info and
/// computes the geometry to request.
pub fn negotiate(fix: FixScreeninfo, var: VarScreeninfo) -> (r: Result<Negotiation, FbError>)
    ensures
        r == negotiated(fix, var),
{
    let line: u64 = fix.line_length as u64;
    let rows: u64 = var.yres as u64;
    assert(line * rows <= U32_LIMIT * U32_LIMIT) by (nonlinear_arith)
        requires
            line <= U32_LIMIT,
            rows <= U32_LIMIT,
    ;
    let frame_len: u64 = line * rows;
    let smem: u64 = fix.smem_len as u64;
    if frame_len > smem || frame_len * 2 > smem {
        return Ok(
            Negotiation { vinfo: var, frame_len, double: false, request: GeometryRequest::Nothing },
        );
    }
    let mut vinfo = var;
    vinfo.yoffset = 0;
    let doubled: u64 = var.yres as u64 * 2;
    if var.yres_virtual as u64 >= doubled {
        Ok(Negotiation { vinfo, frame_len, double: true, request: GeometryRequest::PanDisplay })
    } else if doubled > U32_LIMIT {
        Err(FbError::SetVinfo)
    } else {
        vinfo.yres_virtual = doubled as u32;
        Ok(Negotiation { vinfo, frame_len, double: true, request: GeometryRequest::SetVinfo })
    }
}

impl Negotiation {
    /// The byte ranges of device memory to map, in order: the surface shown
    /// first, then (when double-buffered) the one drawn to first.
    pub fn regions(&self) -> (r: Vec<Region>)
        ensures
            r@ == regions_of(*self),
    {
        let mut r: Vec<Region> = Vec::new();
        r.push(Region { offset: 0, len: self.frame_len });
        if self.double {
            r.push(Region { offset: self.frame_len, len: self.frame_len });
        }
        r
    }

    /// Settles the request by the device's answer: a refused request fails
    /// with the error of its kind; no request, or an accepted one, succeeds.
    pub fn confirm(&self, accepted: bool) -> (r: Result<(), FbError>)
        ensures
            r == (if accepted { Ok(()) } else { request_failure(self.request) }),
    {
        if accepted {
            return Ok(());
        }
        match self.request {
            GeometryRequest::Nothing => Ok(()),
            GeometryRequest::SetVinfo => Err(FbError::SetVinfo),
            GeometryRequest::PanDisplay => Err(FbError::PanDisplay),
        }
    }
}

} // verus!
