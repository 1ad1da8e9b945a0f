use vstd::prelude::*;

verus! {

#[verifier::external_type_specification]
#[verifier::external_body]
pub struct ExIoError(std::io::Error);

/// Why opening or driving the framebuffer failed.
///
/// Each control call that can fail has its own kind; `IoError` carries the
/// operating system's error from opening the device or mapping its memory.
#[derive(Debug)]
pub enum FbError {
    IoError(std::io::Error),
    GetVinfo,
    SetVinfo,
    GetFinfo,
    SetFinfo,
    PanDisplay,
}

impl From<std::io::Error> for FbError {
    fn from(e: std::io::Error) -> (r: FbError)
        ensures
            r == FbError::IoError(e),
    {
        FbError::IoError(e)
    }
}

impl vstd::std_specs::convert::FromSpecImpl<std::io::Error> for FbError {
    open spec fn obeys_from_spec() -> bool {
        true
    }

    open spec fn from_spec(e: std::io::Error) -> FbError {
        FbError::IoError(e)
    }
}

} // verus!
