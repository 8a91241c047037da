use vstd::prelude::*;

pub mod bundle;
pub mod capture;
pub mod cli;
pub mod frame;
pub mod gui;
pub mod icon;
pub mod licensing;
pub mod pipeline;
pub mod publish;
pub mod selector;
pub mod spout;
pub mod syphon;
pub mod text;
pub mod transform;

verus! {

/// Name of this package.
pub fn crate_name() -> (name: &'static str)
    ensures
        name@ == "webcam-sharedtexture-core"@,
{
    "webcam-sharedtexture-core"
}

} // verus!
