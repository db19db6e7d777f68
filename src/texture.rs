use vstd::prelude::*;
use crate::error::SetupError;
use crate::life_params::LifeParams;

verus! {

/// The shape of the storage image that the kernel writes and the renderer
/// samples: the grid's width and height, and a number of layers chosen on
/// its own.
#[derive(Debug, Clone, Copy, PartialEq, Eq, Structural)]
pub struct Texture {
    pub width: u32,
    pub height: u32,
    pub layers: u32,
}

impl Texture {
    /// The image for the grid of `params`, with `layers` layers; every
    /// extent must be positive.
    pub fn new(params: &LifeParams, layers: u32) -> (r: Result<Texture, SetupError>)
        ensures
            match r {
                Ok(t) => params.wf() && layers > 0 && t == (Texture {
                    width: params.spec_width(),
                    height: params.spec_height(),
                    layers,
                }),
                Err(e) => !(params.wf() && layers > 0) && e == SetupError::ZeroDimension,
            },
    {
        if params.height() == 0 || params.width() == 0 || layers == 0 {
            Err(SetupError::ZeroDimension)
        } else {
            Ok(Texture { width: params.width(), height: params.height(), layers })
        }
    }
}

} // verus!
