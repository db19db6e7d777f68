use vstd::prelude::*;
use crate::bytes::{be_bytes, le_bytes, word_bytes, words_to_bytes};
use crate::error::SetupError;

verus! {

/// Size in bytes of the parameter record as the kernel reads it: two `u32`s.
pub const PARAMS_BYTES: u64 = 8;

/// The grid dimensions that the kernel reads as a uniform record, laid out
/// as the words `[width, height]`. Only `new` makes one, and nothing changes
/// it afterwards.
#[derive(Debug, Clone, Copy, PartialEq, Eq, Structural)]
pub struct LifeParams {
    height: u32,
    width: u32,
}

impl LifeParams {
    pub closed spec fn spec_height(self) -> u32 {
        self.height
    }

    pub closed spec fn spec_width(self) -> u32 {
        self.width
    }

    /// Both dimensions are positive.
    pub open spec fn wf(self) -> bool {
        self.spec_height() > 0 && self.spec_width() > 0
    }

    /// The record's bytes for upload in little-endian order: the width's
    /// word, then the height's.
    pub open spec fn le_record(self) -> Seq<u8> {
        le_bytes(self.spec_width()) + le_bytes(self.spec_height())
    }

    /// The record's bytes for upload in big-endian order.
    pub open spec fn be_record(self) -> Seq<u8> {
        be_bytes(self.spec_width()) + be_bytes(self.spec_height())
    }

    /// The record for a `height` by `width` grid; both must be positive.
    pub fn new(height: u32, width: u32) -> (r: Result<LifeParams, SetupError>)
        ensures
            match r {
                Ok(p) => height > 0 && width > 0 && p.spec_height() == height && p.spec_width()
                    == width && p.wf(),
                Err(e) => (height == 0 || width == 0) && e == SetupError::ZeroDimension,
            },
    {
        if height == 0 || width == 0 {
            Err(SetupError::ZeroDimension)
        } else {
            Ok(LifeParams { height, width })
        }
    }

    pub fn height(&self) -> (r: u32)
        ensures
            r == self.spec_height(),
    {
        self.height
    }

    pub fn width(&self) -> (r: u32)
        ensures
            r == self.spec_width(),
    {
        self.width
    }

    /// The size of the record, which the kernel's uniform binding is given as
    /// its minimum size.
    pub fn binding_size(&self) -> (r: u64)
        ensures
            r == PARAMS_BYTES,
    {
        PARAMS_BYTES
    }

    /// The record's bytes for upload: the width's word, then the height's,
    /// each in the machine's byte order.
    pub fn to_bytes(&self) -> (r: Vec<u8>)
        ensures
            r@.len() == PARAMS_BYTES,
            r@ == self.le_record() || r@ == self.be_record(),
    {
        let words: Vec<u32> = vec![self.width, self.height];
        let r = words_to_bytes(&words);
        proof {
            assert(words@[0] == self.width);
            assert(words@[1] == self.height);
            assert(r@ =~= word_bytes(r@, 0) + word_bytes(r@, 1));
        }
        r
    }
}

} // verus!
