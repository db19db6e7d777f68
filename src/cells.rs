use vstd::prelude::*;
use rand::Rng;
use rand::SeedableRng;
use rand::rngs::StdRng;
use crate::bytes::{is_be_words, is_le_words, word_is_zero, words_to_bytes};
use crate::error::SetupError;

verus! {

/// rand's StdRng, the seeded generator behind the initial cell states, held
/// opaque.
#[verifier::external_type_specification]
#[verifier::external_body]
pub struct ExStdRng(rand::rngs::StdRng);

/// Bit pattern of the single-precision value one, which is how a live cell
/// is stored in device memory; a dead cell is stored as zero.
pub const ALIVE_WORD: u32 = 0x3F80_0000;

/// Number of cells of a `height` by `width` grid with `channels` values per
/// cell.
pub open spec fn cell_count(height: int, width: int, channels: int) -> int {
    height * width * channels
}

/// Whether two buffers of `cell_count` words each can be held in memory:
/// their size in bytes fits in a `usize`.
pub open spec fn fits(height: int, width: int, channels: int) -> bool {
    4 * cell_count(height, width, channels) <= usize::MAX
}

/// The word stored in device memory for a cell in state `v`.
pub open spec fn cell_word(v: u32) -> u32 {
    if v == 0 {
        0
    } else {
        ALIVE_WORD
    }
}

/// Every value of `s` is 0 or 1.
pub open spec fn all_binary(s: Seq<u32>) -> bool {
    forall|j: int| 0 <= j < s.len() ==> #[trigger] s[j] < 2
}

/// Relies on rand's SeedableRng::seed_from_u64 for StdRng: a generator whose
/// draws are fixed by the seed.
#[verifier::external_body]
fn seeded_rng(seed: u64) -> StdRng {
    StdRng::seed_from_u64(seed)
}

/// Relies on rand's Rng::gen_range on the range `0..2`: a uniform draw from
/// the half-open range, so 0 or 1.
#[verifier::external_body]
fn draw_bit(rng: &mut StdRng) -> (r: u32)
    ensures
        r < 2,
{
    rng.gen_range(0..2u32)
}

/// The two cell buffers of the automaton as first uploaded, one state per
/// cell and channel, each 0 or 1. Nothing writes them after construction:
/// only the kernel advances the state, in device memory.
pub struct CellGrid {
    height: u32,
    width: u32,
    channels: u32,
    front: Vec<u32>,
    back: Vec<u32>,
}

impl CellGrid {
    pub closed spec fn spec_height(&self) -> int {
        self.height as int
    }

    pub closed spec fn spec_width(&self) -> int {
        self.width as int
    }

    pub closed spec fn spec_channels(&self) -> int {
        self.channels as int
    }

    /// The contents of buffer `i` (0 or 1).
    pub closed spec fn contents(&self, i: int) -> Seq<u32> {
        if i == 0 {
            self.front@
        } else {
            self.back@
        }
    }

    /// Positive dimensions, two buffers of `cell_count` binary values each.
    pub closed spec fn wf(&self) -> bool {
        &&& self.height > 0 && self.width > 0 && self.channels > 0
        &&& fits(self.height as int, self.width as int, self.channels as int)
        &&& self.front@.len() == cell_count(
            self.height as int,
            self.width as int,
            self.channels as int,
        )
        &&& self.back@.len() == self.front@.len()
        &&& all_binary(self.front@)
        &&& all_binary(self.back@)
    }

    /// Checks the shape of a grid: `ZeroDimension` when a dimension is zero,
    /// else `TooLarge` when the buffers would not fit in memory.
    pub fn check_shape(height: u32, width: u32, channels: u32) -> (r: Result<usize, SetupError>)
        ensures
            match r {
                Ok(n) => height > 0 && width > 0 && channels > 0 && fits(
                    height as int,
                    width as int,
                    channels as int,
                ) && n == cell_count(height as int, width as int, channels as int),
                Err(e) => if height == 0 || width == 0 || channels == 0 {
                    e == SetupError::ZeroDimension
                } else {
                    e == SetupError::TooLarge && !fits(height as int, width as int, channels as int)
                },
            },
    {
        if height == 0 || width == 0 || channels == 0 {
            return Err(SetupError::ZeroDimension);
        }
        let h = height as u128;
        let w = width as u128;
        let c = channels as u128;
        proof {
            assert(h * w <= 0xFFFF_FFFF * 0xFFFF_FFFF) by (nonlinear_arith)
                requires
                    h <= 0xFFFF_FFFF,
                    w <= 0xFFFF_FFFF,
            ;
        }
        let hw: u128 = h * w;
        proof {
            assert(hw * c <= 0xFFFF_FFFF * 0xFFFF_FFFF * 0xFFFF_FFFF) by (nonlinear_arith)
                requires
                    hw <= 0xFFFF_FFFF * 0xFFFF_FFFF,
                    c <= 0xFFFF_FFFF,
            ;
        }
        let n: u128 = hw * c;
        if n > (usize::MAX as u128) / 4 {
            return Err(SetupError::TooLarge);
        }
        Ok(n as usize)
    }

    /// A grid whose two buffers both hold `draws`, one value per cell and
    /// channel. `ZeroDimension` and `TooLarge` as in `check_shape`; then
    /// `LayoutMismatch` when the number of draws is not the number of cells.
    pub fn from_draws(height: u32, width: u32, channels: u32, draws: Vec<u32>) -> (r: Result<
        CellGrid,
        SetupError,
    >)
        requires
            all_binary(draws@),
        ensures
            match r {
                Ok(g) => {
                    &&& g.wf()
                    &&& g.spec_height() == height && g.spec_width() == width
                    &&& g.spec_channels() == channels
                    &&& draws@.len() == cell_count(height as int, width as int, channels as int)
                    &&& g.contents(0) == draws@
                    &&& g.contents(1) == draws@
                },
                Err(e) => if height == 0 || width == 0 || channels == 0 {
                    e == SetupError::ZeroDimension
                } else if !fits(height as int, width as int, channels as int) {
                    e == SetupError::TooLarge
                } else {
                    e == SetupError::LayoutMismatch && draws@.len() != cell_count(
                        height as int,
                        width as int,
                        channels as int,
                    )
                },
            },
    {
        let n = match CellGrid::check_shape(height, width, channels) {
            Ok(n) => n,
            Err(e) => return Err(e),
        };
        if draws.len() != n {
            return Err(SetupError::LayoutMismatch);
        }
        let mut front: Vec<u32> = Vec::new();
        let mut back: Vec<u32> = Vec::new();
        for j in 0..n
            invariant
                n == draws@.len(),
                front@ == draws@.subrange(0, j as int),
                back@ == draws@.subrange(0, j as int),
        {
            front.push(draws[j]);
            back.push(draws[j]);
            proof {
                assert(draws@.subrange(0, j + 1) == draws@.subrange(0, j as int).push(draws@[j as int]));
            }
        }
        proof {
            assert(draws@.subrange(0, n as int) == draws@);
        }
        Ok(CellGrid { height, width, channels, front, back })
    }

    /// A grid whose cells and channels are each drawn 0 or 1 by a generator
    /// seeded with `seed`; both buffers start out equal. Fails exactly as
    /// `check_shape` does.
    pub fn new(height: u32, width: u32, channels: u32, seed: u64) -> (r: Result<CellGrid, SetupError>)
        ensures
            match r {
                Ok(g) => {
                    &&& height > 0 && width > 0 && channels > 0
                    &&& fits(height as int, width as int, channels as int)
                    &&& g.wf()
                    &&& g.spec_height() == height && g.spec_width() == width
                    &&& g.spec_channels() == channels
                    &&& g.contents(0) == g.contents(1)
                    &&& g.contents(0).len() == cell_count(height as int, width as int, channels as int)
                    &&& all_binary(g.contents(0))
                },
                Err(e) => if height == 0 || width == 0 || channels == 0 {
                    e == SetupError::ZeroDimension
                } else {
                    e == SetupError::TooLarge && !fits(height as int, width as int, channels as int)
                },
            },
    {
        let n = match CellGrid::check_shape(height, width, channels) {
            Ok(n) => n,
            Err(e) => return Err(e),
        };
        let mut rng = seeded_rng(seed);
        let mut draws: Vec<u32> = Vec::new();
        for j in 0..n
            invariant
                draws@.len() == j,
                all_binary(draws@),
        {
            let b = draw_bit(&mut rng);
            draws.push(b);
        }
        CellGrid::from_draws(height, width, channels, draws)
    }

    pub fn height(&self) -> (r: u32)
        ensures
            r == self.spec_height(),
    {
        self.height
    }

    pub fn width(&self) -> (r: u32)
        ensures
            r == self.spec_width(),
    {
        self.width
    }

    pub fn channels(&self) -> (r: u32)
        ensures
            r == self.spec_channels(),
    {
        self.channels
    }

    /// The contents of buffer `i`.
    pub fn buffer(&self, i: usize) -> (r: &Vec<u32>)
        requires
            i < 2,
        ensures
            r@ == self.contents(i as int),
    {
        if i == 0 {
            &self.front
        } else {
            &self.back
        }
    }

    /// Size of one buffer in device memory: four bytes per value.
    pub fn buffer_bytes(&self) -> (r: u64)
        requires
            self.wf(),
        ensures
            r == 4 * cell_count(self.spec_height(), self.spec_width(), self.spec_channels()),
    {
        (self.front.len() as u64) * 4
    }

    /// The words uploaded for buffer `i`: `cell_word` of each value, `0`
    /// for a dead cell and `ALIVE_WORD` for a live one.
    pub fn upload_words(&self, i: usize) -> (r: Vec<u32>)
        requires
            i < 2,
        ensures
            r@.len() == self.contents(i as int).len(),
            forall|j: int|
                0 <= j < r@.len() ==> #[trigger] r@[j] == cell_word(self.contents(i as int)[j]),
    {
        let cells = self.buffer(i);
        let mut words: Vec<u32> = Vec::new();
        for j in 0..cells.len()
            invariant
                words@.len() == j,
                j <= cells@.len(),
                cells@ == self.contents(i as int),
                forall|k: int| 0 <= k < j ==> #[trigger] words@[k] == cell_word(cells@[k]),
        {
            let v = cells[j];
            let w: u32 = if v == 0 {
                0
            } else {
                ALIVE_WORD
            };
            words.push(w);
        }
        words
    }

    /// The bytes uploaded for buffer `i`: the words of `upload_words`, each
    /// as its four bytes in the machine's byte order, so that the bytes of
    /// word `j` are zero exactly when value `j` is 0.
    pub fn upload_bytes(&self, i: usize) -> (r: Vec<u8>)
        requires
            i < 2,
        ensures
            r@.len() == 4 * self.contents(i as int).len(),
            is_le_words(r@, self.contents(i as int).map_values(|v: u32| cell_word(v)))
                || is_be_words(r@, self.contents(i as int).map_values(|v: u32| cell_word(v))),
            forall|j: int|
                0 <= j < self.contents(i as int).len() ==> (word_is_zero(r@, j) <==> self.contents(
                    i as int,
                )[j] == 0),
    {
        let words = self.upload_words(i);
        proof {
            assert(words@ =~= self.contents(i as int).map_values(|v: u32| cell_word(v)));
        }
        words_to_bytes(&words)
    }
}

/// Every value of a grid's buffers is 0 or 1, and its two buffers have the
/// grid's number of cells.
pub proof fn lemma_initial_cells_binary(g: CellGrid, i: int, j: int)
    requires
        g.wf(),
        i == 0 || i == 1,
        0 <= j < g.contents(i).len(),
    ensures
        g.contents(i)[j] == 0 || g.contents(i)[j] == 1,
        g.contents(i).len() == cell_count(g.spec_height(), g.spec_width(), g.spec_channels()),
{
}

} // verus!
