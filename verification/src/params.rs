//! The immutable per-session record and every size that follows from it.

use vstd::prelude::*;

verus! {

/// Number of `f32` channels stored for every cell of the field.
pub const FIELD_CHANNELS: u32 = 4;

/// Size of one `f32` in bytes.
pub const BYTES_PER_FLOAT: u32 = 4;

/// Size of one texel of the displayable texture (8-bit RGBA) in bytes.
pub const BYTES_PER_PIXEL: u32 = 4;

/// Agents handled by one work group of the move pass.
pub const AGENT_GROUP_SIZE: u32 = 64;

/// Edge length of the square tile handled by one work group of a field pass.
pub const FIELD_TILE: u32 = 8;

/// Number of species; a species tag lies in `0..SPECIES_COUNT`.
pub const SPECIES_COUNT: u32 = 2;

/// Mathematical content of a [`StaticParams`].
pub struct ParamsView {
    pub width: nat,
    pub height: nat,
    pub num_agents: nat,
}

impl ParamsView {
    /// Cells of the field.
    pub open spec fn cells(self) -> nat {
        self.width * self.height
    }

    /// `f32` values in one copy of the field.
    pub open spec fn field_floats(self) -> nat {
        self.cells() * (FIELD_CHANNELS as nat)
    }

    /// Bytes in one copy of the field.
    pub open spec fn field_bytes(self) -> nat {
        self.field_floats() * (BYTES_PER_FLOAT as nat)
    }

    /// Bytes of the displayable texture, and so of the staging buffer that a
    /// capture reads it into.
    pub open spec fn staging_bytes(self) -> nat {
        self.cells() * (BYTES_PER_PIXEL as nat)
    }

    /// Bytes of one texture row.
    pub open spec fn bytes_per_row(self) -> nat {
        self.width * (BYTES_PER_PIXEL as nat)
    }

    /// The record as the kernels read it: width, height, agent count.
    pub open spec fn uniform_words(self) -> Seq<u32> {
        seq![self.width as u32, self.height as u32, self.num_agents as u32]
    }

    /// Every derived size fits in 32 bits, the width in which the session
    /// states its sizes.
    pub open spec fn fits(self) -> bool {
        &&& self.width <= u32::MAX
        &&& self.height <= u32::MAX
        &&& self.num_agents <= u32::MAX
        &&& self.field_bytes() <= u32::MAX
        &&& self.bytes_per_row() <= u32::MAX
    }
}

/// The four bytes of `w`, least significant first.
pub open spec fn word_le(w: u32) -> Seq<u8> {
    seq![
        (w % 256) as u8,
        (w / 256 % 256) as u8,
        (w / 65536 % 256) as u8,
        (w / 16777216) as u8,
    ]
}

/// The four bytes of `w`, most significant first.
pub open spec fn word_be(w: u32) -> Seq<u8> {
    seq![
        (w / 16777216) as u8,
        (w / 65536 % 256) as u8,
        (w / 256 % 256) as u8,
        (w % 256) as u8,
    ]
}

/// The bytes of `words`, word after word, each least significant byte first.
pub open spec fn words_le(words: Seq<u32>) -> Seq<u8> {
    Seq::new(4 * words.len(), |i: int| word_le(words[i / 4])[i % 4])
}

/// The bytes of `words`, word after word, each most significant byte first.
pub open spec fn words_be(words: Seq<u32>) -> Seq<u8> {
    Seq::new(4 * words.len(), |i: int| word_be(words[i / 4])[i % 4])
}

/// `bytemuck::cast_slice` from `u32` to `u8`: the words as they lie in
/// memory, four bytes each, copied out. The order of the four bytes is the
/// machine's, so the contract allows both; a cast to bytes never fails.
#[verifier::external_body]
fn words_as_bytes(words: &Vec<u32>) -> (bytes: Vec<u8>)
    ensures
        bytes@ == words_le(words@) || bytes@ == words_be(words@),
{
    bytemuck::cast_slice::<u32, u8>(words).to_vec()
}

/// Why a set of dimensions was turned down.
#[derive(Clone, Copy, Debug, PartialEq, Eq, Structural)]
pub enum ParamsError {
    /// One copy of the field would take more than `u32::MAX` bytes.
    FieldTooLarge,
    /// One texture row would take more than `u32::MAX` bytes.
    RowTooWide,
}

/// Field width, field height and agent count: fixed for the whole session.
#[derive(Clone, Copy, Debug, PartialEq, Eq)]
pub struct StaticParams {
    width: u32,
    height: u32,
    num_agents: u32,
}

impl View for StaticParams {
    type V = ParamsView;

    closed spec fn view(&self) -> ParamsView {
        ParamsView {
            width: self.width as nat,
            height: self.height as nat,
            num_agents: self.num_agents as nat,
        }
    }
}

/// The product of two 32-bit numbers, in 64 bits.
fn product(a: u32, b: u32) -> (p: u64)
    ensures
        p == a * b,
{
    assert(a * b <= 0xffff_ffff * 0xffff_ffff) by (nonlinear_arith)
        requires
            a <= 0xffff_ffff,
            b <= 0xffff_ffff,
    ;
    (a as u64) * (b as u64)
}

impl StaticParams {
    /// Holds of every value of the type: the sizes fit.
    #[verifier::type_invariant]
    pub open spec fn inv(self) -> bool {
        self@.fits()
    }

    /// Accepts the dimensions if every derived size fits in 32 bits.
    ///
    /// The row is examined first: a row that is too wide is reported as such
    /// even where the field as a whole is too large as well.
    pub fn new(width: u32, height: u32, num_agents: u32) -> (r: Result<StaticParams, ParamsError>)
        ensures
            match r {
                Ok(p) => {
                    &&& p@ == (ParamsView {
                        width: width as nat,
                        height: height as nat,
                        num_agents: num_agents as nat,
                    })
                    &&& p@.fits()
                },
                Err(ParamsError::RowTooWide) => width * BYTES_PER_PIXEL > u32::MAX,
                Err(ParamsError::FieldTooLarge) => {
                    &&& width * BYTES_PER_PIXEL <= u32::MAX
                    &&& width * height * FIELD_CHANNELS * BYTES_PER_FLOAT > u32::MAX
                },
            },
    {
        if width > u32::MAX / BYTES_PER_PIXEL {
            return Err(ParamsError::RowTooWide);
        }
        let cells = product(width, height);
        if cells > (u32::MAX / (FIELD_CHANNELS * BYTES_PER_FLOAT)) as u64 {
            return Err(ParamsError::FieldTooLarge);
        }
        Ok(StaticParams { width, height, num_agents })
    }

    /// Field width in cells.
    pub fn width(&self) -> (w: u32)
        ensures
            w == self@.width,
    {
        self.width
    }

    /// Field height in cells.
    pub fn height(&self) -> (h: u32)
        ensures
            h == self@.height,
    {
        self.height
    }

    /// Number of agents.
    pub fn num_agents(&self) -> (n: u32)
        ensures
            n == self@.num_agents,
    {
        self.num_agents
    }

    /// Number of `f32` values in one copy of the field.
    pub fn field_floats(&self) -> (n: u32)
        ensures
            n == self@.field_floats(),
    {
        proof {
            use_type_invariant(self);
        }
        let cells = product(self.width, self.height);
        (cells * (FIELD_CHANNELS as u64)) as u32
    }

    /// Number of bytes in one copy of the field.
    pub fn field_bytes(&self) -> (n: u32)
        ensures
            n == self@.field_bytes(),
    {
        proof {
            use_type_invariant(self);
        }
        let cells = product(self.width, self.height);
        (cells * (FIELD_CHANNELS as u64) * (BYTES_PER_FLOAT as u64)) as u32
    }

    /// Number of bytes in the displayable texture.
    pub fn staging_bytes(&self) -> (n: u32)
        ensures
            n == self@.staging_bytes(),
    {
        proof {
            use_type_invariant(self);
        }
        let cells = product(self.width, self.height);
        (cells * (BYTES_PER_PIXEL as u64)) as u32
    }

    /// Number of bytes in one row of the displayable texture.
    pub fn bytes_per_row(&self) -> (n: u32)
        ensures
            n == self@.bytes_per_row(),
    {
        proof {
            use_type_invariant(self);
        }
        self.width * BYTES_PER_PIXEL
    }

    /// The record as it is uploaded for the kernels: width, height and agent
    /// count, four bytes each in the machine's byte order.
    pub fn uniform_bytes(&self) -> (bytes: Vec<u8>)
        ensures
            bytes@ == words_le(self@.uniform_words()) || bytes@ == words_be(self@.uniform_words()),
            bytes@.len() == 12,
    {
        let mut words: Vec<u32> = Vec::new();
        words.push(self.width);
        words.push(self.height);
        words.push(self.num_agents);
        words_as_bytes(&words)
    }

    /// Work groups of the move pass: whole groups only.
    pub fn agent_groups(&self) -> (n: u32)
        ensures
            n == self@.num_agents / (AGENT_GROUP_SIZE as nat),
    {
        self.num_agents / AGENT_GROUP_SIZE
    }

    /// Work groups of a field pass along the x axis: whole tiles only.
    pub fn tiles_x(&self) -> (n: u32)
        ensures
            n == self@.width / (FIELD_TILE as nat),
    {
        self.width / FIELD_TILE
    }

    /// Work groups of a field pass along the y axis: whole tiles only.
    pub fn tiles_y(&self) -> (n: u32)
        ensures
            n == self@.height / (FIELD_TILE as nat),
    {
        self.height / FIELD_TILE
    }
}

} // verus!
