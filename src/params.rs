//! Parameter blocks: the host copies of the numeric records that the shading
//! programs read, and their exact byte layout in GPU buffers.
//!
//! A field that the shaders read as a 32-bit float holds that float's
//! IEEE-754 bit pattern, so a block is copied to its buffer bit for bit.
use vstd::prelude::*;

use crate::codec::{bytes_to_words, decode_words, encode_words, lemma_words_round_trip, words_to_bytes};

verus! {

/// Bit pattern of the float 0.0.
pub const FLOAT_ZERO: u32 = 0;

/// Bit pattern of the float 1.0.
pub const FLOAT_ONE: u32 = 0x3f80_0000;

/// Bit pattern of the float -1.0.
pub const FLOAT_MINUS_ONE: u32 = 0xbf80_0000;

/// Bit pattern of the float 0.01 (rounded to the nearest 32-bit float).
pub const FLOAT_HUNDREDTH: u32 = 0x3c23_d70a;

/// Bit pattern of the float 90.0.
pub const FLOAT_NINETY: u32 = 0x42b4_0000;

/// Bit pattern of the float 1500.0.
pub const FLOAT_1500: u32 = 0x44bb_8000;

/// Bit pattern of the float 2500.0.
pub const FLOAT_2500: u32 = 0x451c_4000;

/// Octave count of each noise layer at startup.
pub const DEFAULT_OCTAVES: i32 = 7;

/// Ray-marching parameters: three 32-bit floats.
#[derive(Clone, Copy, Debug, PartialEq, Eq, Structural)]
pub struct RayParams {
    pub epsilon: u32,
    pub max_dist: u32,
    pub max_steps: u32,
}

/// View parameters: seven 32-bit floats.
#[derive(Clone, Copy, Debug, PartialEq, Eq, Structural)]
pub struct ViewParams {
    pub x_shift: u32,
    pub y_shift: u32,
    pub zoom: u32,
    pub x_rot: u32,
    pub y_rot: u32,
    pub time_modifier: u32,
    pub fov_degrees: u32,
}

/// Terrain parameters: three 32-bit signed octave counts.
#[derive(Clone, Copy, Debug, PartialEq, Eq, Structural)]
pub struct TerrainParams {
    pub f1_octaves: i32,
    pub f2_octaves: i32,
    pub f3_octaves: i32,
}

/// The per-frame time uniform: one 32-bit float, seconds since startup.
#[derive(Clone, Copy, Debug, PartialEq, Eq, Structural)]
pub struct TimeUniform {
    pub time: u32,
}

/// The three parameter blocks of a session.
#[derive(Clone, Copy, Debug, PartialEq, Eq, Structural)]
pub struct Params {
    pub ray_params: RayParams,
    pub view_params: ViewParams,
    pub terrain_params: TerrainParams,
}

impl RayParams {
    /// The block as the words of its buffer, in field order.
    pub open spec fn words(self) -> Seq<u32> {
        seq![self.epsilon, self.max_dist, self.max_steps]
    }

    /// The block whose buffer holds the bytes `bs`, if they are exactly one block.
    pub open spec fn from_bytes_spec(bs: Seq<u8>) -> Option<RayParams> {
        if bs.len() == 12 {
            let ws = bytes_to_words(bs);
            Some(RayParams { epsilon: ws[0], max_dist: ws[1], max_steps: ws[2] })
        } else {
            None
        }
    }

    /// The bytes written to the block's buffer.
    pub fn to_bytes(&self) -> (r: Vec<u8>)
        ensures
            r@ == words_to_bytes(self.words()),
            r@.len() == 12,
    {
        let ws: [u32; 3] = [self.epsilon, self.max_dist, self.max_steps];
        assert(ws@ =~= self.words());
        encode_words(&ws)
    }

    /// Reads a block back from the bytes of its buffer; `None` unless there
    /// are exactly twelve.
    pub fn from_bytes(bs: &[u8]) -> (r: Option<RayParams>)
        ensures
            r == RayParams::from_bytes_spec(bs@),
    {
        if bs.len() != 12 {
            return None;
        }
        let ws = decode_words(bs);
        Some(RayParams { epsilon: ws[0], max_dist: ws[1], max_steps: ws[2] })
    }
}

impl ViewParams {
    /// The block as the words of its buffer, in field order.
    pub open spec fn words(self) -> Seq<u32> {
        seq![
            self.x_shift,
            self.y_shift,
            self.zoom,
            self.x_rot,
            self.y_rot,
            self.time_modifier,
            self.fov_degrees,
        ]
    }

    /// The block whose buffer holds the bytes `bs`, if they are exactly one block.
    pub open spec fn from_bytes_spec(bs: Seq<u8>) -> Option<ViewParams> {
        if bs.len() == 28 {
            let ws = bytes_to_words(bs);
            Some(
                ViewParams {
                    x_shift: ws[0],
                    y_shift: ws[1],
                    zoom: ws[2],
                    x_rot: ws[3],
                    y_rot: ws[4],
                    time_modifier: ws[5],
                    fov_degrees: ws[6],
                },
            )
        } else {
            None
        }
    }

    /// The bytes written to the block's buffer.
    pub fn to_bytes(&self) -> (r: Vec<u8>)
        ensures
            r@ == words_to_bytes(self.words()),
            r@.len() == 28,
    {
        let ws: [u32; 7] = [
            self.x_shift,
            self.y_shift,
            self.zoom,
            self.x_rot,
            self.y_rot,
            self.time_modifier,
            self.fov_degrees,
        ];
        assert(ws@ =~= self.words());
        encode_words(&ws)
    }

    /// Reads a block back from the bytes of its buffer; `None` unless there
    /// are exactly twenty-eight.
    pub fn from_bytes(bs: &[u8]) -> (r: Option<ViewParams>)
        ensures
            r == ViewParams::from_bytes_spec(bs@),
    {
        if bs.len() != 28 {
            return None;
        }
        let ws = decode_words(bs);
        Some(
            ViewParams {
                x_shift: ws[0],
                y_shift: ws[1],
                zoom: ws[2],
                x_rot: ws[3],
                y_rot: ws[4],
                time_modifier: ws[5],
                fov_degrees: ws[6],
            },
        )
    }
}

impl TerrainParams {
    /// The block as the words of its buffer (two's complement), in field order.
    pub open spec fn words(self) -> Seq<u32> {
        seq![self.f1_octaves as u32, self.f2_octaves as u32, self.f3_octaves as u32]
    }

    /// The block whose buffer holds the bytes `bs`, if they are exactly one block.
    pub open spec fn from_bytes_spec(bs: Seq<u8>) -> Option<TerrainParams> {
        if bs.len() == 12 {
            let ws = bytes_to_words(bs);
            Some(
                TerrainParams {
                    f1_octaves: ws[0] as i32,
                    f2_octaves: ws[1] as i32,
                    f3_octaves: ws[2] as i32,
                },
            )
        } else {
            None
        }
    }

    /// The bytes written to the block's buffer.
    pub fn to_bytes(&self) -> (r: Vec<u8>)
        ensures
            r@ == words_to_bytes(self.words()),
            r@.len() == 12,
    {
        let ws: [u32; 3] = [
            self.f1_octaves as u32,
            self.f2_octaves as u32,
            self.f3_octaves as u32,
        ];
        assert(ws@ =~= self.words());
        encode_words(&ws)
    }

    /// Reads a block back from the bytes of its buffer; `None` unless there
    /// are exactly twelve.
    pub fn from_bytes(bs: &[u8]) -> (r: Option<TerrainParams>)
        ensures
            r == TerrainParams::from_bytes_spec(bs@),
    {
        if bs.len() != 12 {
            return None;
        }
        let ws = decode_words(bs);
        Some(
            TerrainParams {
                f1_octaves: ws[0] as i32,
                f2_octaves: ws[1] as i32,
                f3_octaves: ws[2] as i32,
            },
        )
    }
}

impl TimeUniform {
    /// The bytes written to the time uniform buffer.
    pub fn to_bytes(&self) -> (r: Vec<u8>)
        ensures
            r@ == words_to_bytes(seq![self.time]),
            r@.len() == 4,
    {
        let ws: [u32; 1] = [self.time];
        assert(ws@ =~= seq![self.time]);
        encode_words(&ws)
    }
}

/// The parameter values of a new session.
pub open spec fn initial_params() -> Params {
    Params {
        ray_params: RayParams {
            epsilon: FLOAT_HUNDREDTH,
            max_dist: FLOAT_1500,
            max_steps: FLOAT_2500,
        },
        view_params: ViewParams {
            x_shift: FLOAT_ZERO,
            y_shift: FLOAT_ZERO,
            zoom: FLOAT_ONE,
            x_rot: FLOAT_ZERO,
            y_rot: FLOAT_ZERO,
            time_modifier: FLOAT_ONE,
            fov_degrees: FLOAT_NINETY,
        },
        terrain_params: TerrainParams {
            f1_octaves: DEFAULT_OCTAVES,
            f2_octaves: DEFAULT_OCTAVES,
            f3_octaves: DEFAULT_OCTAVES,
        },
    }
}

/// The parameter values of a new session: epsilon 0.01, maximum distance
/// 1500, maximum steps 2500; no shift or rotation, zoom 1, time scale 1, a
/// 90 degree field of view; seven octaves per noise layer.
pub fn init_params() -> (r: Params)
    ensures
        r == initial_params(),
{
    Params {
        ray_params: RayParams {
            epsilon: FLOAT_HUNDREDTH,
            max_dist: FLOAT_1500,
            max_steps: FLOAT_2500,
        },
        view_params: ViewParams {
            x_shift: FLOAT_ZERO,
            y_shift: FLOAT_ZERO,
            zoom: FLOAT_ONE,
            x_rot: FLOAT_ZERO,
            y_rot: FLOAT_ZERO,
            time_modifier: FLOAT_ONE,
            fov_degrees: FLOAT_NINETY,
        },
        terrain_params: TerrainParams {
            f1_octaves: DEFAULT_OCTAVES,
            f2_octaves: DEFAULT_OCTAVES,
            f3_octaves: DEFAULT_OCTAVES,
        },
    }
}

/// Writing ray parameters to their buffer and reading those bytes back gives
/// the same parameters.
pub proof fn lemma_ray_params_round_trip(p: RayParams)
    ensures
        RayParams::from_bytes_spec(words_to_bytes(p.words())) == Some(p),
{
    let bs = words_to_bytes(p.words());
    assert(bs.len() == 12);
    lemma_words_round_trip(p.words());
    assert(bytes_to_words(bs) == p.words());
}

/// Writing view parameters to their buffer and reading those bytes back gives
/// the same parameters.
pub proof fn lemma_view_params_round_trip(p: ViewParams)
    ensures
        ViewParams::from_bytes_spec(words_to_bytes(p.words())) == Some(p),
{
    let bs = words_to_bytes(p.words());
    assert(bs.len() == 28);
    lemma_words_round_trip(p.words());
    assert(bytes_to_words(bs) == p.words());
}

/// Writing terrain parameters to their buffer and reading those bytes back
/// gives the same parameters.
pub proof fn lemma_terrain_params_round_trip(p: TerrainParams)
    ensures
        TerrainParams::from_bytes_spec(words_to_bytes(p.words())) == Some(p),
{
    let bs = words_to_bytes(p.words());
    assert(bs.len() == 12);
    lemma_words_round_trip(p.words());
    assert(bytes_to_words(bs) == p.words());
    lemma_signed_word(p.f1_octaves);
    lemma_signed_word(p.f2_octaves);
    lemma_signed_word(p.f3_octaves);
}

proof fn lemma_signed_word(x: i32)
    ensures
        (x as u32) as i32 == x,
{
    assert((x as u32) as i32 == x) by (bit_vector);
}

} // verus!
