use vstd::prelude::*;

verus! {

/// The kind of noise to generate.
#[derive(Debug, Clone, Copy, PartialEq, Eq, Structural)]
pub enum NoiseType {
    Perlin,
    OpenSimplex,
    OpenSimplex2S,
    Value,
    ValueCubic,
    Worley,
}

impl NoiseType {
    /// The native value that stands for this variant.
    pub open spec fn spec_code(self) -> i32 {
        match self {
            NoiseType::Perlin => 0,
            NoiseType::OpenSimplex => 1,
            NoiseType::OpenSimplex2S => 2,
            NoiseType::Value => 3,
            NoiseType::ValueCubic => 4,
            NoiseType::Worley => 5,
        }
    }

    /// The native value that stands for this variant.
    #[verifier::when_used_as_spec(spec_code)]
    pub fn code(self) -> (r: i32)
        ensures
            r == self.spec_code(),
    {
        match self {
            NoiseType::Perlin => 0,
            NoiseType::OpenSimplex => 1,
            NoiseType::OpenSimplex2S => 2,
            NoiseType::Value => 3,
            NoiseType::ValueCubic => 4,
            NoiseType::Worley => 5,
        }
    }
}

/// How octaves of noise are combined.
#[derive(Debug, Clone, Copy, PartialEq, Eq, Structural)]
pub enum FractalType {
    NoFractal,
    FBM,
    Billow,
    Rigid,
    PingPong,
}

impl FractalType {
    /// The native value that stands for this variant.
    pub open spec fn spec_code(self) -> i32 {
        match self {
            FractalType::NoFractal => 0,
            FractalType::FBM => 1,
            FractalType::Billow => 2,
            FractalType::Rigid => 3,
            FractalType::PingPong => 4,
        }
    }

    /// The native value that stands for this variant.
    #[verifier::when_used_as_spec(spec_code)]
    pub fn code(self) -> (r: i32)
        ensures
            r == self.spec_code(),
    {
        match self {
            FractalType::NoFractal => 0,
            FractalType::FBM => 1,
            FractalType::Billow => 2,
            FractalType::Rigid => 3,
            FractalType::PingPong => 4,
        }
    }
}

/// The noise type that a stored type id stands for; `None` for an id that no
/// type has.
pub fn noise_type_from_code(code: i32) -> (r: Option<NoiseType>)
    ensures
        r is None <==> !(0 <= code <= 5),
        r matches Some(t) ==> t.spec_code() == code,
{
    match code {
        0 => Some(NoiseType::Perlin),
        1 => Some(NoiseType::OpenSimplex),
        2 => Some(NoiseType::OpenSimplex2S),
        3 => Some(NoiseType::Value),
        4 => Some(NoiseType::ValueCubic),
        5 => Some(NoiseType::Worley),
        _ => None,
    }
}

/// The fractal type that a stored fractal id stands for; `None` for an id
/// that no type has.
pub fn fractal_type_from_code(code: i32) -> (r: Option<FractalType>)
    ensures
        r is None <==> !(0 <= code <= 4),
        r matches Some(t) ==> t.spec_code() == code,
{
    match code {
        0 => Some(FractalType::NoFractal),
        1 => Some(FractalType::FBM),
        2 => Some(FractalType::Billow),
        3 => Some(FractalType::Rigid),
        4 => Some(FractalType::PingPong),
        _ => None,
    }
}

} // verus!
