use vstd::prelude::*;

verus! {

/// Pixel format of texture data, as the OpenGL constant.
#[allow(non_camel_case_types)]
#[derive(Debug, Clone, Copy, PartialEq, Eq, Structural)]
pub enum TextureFormat {
    RED,
    GREEN,
    BLUE,
    ALPHA,
    RGB,
    RGBA,
    BGR,
    BGRA,
}

impl TextureFormat {
    /// The native value that stands for this variant.
    pub open spec fn spec_code(self) -> u32 {
        match self {
            TextureFormat::RED => 0x1903,
            TextureFormat::GREEN => 0x1904,
            TextureFormat::BLUE => 0x1905,
            TextureFormat::ALPHA => 0x1906,
            TextureFormat::RGB => 0x1907,
            TextureFormat::RGBA => 0x1908,
            TextureFormat::BGR => 0x80E0,
            TextureFormat::BGRA => 0x80E1,
        }
    }

    /// The native value that stands for this variant.
    #[verifier::when_used_as_spec(spec_code)]
    pub fn code(self) -> (r: u32)
        ensures
            r == self.spec_code(),
    {
        match self {
            TextureFormat::RED => 0x1903,
            TextureFormat::GREEN => 0x1904,
            TextureFormat::BLUE => 0x1905,
            TextureFormat::ALPHA => 0x1906,
            TextureFormat::RGB => 0x1907,
            TextureFormat::RGBA => 0x1908,
            TextureFormat::BGR => 0x80E0,
            TextureFormat::BGRA => 0x80E1,
        }
    }
}

/// Storage format of a texture, as the OpenGL constant.
#[allow(non_camel_case_types)]
#[derive(Debug, Clone, Copy, PartialEq, Eq, Structural)]
pub enum TextureInternalFormat {
    RGBA32F,
    RGB32F,
    RGBA16F,
    RGB16F,
    RGBA32UI,
    RGB32UI,
    RGBA16UI,
    RGB16UI,
    RGBA8UI,
    RGB8UI,
    RGBA32I,
    RGB32I,
    RGBA16I,
    RGB16I,
    RGBA8I,
    RGB8I,
    RED_INTEGER,
    GREEN_INTEGER,
    BLUE_INTEGER,
    RGB_INTEGER,
    RGBA_INTEGER,
    BGR_INTEGER,
    BGRA_INTEGER,
}

impl TextureInternalFormat {
    /// The native value that stands for this variant.
    pub open spec fn spec_code(self) -> u32 {
        match self {
            TextureInternalFormat::RGBA32F => 0x8814,
            TextureInternalFormat::RGB32F => 0x8815,
            TextureInternalFormat::RGBA16F => 0x881A,
            TextureInternalFormat::RGB16F => 0x881B,
            TextureInternalFormat::RGBA32UI => 0x8D70,
            TextureInternalFormat::RGB32UI => 0x8D71,
            TextureInternalFormat::RGBA16UI => 0x8D76,
            TextureInternalFormat::RGB16UI => 0x8D77,
            TextureInternalFormat::RGBA8UI => 0x8D7C,
            TextureInternalFormat::RGB8UI => 0x8D7D,
            TextureInternalFormat::RGBA32I => 0x8D82,
            TextureInternalFormat::RGB32I => 0x8D83,
            TextureInternalFormat::RGBA16I => 0x8D88,
            TextureInternalFormat::RGB16I => 0x8D89,
            TextureInternalFormat::RGBA8I => 0x8D8E,
            TextureInternalFormat::RGB8I => 0x8D8F,
            TextureInternalFormat::RED_INTEGER => 0x8D94,
            TextureInternalFormat::GREEN_INTEGER => 0x8D95,
            TextureInternalFormat::BLUE_INTEGER => 0x8D96,
            TextureInternalFormat::RGB_INTEGER => 0x8D98,
            TextureInternalFormat::RGBA_INTEGER => 0x8D99,
            TextureInternalFormat::BGR_INTEGER => 0x8D9A,
            TextureInternalFormat::BGRA_INTEGER => 0x8D9B,
        }
    }

    /// The native value that stands for this variant.
    #[verifier::when_used_as_spec(spec_code)]
    pub fn code(self) -> (r: u32)
        ensures
            r == self.spec_code(),
    {
        match self {
            TextureInternalFormat::RGBA32F => 0x8814,
            TextureInternalFormat::RGB32F => 0x8815,
            TextureInternalFormat::RGBA16F => 0x881A,
            TextureInternalFormat::RGB16F => 0x881B,
            TextureInternalFormat::RGBA32UI => 0x8D70,
            TextureInternalFormat::RGB32UI => 0x8D71,
            TextureInternalFormat::RGBA16UI => 0x8D76,
            TextureInternalFormat::RGB16UI => 0x8D77,
            TextureInternalFormat::RGBA8UI => 0x8D7C,
            TextureInternalFormat::RGB8UI => 0x8D7D,
            TextureInternalFormat::RGBA32I => 0x8D82,
            TextureInternalFormat::RGB32I => 0x8D83,
            TextureInternalFormat::RGBA16I => 0x8D88,
            TextureInternalFormat::RGB16I => 0x8D89,
            TextureInternalFormat::RGBA8I => 0x8D8E,
            TextureInternalFormat::RGB8I => 0x8D8F,
            TextureInternalFormat::RED_INTEGER => 0x8D94,
            TextureInternalFormat::GREEN_INTEGER => 0x8D95,
            TextureInternalFormat::BLUE_INTEGER => 0x8D96,
            TextureInternalFormat::RGB_INTEGER => 0x8D98,
            TextureInternalFormat::RGBA_INTEGER => 0x8D99,
            TextureInternalFormat::BGR_INTEGER => 0x8D9A,
            TextureInternalFormat::BGRA_INTEGER => 0x8D9B,
        }
    }
}

/// Component type of texture data, as the OpenGL constant.
#[allow(non_camel_case_types)]
#[derive(Debug, Clone, Copy, PartialEq, Eq, Structural)]
pub enum TextureDataType {
    BYTE,
    UNSIGNED_BYTE,
    SHORT,
    UNSIGNED_SHORT,
    INT,
    UNSIGNED_INT,
    FLOAT,
}

impl TextureDataType {
    /// The native value that stands for this variant.
    pub open spec fn spec_code(self) -> u32 {
        match self {
            TextureDataType::BYTE => 0x1400,
            TextureDataType::UNSIGNED_BYTE => 0x1401,
            TextureDataType::SHORT => 0x1402,
            TextureDataType::UNSIGNED_SHORT => 0x1403,
            TextureDataType::INT => 0x1404,
            TextureDataType::UNSIGNED_INT => 0x1405,
            TextureDataType::FLOAT => 0x1406,
        }
    }

    /// The native value that stands for this variant.
    #[verifier::when_used_as_spec(spec_code)]
    pub fn code(self) -> (r: u32)
        ensures
            r == self.spec_code(),
    {
        match self {
            TextureDataType::BYTE => 0x1400,
            TextureDataType::UNSIGNED_BYTE => 0x1401,
            TextureDataType::SHORT => 0x1402,
            TextureDataType::UNSIGNED_SHORT => 0x1403,
            TextureDataType::INT => 0x1404,
            TextureDataType::UNSIGNED_INT => 0x1405,
            TextureDataType::FLOAT => 0x1406,
        }
    }
}

/// Filter used when a texture is scaled, as the OpenGL constant.
#[allow(non_camel_case_types)]
#[derive(Debug, Clone, Copy, PartialEq, Eq, Structural)]
pub enum TextureScalingMode {
    NEAREST,
    LINEAR,
    NEAREST_MIPMAP_NEAREST,
    LINEAR_MIPMAP_NEAREST,
    NEAREST_MIPMAP_LINEAR,
    LINEAR_MIPMAP_LINEAR,
}

impl TextureScalingMode {
    /// The native value that stands for this variant.
    pub open spec fn spec_code(self) -> u32 {
        match self {
            TextureScalingMode::NEAREST => 0x2600,
            TextureScalingMode::LINEAR => 0x2601,
            TextureScalingMode::NEAREST_MIPMAP_NEAREST => 0x2700,
            TextureScalingMode::LINEAR_MIPMAP_NEAREST => 0x2701,
            TextureScalingMode::NEAREST_MIPMAP_LINEAR => 0x2702,
            TextureScalingMode::LINEAR_MIPMAP_LINEAR => 0x2703,
        }
    }

    /// The native value that stands for this variant.
    #[verifier::when_used_as_spec(spec_code)]
    pub fn code(self) -> (r: u32)
        ensures
            r == self.spec_code(),
    {
        match self {
            TextureScalingMode::NEAREST => 0x2600,
            TextureScalingMode::LINEAR => 0x2601,
            TextureScalingMode::NEAREST_MIPMAP_NEAREST => 0x2700,
            TextureScalingMode::LINEAR_MIPMAP_NEAREST => 0x2701,
            TextureScalingMode::NEAREST_MIPMAP_LINEAR => 0x2702,
            TextureScalingMode::LINEAR_MIPMAP_LINEAR => 0x2703,
        }
    }
}

/// How texture coordinates outside the texture wrap, as the OpenGL constant.
#[allow(non_camel_case_types)]
#[derive(Debug, Clone, Copy, PartialEq, Eq, Structural)]
pub enum TextureWrappingMode {
    REPEAT,
    MIRRORED_REPEAT,
    CLAMP_TO_EDGE,
    CLAMP_TO_BORDER,
}

impl TextureWrappingMode {
    /// The native value that stands for this variant.
    pub open spec fn spec_code(self) -> u32 {
        match self {
            TextureWrappingMode::REPEAT => 0x2901,
            TextureWrappingMode::MIRRORED_REPEAT => 0x8370,
            TextureWrappingMode::CLAMP_TO_EDGE => 0x812F,
            TextureWrappingMode::CLAMP_TO_BORDER => 0x812D,
        }
    }

    /// The native value that stands for this variant.
    #[verifier::when_used_as_spec(spec_code)]
    pub fn code(self) -> (r: u32)
        ensures
            r == self.spec_code(),
    {
        match self {
            TextureWrappingMode::REPEAT => 0x2901,
            TextureWrappingMode::MIRRORED_REPEAT => 0x8370,
            TextureWrappingMode::CLAMP_TO_EDGE => 0x812F,
            TextureWrappingMode::CLAMP_TO_BORDER => 0x812D,
        }
    }
}

} // verus!
