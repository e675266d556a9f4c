use vstd::prelude::*;
use vstd::string::*;
use crate::text::same_text;
use vstd::utf8::is_ascii_chars;

verus! {

/// A texture format that can be named on the command line: plain, packed,
/// depth and block-compressed encodings.
#[derive(Clone, Copy, Debug, PartialEq, Eq, Structural, Hash)]
pub enum TextureFormat {
    R8Unorm,
    R8Snorm,
    R8Uint,
    R8Sint,
    R16Uint,
    R16Sint,
    R16Unorm,
    R16Snorm,
    R16Float,
    Rg8Unorm,
    Rg8Snorm,
    Rg8Uint,
    Rg8Sint,
    R32Uint,
    R32Sint,
    R32Float,
    Rg16Uint,
    Rg16Sint,
    Rg16Unorm,
    Rg16Snorm,
    Rg16Float,
    Rgba8Unorm,
    Rgba8UnormSrgb,
    Rgba8Snorm,
    Rgba8Uint,
    Rgba8Sint,
    Bgra8Unorm,
    Bgra8UnormSrgb,
    Rgb10a2Unorm,
    Rg11b10Float,
    Rg32Uint,
    Rg32Sint,
    Rg32Float,
    Rgba16Uint,
    Rgba16Sint,
    Rgba16Unorm,
    Rgba16Snorm,
    Rgba16Float,
    Rgba32Uint,
    Rgba32Sint,
    Rgba32Float,
    Depth32Float,
    Depth32FloatStencil8,
    Depth16Unorm,
    Depth24Plus,
    Depth24PlusStencil8,
    Rgb9e5Ufloat,
    Bc1RgbaUnorm,
    Bc1RgbaUnormSrgb,
    Bc2RgbaUnorm,
    Bc2RgbaUnormSrgb,
    Bc3RgbaUnorm,
    Bc3RgbaUnormSrgb,
    Bc4RUnorm,
    Bc4RSnorm,
    Bc5RgUnorm,
    Bc5RgSnorm,
    Bc6hRgbUfloat,
    Bc6hRgbSfloat,
    Bc7RgbaUnorm,
    Bc7RgbaUnormSrgb,
    Etc2Rgb8Unorm,
    Etc2Rgb8UnormSrgb,
    Etc2Rgb8A1Unorm,
    Etc2Rgb8A1UnormSrgb,
    Etc2Rgba8Unorm,
    Etc2Rgba8UnormSrgb,
    EacR11Unorm,
    EacR11Snorm,
    EacRg11Unorm,
    EacRg11Snorm,
}

/// The lowercase name under which `f` is listed.
pub open spec fn canonical_key(f: TextureFormat) -> Seq<char> {
    match f {
        TextureFormat::R8Unorm => "r8unorm"@,
        TextureFormat::R8Snorm => "r8snorm"@,
        TextureFormat::R8Uint => "r8uint"@,
        TextureFormat::R8Sint => "r8sint"@,
        TextureFormat::R16Uint => "r16uint"@,
        TextureFormat::R16Sint => "r16sint"@,
        TextureFormat::R16Unorm => "r16unorm"@,
        TextureFormat::R16Snorm => "r16snorm"@,
        TextureFormat::R16Float => "r16float"@,
        TextureFormat::Rg8Unorm => "rg8unorm"@,
        TextureFormat::Rg8Snorm => "rg8snorm"@,
        TextureFormat::Rg8Uint => "rg8uint"@,
        TextureFormat::Rg8Sint => "rg8sint"@,
        TextureFormat::R32Uint => "r32uint"@,
        TextureFormat::R32Sint => "r32sint"@,
        TextureFormat::R32Float => "r32float"@,
        TextureFormat::Rg16Uint => "rg16uint"@,
        TextureFormat::Rg16Sint => "rg16sint"@,
        TextureFormat::Rg16Unorm => "rg16unorm"@,
        TextureFormat::Rg16Snorm => "rg16snorm"@,
        TextureFormat::Rg16Float => "rg16float"@,
        TextureFormat::Rgba8Unorm => "rgba8unorm"@,
        TextureFormat::Rgba8UnormSrgb => "rgba8unormsrgb"@,
        TextureFormat::Rgba8Snorm => "rgba8snorm"@,
        TextureFormat::Rgba8Uint => "rgba8uint"@,
        TextureFormat::Rgba8Sint => "rgba8sint"@,
        TextureFormat::Bgra8Unorm => "bgra8unorm"@,
        TextureFormat::Bgra8UnormSrgb => "bgra8unormsrgb"@,
        TextureFormat::Rgb10a2Unorm => "rgb10a2unorm"@,
        TextureFormat::Rg11b10Float => "rg11b10ufloat"@,
        TextureFormat::Rg32Uint => "rg32uint"@,
        TextureFormat::Rg32Sint => "rg32sint"@,
        TextureFormat::Rg32Float => "rg32float"@,
        TextureFormat::Rgba16Uint => "rgba16uint"@,
        TextureFormat::Rgba16Sint => "rgba16sint"@,
        TextureFormat::Rgba16Unorm => "rgba16unorm"@,
        TextureFormat::Rgba16Snorm => "rgba16snorm"@,
        TextureFormat::Rgba16Float => "rgba16float"@,
        TextureFormat::Rgba32Uint => "rgba32uint"@,
        TextureFormat::Rgba32Sint => "rgba32sint"@,
        TextureFormat::Rgba32Float => "rgba32float"@,
        TextureFormat::Depth32Float => "depth32float"@,
        TextureFormat::Depth32FloatStencil8 => "depth32floatstencil8"@,
        TextureFormat::Depth16Unorm => "depth16unorm"@,
        TextureFormat::Depth24Plus => "depth24plus"@,
        TextureFormat::Depth24PlusStencil8 => "depth24plusstencil8"@,
        TextureFormat::Rgb9e5Ufloat => "rgb9e5ufloat"@,
        TextureFormat::Bc1RgbaUnorm => "bc1rgbaunorm"@,
        TextureFormat::Bc1RgbaUnormSrgb => "bc1rgbaunormsrgb"@,
        TextureFormat::Bc2RgbaUnorm => "bc2rgbaunorm"@,
        TextureFormat::Bc2RgbaUnormSrgb => "bc2rgbaunormsrgb"@,
        TextureFormat::Bc3RgbaUnorm => "bc3rgbaunorm"@,
        TextureFormat::Bc3RgbaUnormSrgb => "bc3rgbaunormsrgb"@,
        TextureFormat::Bc4RUnorm => "bc4runorm"@,
        TextureFormat::Bc4RSnorm => "bc4rsnorm"@,
        TextureFormat::Bc5RgUnorm => "bc5rgunorm"@,
        TextureFormat::Bc5RgSnorm => "bc5rgsnorm"@,
        TextureFormat::Bc6hRgbUfloat => "bc6hrgbufloat"@,
        TextureFormat::Bc6hRgbSfloat => "bc6hrgbfloat"@,
        TextureFormat::Bc7RgbaUnorm => "bc7rgbaunorm"@,
        TextureFormat::Bc7RgbaUnormSrgb => "bc7rgbaunormsrgb"@,
        TextureFormat::Etc2Rgb8Unorm => "etc2rgb8unorm"@,
        TextureFormat::Etc2Rgb8UnormSrgb => "etc2rgb8unormsrgb"@,
        TextureFormat::Etc2Rgb8A1Unorm => "etc2rgb8a1unorm"@,
        TextureFormat::Etc2Rgb8A1UnormSrgb => "etc2rgb8a1unormsrgb"@,
        TextureFormat::Etc2Rgba8Unorm => "etc2rgba8unorm"@,
        TextureFormat::Etc2Rgba8UnormSrgb => "etc2rgba8unormsrgb"@,
        TextureFormat::EacR11Unorm => "eacr11unorm"@,
        TextureFormat::EacR11Snorm => "eacr11snorm"@,
        TextureFormat::EacRg11Unorm => "eacrg11unorm"@,
        TextureFormat::EacRg11Snorm => "eacrg11snorm"@,
    }
}

/// The format listed under the lowercase name `k`, if any: an exact match,
/// with no trimming and no prefix matching.
pub open spec fn format_of_key(k: Seq<char>) -> Option<TextureFormat> {
    if k == "r8unorm"@ {
        Some(TextureFormat::R8Unorm)
    } else if k == "r8snorm"@ {
        Some(TextureFormat::R8Snorm)
    } else if k == "r8uint"@ {
        Some(TextureFormat::R8Uint)
    } else if k == "r8sint"@ {
        Some(TextureFormat::R8Sint)
    } else if k == "r16uint"@ {
        Some(TextureFormat::R16Uint)
    } else if k == "r16sint"@ {
        Some(TextureFormat::R16Sint)
    } else if k == "r16unorm"@ {
        Some(TextureFormat::R16Unorm)
    } else if k == "r16snorm"@ {
        Some(TextureFormat::R16Snorm)
    } else if k == "r16float"@ {
        Some(TextureFormat::R16Float)
    } else if k == "rg8unorm"@ {
        Some(TextureFormat::Rg8Unorm)
    } else if k == "rg8snorm"@ {
        Some(TextureFormat::Rg8Snorm)
    } else if k == "rg8uint"@ {
        Some(TextureFormat::Rg8Uint)
    } else if k == "rg8sint"@ {
        Some(TextureFormat::Rg8Sint)
    } else if k == "r32uint"@ {
        Some(TextureFormat::R32Uint)
    } else if k == "r32sint"@ {
        Some(TextureFormat::R32Sint)
    } else if k == "r32float"@ {
        Some(TextureFormat::R32Float)
    } else if k == "rg16uint"@ {
        Some(TextureFormat::Rg16Uint)
    } else if k == "rg16sint"@ {
        Some(TextureFormat::Rg16Sint)
    } else if k == "rg16unorm"@ {
        Some(TextureFormat::Rg16Unorm)
    } else if k == "rg16snorm"@ {
        Some(TextureFormat::Rg16Snorm)
    } else if k == "rg16float"@ {
        Some(TextureFormat::Rg16Float)
    } else if k == "rgba8unorm"@ {
        Some(TextureFormat::Rgba8Unorm)
    } else if k == "rgba8unormsrgb"@ {
        Some(TextureFormat::Rgba8UnormSrgb)
    } else if k == "rgba8snorm"@ {
        Some(TextureFormat::Rgba8Snorm)
    } else if k == "rgba8uint"@ {
        Some(TextureFormat::Rgba8Uint)
    } else if k == "rgba8sint"@ {
        Some(TextureFormat::Rgba8Sint)
    } else if k == "bgra8unorm"@ {
        Some(TextureFormat::Bgra8Unorm)
    } else if k == "bgra8unormsrgb"@ {
        Some(TextureFormat::Bgra8UnormSrgb)
    } else if k == "rgb10a2unorm"@ {
        Some(TextureFormat::Rgb10a2Unorm)
    } else if k == "rg11b10ufloat"@ {
        Some(TextureFormat::Rg11b10Float)
    } else if k == "rg32uint"@ {
        Some(TextureFormat::Rg32Uint)
    } else if k == "rg32sint"@ {
        Some(TextureFormat::Rg32Sint)
    } else if k == "rg32float"@ {
        Some(TextureFormat::Rg32Float)
    } else if k == "rgba16uint"@ {
        Some(TextureFormat::Rgba16Uint)
    } else if k == "rgba16sint"@ {
        Some(TextureFormat::Rgba16Sint)
    } else if k == "rgba16unorm"@ {
        Some(TextureFormat::Rgba16Unorm)
    } else if k == "rgba16snorm"@ {
        Some(TextureFormat::Rgba16Snorm)
    } else if k == "rgba16float"@ {
        Some(TextureFormat::Rgba16Float)
    } else if k == "rgba32uint"@ {
        Some(TextureFormat::Rgba32Uint)
    } else if k == "rgba32sint"@ {
        Some(TextureFormat::Rgba32Sint)
    } else if k == "rgba32float"@ {
        Some(TextureFormat::Rgba32Float)
    } else if k == "depth32float"@ {
        Some(TextureFormat::Depth32Float)
    } else if k == "depth32floatstencil8"@ {
        Some(TextureFormat::Depth32FloatStencil8)
    } else if k == "depth16unorm"@ {
        Some(TextureFormat::Depth16Unorm)
    } else if k == "depth24plus"@ {
        Some(TextureFormat::Depth24Plus)
    } else if k == "depth24plusstencil8"@ {
        Some(TextureFormat::Depth24PlusStencil8)
    } else if k == "rgb9e5ufloat"@ {
        Some(TextureFormat::Rgb9e5Ufloat)
    } else if k == "bc1rgbaunorm"@ {
        Some(TextureFormat::Bc1RgbaUnorm)
    } else if k == "bc1rgbaunormsrgb"@ {
        Some(TextureFormat::Bc1RgbaUnormSrgb)
    } else if k == "bc2rgbaunorm"@ {
        Some(TextureFormat::Bc2RgbaUnorm)
    } else if k == "bc2rgbaunormsrgb"@ {
        Some(TextureFormat::Bc2RgbaUnormSrgb)
    } else if k == "bc3rgbaunorm"@ {
        Some(TextureFormat::Bc3RgbaUnorm)
    } else if k == "bc3rgbaunormsrgb"@ {
        Some(TextureFormat::Bc3RgbaUnormSrgb)
    } else if k == "bc4runorm"@ {
        Some(TextureFormat::Bc4RUnorm)
    } else if k == "bc4rsnorm"@ {
        Some(TextureFormat::Bc4RSnorm)
    } else if k == "bc5rgunorm"@ {
        Some(TextureFormat::Bc5RgUnorm)
    } else if k == "bc5rgsnorm"@ {
        Some(TextureFormat::Bc5RgSnorm)
    } else if k == "bc6hrgbufloat"@ {
        Some(TextureFormat::Bc6hRgbUfloat)
    } else if k == "bc6hrgbfloat"@ {
        Some(TextureFormat::Bc6hRgbSfloat)
    } else if k == "bc7rgbaunorm"@ {
        Some(TextureFormat::Bc7RgbaUnorm)
    } else if k == "bc7rgbaunormsrgb"@ {
        Some(TextureFormat::Bc7RgbaUnormSrgb)
    } else if k == "etc2rgb8unorm"@ {
        Some(TextureFormat::Etc2Rgb8Unorm)
    } else if k == "etc2rgb8unormsrgb"@ {
        Some(TextureFormat::Etc2Rgb8UnormSrgb)
    } else if k == "etc2rgb8a1unorm"@ {
        Some(TextureFormat::Etc2Rgb8A1Unorm)
    } else if k == "etc2rgb8a1unormsrgb"@ {
        Some(TextureFormat::Etc2Rgb8A1UnormSrgb)
    } else if k == "etc2rgba8unorm"@ {
        Some(TextureFormat::Etc2Rgba8Unorm)
    } else if k == "etc2rgba8unormsrgb"@ {
        Some(TextureFormat::Etc2Rgba8UnormSrgb)
    } else if k == "eacr11unorm"@ {
        Some(TextureFormat::EacR11Unorm)
    } else if k == "eacr11snorm"@ {
        Some(TextureFormat::EacR11Snorm)
    } else if k == "eacrg11unorm"@ {
        Some(TextureFormat::EacRg11Unorm)
    } else if k == "eacrg11snorm"@ {
        Some(TextureFormat::EacRg11Snorm)
    } else {
        None
    }
}

/// Every format, each once, in catalog order.
pub open spec fn all_formats() -> Seq<TextureFormat> {
    seq![
        TextureFormat::R8Unorm,
        TextureFormat::R8Snorm,
        TextureFormat::R8Uint,
        TextureFormat::R8Sint,
        TextureFormat::R16Uint,
        TextureFormat::R16Sint,
        TextureFormat::R16Unorm,
        TextureFormat::R16Snorm,
        TextureFormat::R16Float,
        TextureFormat::Rg8Unorm,
        TextureFormat::Rg8Snorm,
        TextureFormat::Rg8Uint,
        TextureFormat::Rg8Sint,
        TextureFormat::R32Uint,
        TextureFormat::R32Sint,
        TextureFormat::R32Float,
        TextureFormat::Rg16Uint,
        TextureFormat::Rg16Sint,
        TextureFormat::Rg16Unorm,
        TextureFormat::Rg16Snorm,
        TextureFormat::Rg16Float,
        TextureFormat::Rgba8Unorm,
        TextureFormat::Rgba8UnormSrgb,
        TextureFormat::Rgba8Snorm,
        TextureFormat::Rgba8Uint,
        TextureFormat::Rgba8Sint,
        TextureFormat::Bgra8Unorm,
        TextureFormat::Bgra8UnormSrgb,
        TextureFormat::Rgb10a2Unorm,
        TextureFormat::Rg11b10Float,
        TextureFormat::Rg32Uint,
        TextureFormat::Rg32Sint,
        TextureFormat::Rg32Float,
        TextureFormat::Rgba16Uint,
        TextureFormat::Rgba16Sint,
        TextureFormat::Rgba16Unorm,
        TextureFormat::Rgba16Snorm,
        TextureFormat::Rgba16Float,
        TextureFormat::Rgba32Uint,
        TextureFormat::Rgba32Sint,
        TextureFormat::Rgba32Float,
        TextureFormat::Depth32Float,
        TextureFormat::Depth32FloatStencil8,
        TextureFormat::Depth16Unorm,
        TextureFormat::Depth24Plus,
        TextureFormat::Depth24PlusStencil8,
        TextureFormat::Rgb9e5Ufloat,
        TextureFormat::Bc1RgbaUnorm,
        TextureFormat::Bc1RgbaUnormSrgb,
        TextureFormat::Bc2RgbaUnorm,
        TextureFormat::Bc2RgbaUnormSrgb,
        TextureFormat::Bc3RgbaUnorm,
        TextureFormat::Bc3RgbaUnormSrgb,
        TextureFormat::Bc4RUnorm,
        TextureFormat::Bc4RSnorm,
        TextureFormat::Bc5RgUnorm,
        TextureFormat::Bc5RgSnorm,
        TextureFormat::Bc6hRgbUfloat,
        TextureFormat::Bc6hRgbSfloat,
        TextureFormat::Bc7RgbaUnorm,
        TextureFormat::Bc7RgbaUnormSrgb,
        TextureFormat::Etc2Rgb8Unorm,
        TextureFormat::Etc2Rgb8UnormSrgb,
        TextureFormat::Etc2Rgb8A1Unorm,
        TextureFormat::Etc2Rgb8A1UnormSrgb,
        TextureFormat::Etc2Rgba8Unorm,
        TextureFormat::Etc2Rgba8UnormSrgb,
        TextureFormat::EacR11Unorm,
        TextureFormat::EacR11Snorm,
        TextureFormat::EacRg11Unorm,
        TextureFormat::EacRg11Snorm,
    ]
}

impl TextureFormat {
    /// The lowercase name under which this format is listed.
    pub fn key(&self) -> (r: &'static str)
        ensures
            r@ == canonical_key(*self),
    {
        match self {
            TextureFormat::R8Unorm => "r8unorm",
            TextureFormat::R8Snorm => "r8snorm",
            TextureFormat::R8Uint => "r8uint",
            TextureFormat::R8Sint => "r8sint",
            TextureFormat::R16Uint => "r16uint",
            TextureFormat::R16Sint => "r16sint",
            TextureFormat::R16Unorm => "r16unorm",
            TextureFormat::R16Snorm => "r16snorm",
            TextureFormat::R16Float => "r16float",
            TextureFormat::Rg8Unorm => "rg8unorm",
            TextureFormat::Rg8Snorm => "rg8snorm",
            TextureFormat::Rg8Uint => "rg8uint",
            TextureFormat::Rg8Sint => "rg8sint",
            TextureFormat::R32Uint => "r32uint",
            TextureFormat::R32Sint => "r32sint",
            TextureFormat::R32Float => "r32float",
            TextureFormat::Rg16Uint => "rg16uint",
            TextureFormat::Rg16Sint => "rg16sint",
            TextureFormat::Rg16Unorm => "rg16unorm",
            TextureFormat::Rg16Snorm => "rg16snorm",
            TextureFormat::Rg16Float => "rg16float",
            TextureFormat::Rgba8Unorm => "rgba8unorm",
            TextureFormat::Rgba8UnormSrgb => "rgba8unormsrgb",
            TextureFormat::Rgba8Snorm => "rgba8snorm",
            TextureFormat::Rgba8Uint => "rgba8uint",
            TextureFormat::Rgba8Sint => "rgba8sint",
            TextureFormat::Bgra8Unorm => "bgra8unorm",
            TextureFormat::Bgra8UnormSrgb => "bgra8unormsrgb",
            TextureFormat::Rgb10a2Unorm => "rgb10a2unorm",
            TextureFormat::Rg11b10Float => "rg11b10ufloat",
            TextureFormat::Rg32Uint => "rg32uint",
            TextureFormat::Rg32Sint => "rg32sint",
            TextureFormat::Rg32Float => "rg32float",
            TextureFormat::Rgba16Uint => "rgba16uint",
            TextureFormat::Rgba16Sint => "rgba16sint",
            TextureFormat::Rgba16Unorm => "rgba16unorm",
            TextureFormat::Rgba16Snorm => "rgba16snorm",
            TextureFormat::Rgba16Float => "rgba16float",
            TextureFormat::Rgba32Uint => "rgba32uint",
            TextureFormat::Rgba32Sint => "rgba32sint",
            TextureFormat::Rgba32Float => "rgba32float",
            TextureFormat::Depth32Float => "depth32float",
            TextureFormat::Depth32FloatStencil8 => "depth32floatstencil8",
            TextureFormat::Depth16Unorm => "depth16unorm",
            TextureFormat::Depth24Plus => "depth24plus",
            TextureFormat::Depth24PlusStencil8 => "depth24plusstencil8",
            TextureFormat::Rgb9e5Ufloat => "rgb9e5ufloat",
            TextureFormat::Bc1RgbaUnorm => "bc1rgbaunorm",
            TextureFormat::Bc1RgbaUnormSrgb => "bc1rgbaunormsrgb",
            TextureFormat::Bc2RgbaUnorm => "bc2rgbaunorm",
            TextureFormat::Bc2RgbaUnormSrgb => "bc2rgbaunormsrgb",
            TextureFormat::Bc3RgbaUnorm => "bc3rgbaunorm",
            TextureFormat::Bc3RgbaUnormSrgb => "bc3rgbaunormsrgb",
            TextureFormat::Bc4RUnorm => "bc4runorm",
            TextureFormat::Bc4RSnorm => "bc4rsnorm",
            TextureFormat::Bc5RgUnorm => "bc5rgunorm",
            TextureFormat::Bc5RgSnorm => "bc5rgsnorm",
            TextureFormat::Bc6hRgbUfloat => "bc6hrgbufloat",
            TextureFormat::Bc6hRgbSfloat => "bc6hrgbfloat",
            TextureFormat::Bc7RgbaUnorm => "bc7rgbaunorm",
            TextureFormat::Bc7RgbaUnormSrgb => "bc7rgbaunormsrgb",
            TextureFormat::Etc2Rgb8Unorm => "etc2rgb8unorm",
            TextureFormat::Etc2Rgb8UnormSrgb => "etc2rgb8unormsrgb",
            TextureFormat::Etc2Rgb8A1Unorm => "etc2rgb8a1unorm",
            TextureFormat::Etc2Rgb8A1UnormSrgb => "etc2rgb8a1unormsrgb",
            TextureFormat::Etc2Rgba8Unorm => "etc2rgba8unorm",
            TextureFormat::Etc2Rgba8UnormSrgb => "etc2rgba8unormsrgb",
            TextureFormat::EacR11Unorm => "eacr11unorm",
            TextureFormat::EacR11Snorm => "eacr11snorm",
            TextureFormat::EacRg11Unorm => "eacrg11unorm",
            TextureFormat::EacRg11Snorm => "eacrg11snorm",
        }
    }
}

/// Every format that has a name, each once.
pub fn catalog() -> (r: Vec<TextureFormat>)
    ensures
        r@ == all_formats(),
        r@.no_duplicates(),
        forall|f: TextureFormat| r@.contains(f),
{
    let r: Vec<TextureFormat> = vec![
        TextureFormat::R8Unorm,
        TextureFormat::R8Snorm,
        TextureFormat::R8Uint,
        TextureFormat::R8Sint,
        TextureFormat::R16Uint,
        TextureFormat::R16Sint,
        TextureFormat::R16Unorm,
        TextureFormat::R16Snorm,
        TextureFormat::R16Float,
        TextureFormat::Rg8Unorm,
        TextureFormat::Rg8Snorm,
        TextureFormat::Rg8Uint,
        TextureFormat::Rg8Sint,
        TextureFormat::R32Uint,
        TextureFormat::R32Sint,
        TextureFormat::R32Float,
        TextureFormat::Rg16Uint,
        TextureFormat::Rg16Sint,
        TextureFormat::Rg16Unorm,
        TextureFormat::Rg16Snorm,
        TextureFormat::Rg16Float,
        TextureFormat::Rgba8Unorm,
        TextureFormat::Rgba8UnormSrgb,
        TextureFormat::Rgba8Snorm,
        TextureFormat::Rgba8Uint,
        TextureFormat::Rgba8Sint,
        TextureFormat::Bgra8Unorm,
        TextureFormat::Bgra8UnormSrgb,
        TextureFormat::Rgb10a2Unorm,
        TextureFormat::Rg11b10Float,
        TextureFormat::Rg32Uint,
        TextureFormat::Rg32Sint,
        TextureFormat::Rg32Float,
        TextureFormat::Rgba16Uint,
        TextureFormat::Rgba16Sint,
        TextureFormat::Rgba16Unorm,
        TextureFormat::Rgba16Snorm,
        TextureFormat::Rgba16Float,
        TextureFormat::Rgba32Uint,
        TextureFormat::Rgba32Sint,
        TextureFormat::Rgba32Float,
        TextureFormat::Depth32Float,
        TextureFormat::Depth32FloatStencil8,
        TextureFormat::Depth16Unorm,
        TextureFormat::Depth24Plus,
        TextureFormat::Depth24PlusStencil8,
        TextureFormat::Rgb9e5Ufloat,
        TextureFormat::Bc1RgbaUnorm,
        TextureFormat::Bc1RgbaUnormSrgb,
        TextureFormat::Bc2RgbaUnorm,
        TextureFormat::Bc2RgbaUnormSrgb,
        TextureFormat::Bc3RgbaUnorm,
        TextureFormat::Bc3RgbaUnormSrgb,
        TextureFormat::Bc4RUnorm,
        TextureFormat::Bc4RSnorm,
        TextureFormat::Bc5RgUnorm,
        TextureFormat::Bc5RgSnorm,
        TextureFormat::Bc6hRgbUfloat,
        TextureFormat::Bc6hRgbSfloat,
        TextureFormat::Bc7RgbaUnorm,
        TextureFormat::Bc7RgbaUnormSrgb,
        TextureFormat::Etc2Rgb8Unorm,
        TextureFormat::Etc2Rgb8UnormSrgb,
        TextureFormat::Etc2Rgb8A1Unorm,
        TextureFormat::Etc2Rgb8A1UnormSrgb,
        TextureFormat::Etc2Rgba8Unorm,
        TextureFormat::Etc2Rgba8UnormSrgb,
        TextureFormat::EacR11Unorm,
        TextureFormat::EacR11Snorm,
        TextureFormat::EacRg11Unorm,
        TextureFormat::EacRg11Snorm,
    ];
    assert(r@ =~= all_formats());
    proof {
        lemma_all_formats_complete();
    }
    r
}

/// The catalog lists each format exactly once.
pub proof fn lemma_all_formats_complete()
    ensures
        all_formats().no_duplicates(),
        forall|f: TextureFormat| all_formats().contains(f),
{
    assert forall|f: TextureFormat| all_formats().contains(f) by {
        match f {
            TextureFormat::R8Unorm => assert(all_formats()[0] == f),
            TextureFormat::R8Snorm => assert(all_formats()[1] == f),
            TextureFormat::R8Uint => assert(all_formats()[2] == f),
            TextureFormat::R8Sint => assert(all_formats()[3] == f),
            TextureFormat::R16Uint => assert(all_formats()[4] == f),
            TextureFormat::R16Sint => assert(all_formats()[5] == f),
            TextureFormat::R16Unorm => assert(all_formats()[6] == f),
            TextureFormat::R16Snorm => assert(all_formats()[7] == f),
            TextureFormat::R16Float => assert(all_formats()[8] == f),
            TextureFormat::Rg8Unorm => assert(all_formats()[9] == f),
            TextureFormat::Rg8Snorm => assert(all_formats()[10] == f),
            TextureFormat::Rg8Uint => assert(all_formats()[11] == f),
            TextureFormat::Rg8Sint => assert(all_formats()[12] == f),
            TextureFormat::R32Uint => assert(all_formats()[13] == f),
            TextureFormat::R32Sint => assert(all_formats()[14] == f),
            TextureFormat::R32Float => assert(all_formats()[15] == f),
            TextureFormat::Rg16Uint => assert(all_formats()[16] == f),
            TextureFormat::Rg16Sint => assert(all_formats()[17] == f),
            TextureFormat::Rg16Unorm => assert(all_formats()[18] == f),
            TextureFormat::Rg16Snorm => assert(all_formats()[19] == f),
            TextureFormat::Rg16Float => assert(all_formats()[20] == f),
            TextureFormat::Rgba8Unorm => assert(all_formats()[21] == f),
            TextureFormat::Rgba8UnormSrgb => assert(all_formats()[22] == f),
            TextureFormat::Rgba8Snorm => assert(all_formats()[23] == f),
            TextureFormat::Rgba8Uint => assert(all_formats()[24] == f),
            TextureFormat::Rgba8Sint => assert(all_formats()[25] == f),
            TextureFormat::Bgra8Unorm => assert(all_formats()[26] == f),
            TextureFormat::Bgra8UnormSrgb => assert(all_formats()[27] == f),
            TextureFormat::Rgb10a2Unorm => assert(all_formats()[28] == f),
            TextureFormat::Rg11b10Float => assert(all_formats()[29] == f),
            TextureFormat::Rg32Uint => assert(all_formats()[30] == f),
            TextureFormat::Rg32Sint => assert(all_formats()[31] == f),
            TextureFormat::Rg32Float => assert(all_formats()[32] == f),
            TextureFormat::Rgba16Uint => assert(all_formats()[33] == f),
            TextureFormat::Rgba16Sint => assert(all_formats()[34] == f),
            TextureFormat::Rgba16Unorm => assert(all_formats()[35] == f),
            TextureFormat::Rgba16Snorm => assert(all_formats()[36] == f),
            TextureFormat::Rgba16Float => assert(all_formats()[37] == f),
            TextureFormat::Rgba32Uint => assert(all_formats()[38] == f),
            TextureFormat::Rgba32Sint => assert(all_formats()[39] == f),
            TextureFormat::Rgba32Float => assert(all_formats()[40] == f),
            TextureFormat::Depth32Float => assert(all_formats()[41] == f),
            TextureFormat::Depth32FloatStencil8 => assert(all_formats()[42] == f),
            TextureFormat::Depth16Unorm => assert(all_formats()[43] == f),
            TextureFormat::Depth24Plus => assert(all_formats()[44] == f),
            TextureFormat::Depth24PlusStencil8 => assert(all_formats()[45] == f),
            TextureFormat::Rgb9e5Ufloat => assert(all_formats()[46] == f),
            TextureFormat::Bc1RgbaUnorm => assert(all_formats()[47] == f),
            TextureFormat::Bc1RgbaUnormSrgb => assert(all_formats()[48] == f),
            TextureFormat::Bc2RgbaUnorm => assert(all_formats()[49] == f),
            TextureFormat::Bc2RgbaUnormSrgb => assert(all_formats()[50] == f),
            TextureFormat::Bc3RgbaUnorm => assert(all_formats()[51] == f),
            TextureFormat::Bc3RgbaUnormSrgb => assert(all_formats()[52] == f),
            TextureFormat::Bc4RUnorm => assert(all_formats()[53] == f),
            TextureFormat::Bc4RSnorm => assert(all_formats()[54] == f),
            TextureFormat::Bc5RgUnorm => assert(all_formats()[55] == f),
            TextureFormat::Bc5RgSnorm => assert(all_formats()[56] == f),
            TextureFormat::Bc6hRgbUfloat => assert(all_formats()[57] == f),
            TextureFormat::Bc6hRgbSfloat => assert(all_formats()[58] == f),
            TextureFormat::Bc7RgbaUnorm => assert(all_formats()[59] == f),
            TextureFormat::Bc7RgbaUnormSrgb => assert(all_formats()[60] == f),
            TextureFormat::Etc2Rgb8Unorm => assert(all_formats()[61] == f),
            TextureFormat::Etc2Rgb8UnormSrgb => assert(all_formats()[62] == f),
            TextureFormat::Etc2Rgb8A1Unorm => assert(all_formats()[63] == f),
            TextureFormat::Etc2Rgb8A1UnormSrgb => assert(all_formats()[64] == f),
            TextureFormat::Etc2Rgba8Unorm => assert(all_formats()[65] == f),
            TextureFormat::Etc2Rgba8UnormSrgb => assert(all_formats()[66] == f),
            TextureFormat::EacR11Unorm => assert(all_formats()[67] == f),
            TextureFormat::EacR11Snorm => assert(all_formats()[68] == f),
            TextureFormat::EacRg11Unorm => assert(all_formats()[69] == f),
            TextureFormat::EacRg11Snorm => assert(all_formats()[70] == f),
        }
    }
}

/// Resolves a name that is already lowercase.
pub fn texture_from_lowercase(s: &str) -> (r: Option<TextureFormat>)
    ensures
        r == format_of_key(s@),
{
    if same_text(s, "r8unorm") {
        Some(TextureFormat::R8Unorm)
    } else if same_text(s, "r8snorm") {
        Some(TextureFormat::R8Snorm)
    } else if same_text(s, "r8uint") {
        Some(TextureFormat::R8Uint)
    } else if same_text(s, "r8sint") {
        Some(TextureFormat::R8Sint)
    } else if same_text(s, "r16uint") {
        Some(TextureFormat::R16Uint)
    } else if same_text(s, "r16sint") {
        Some(TextureFormat::R16Sint)
    } else if same_text(s, "r16unorm") {
        Some(TextureFormat::R16Unorm)
    } else if same_text(s, "r16snorm") {
        Some(TextureFormat::R16Snorm)
    } else if same_text(s, "r16float") {
        Some(TextureFormat::R16Float)
    } else if same_text(s, "rg8unorm") {
        Some(TextureFormat::Rg8Unorm)
    } else if same_text(s, "rg8snorm") {
        Some(TextureFormat::Rg8Snorm)
    } else if same_text(s, "rg8uint") {
        Some(TextureFormat::Rg8Uint)
    } else if same_text(s, "rg8sint") {
        Some(TextureFormat::Rg8Sint)
    } else if same_text(s, "r32uint") {
        Some(TextureFormat::R32Uint)
    } else if same_text(s, "r32sint") {
        Some(TextureFormat::R32Sint)
    } else if same_text(s, "r32float") {
        Some(TextureFormat::R32Float)
    } else if same_text(s, "rg16uint") {
        Some(TextureFormat::Rg16Uint)
    } else if same_text(s, "rg16sint") {
        Some(TextureFormat::Rg16Sint)
    } else if same_text(s, "rg16unorm") {
        Some(TextureFormat::Rg16Unorm)
    } else if same_text(s, "rg16snorm") {
        Some(TextureFormat::Rg16Snorm)
    } else if same_text(s, "rg16float") {
        Some(TextureFormat::Rg16Float)
    } else if same_text(s, "rgba8unorm") {
        Some(TextureFormat::Rgba8Unorm)
    } else if same_text(s, "rgba8unormsrgb") {
        Some(TextureFormat::Rgba8UnormSrgb)
    } else if same_text(s, "rgba8snorm") {
        Some(TextureFormat::Rgba8Snorm)
    } else if same_text(s, "rgba8uint") {
        Some(TextureFormat::Rgba8Uint)
    } else if same_text(s, "rgba8sint") {
        Some(TextureFormat::Rgba8Sint)
    } else if same_text(s, "bgra8unorm") {
        Some(TextureFormat::Bgra8Unorm)
    } else if same_text(s, "bgra8unormsrgb") {
        Some(TextureFormat::Bgra8UnormSrgb)
    } else if same_text(s, "rgb10a2unorm") {
        Some(TextureFormat::Rgb10a2Unorm)
    } else if same_text(s, "rg11b10ufloat") {
        Some(TextureFormat::Rg11b10Float)
    } else if same_text(s, "rg32uint") {
        Some(TextureFormat::Rg32Uint)
    } else if same_text(s, "rg32sint") {
        Some(TextureFormat::Rg32Sint)
    } else if same_text(s, "rg32float") {
        Some(TextureFormat::Rg32Float)
    } else if same_text(s, "rgba16uint") {
        Some(TextureFormat::Rgba16Uint)
    } else if same_text(s, "rgba16sint") {
        Some(TextureFormat::Rgba16Sint)
    } else if same_text(s, "rgba16unorm") {
        Some(TextureFormat::Rgba16Unorm)
    } else if same_text(s, "rgba16snorm") {
        Some(TextureFormat::Rgba16Snorm)
    } else if same_text(s, "rgba16float") {
        Some(TextureFormat::Rgba16Float)
    } else if same_text(s, "rgba32uint") {
        Some(TextureFormat::Rgba32Uint)
    } else if same_text(s, "rgba32sint") {
        Some(TextureFormat::Rgba32Sint)
    } else if same_text(s, "rgba32float") {
        Some(TextureFormat::Rgba32Float)
    } else if same_text(s, "depth32float") {
        Some(TextureFormat::Depth32Float)
    } else if same_text(s, "depth32floatstencil8") {
        Some(TextureFormat::Depth32FloatStencil8)
    } else if same_text(s, "depth16unorm") {
        Some(TextureFormat::Depth16Unorm)
    } else if same_text(s, "depth24plus") {
        Some(TextureFormat::Depth24Plus)
    } else if same_text(s, "depth24plusstencil8") {
        Some(TextureFormat::Depth24PlusStencil8)
    } else if same_text(s, "rgb9e5ufloat") {
        Some(TextureFormat::Rgb9e5Ufloat)
    } else if same_text(s, "bc1rgbaunorm") {
        Some(TextureFormat::Bc1RgbaUnorm)
    } else if same_text(s, "bc1rgbaunormsrgb") {
        Some(TextureFormat::Bc1RgbaUnormSrgb)
    } else if same_text(s, "bc2rgbaunorm") {
        Some(TextureFormat::Bc2RgbaUnorm)
    } else if same_text(s, "bc2rgbaunormsrgb") {
        Some(TextureFormat::Bc2RgbaUnormSrgb)
    } else if same_text(s, "bc3rgbaunorm") {
        Some(TextureFormat::Bc3RgbaUnorm)
    } else if same_text(s, "bc3rgbaunormsrgb") {
        Some(TextureFormat::Bc3RgbaUnormSrgb)
    } else if same_text(s, "bc4runorm") {
        Some(TextureFormat::Bc4RUnorm)
    } else if same_text(s, "bc4rsnorm") {
        Some(TextureFormat::Bc4RSnorm)
    } else if same_text(s, "bc5rgunorm") {
        Some(TextureFormat::Bc5RgUnorm)
    } else if same_text(s, "bc5rgsnorm") {
        Some(TextureFormat::Bc5RgSnorm)
    } else if same_text(s, "bc6hrgbufloat") {
        Some(TextureFormat::Bc6hRgbUfloat)
    } else if same_text(s, "bc6hrgbfloat") {
        Some(TextureFormat::Bc6hRgbSfloat)
    } else if same_text(s, "bc7rgbaunorm") {
        Some(TextureFormat::Bc7RgbaUnorm)
    } else if same_text(s, "bc7rgbaunormsrgb") {
        Some(TextureFormat::Bc7RgbaUnormSrgb)
    } else if same_text(s, "etc2rgb8unorm") {
        Some(TextureFormat::Etc2Rgb8Unorm)
    } else if same_text(s, "etc2rgb8unormsrgb") {
        Some(TextureFormat::Etc2Rgb8UnormSrgb)
    } else if same_text(s, "etc2rgb8a1unorm") {
        Some(TextureFormat::Etc2Rgb8A1Unorm)
    } else if same_text(s, "etc2rgb8a1unormsrgb") {
        Some(TextureFormat::Etc2Rgb8A1UnormSrgb)
    } else if same_text(s, "etc2rgba8unorm") {
        Some(TextureFormat::Etc2Rgba8Unorm)
    } else if same_text(s, "etc2rgba8unormsrgb") {
        Some(TextureFormat::Etc2Rgba8UnormSrgb)
    } else if same_text(s, "eacr11unorm") {
        Some(TextureFormat::EacR11Unorm)
    } else if same_text(s, "eacr11snorm") {
        Some(TextureFormat::EacR11Snorm)
    } else if same_text(s, "eacrg11unorm") {
        Some(TextureFormat::EacRg11Unorm)
    } else if same_text(s, "eacrg11snorm") {
        Some(TextureFormat::EacRg11Snorm)
    } else {
        None
    }
}

/// A name resolves to a format exactly when it is that format's key: each key
/// resolves to its own format, and no other name resolves to it.
pub proof fn lemma_resolves_exactly(k: Seq<char>, f: TextureFormat)
    ensures
        (format_of_key(k) == Some(f)) == (k == canonical_key(f)),
{
    reveal_strlit("r8unorm");
    reveal_strlit("r8snorm");
    reveal_strlit("r8uint");
    reveal_strlit("r8sint");
    reveal_strlit("r16uint");
    reveal_strlit("r16sint");
    reveal_strlit("r16unorm");
    reveal_strlit("r16snorm");
    reveal_strlit("r16float");
    reveal_strlit("rg8unorm");
    reveal_strlit("rg8snorm");
    reveal_strlit("rg8uint");
    reveal_strlit("rg8sint");
    reveal_strlit("r32uint");
    reveal_strlit("r32sint");
    reveal_strlit("r32float");
    reveal_strlit("rg16uint");
    reveal_strlit("rg16sint");
    reveal_strlit("rg16unorm");
    reveal_strlit("rg16snorm");
    reveal_strlit("rg16float");
    reveal_strlit("rgba8unorm");
    reveal_strlit("rgba8unormsrgb");
    reveal_strlit("rgba8snorm");
    reveal_strlit("rgba8uint");
    reveal_strlit("rgba8sint");
    reveal_strlit("bgra8unorm");
    reveal_strlit("bgra8unormsrgb");
    reveal_strlit("rgb10a2unorm");
    reveal_strlit("rg11b10ufloat");
    reveal_strlit("rg32uint");
    reveal_strlit("rg32sint");
    reveal_strlit("rg32float");
    reveal_strlit("rgba16uint");
    reveal_strlit("rgba16sint");
    reveal_strlit("rgba16unorm");
    reveal_strlit("rgba16snorm");
    reveal_strlit("rgba16float");
    reveal_strlit("rgba32uint");
    reveal_strlit("rgba32sint");
    reveal_strlit("rgba32float");
    reveal_strlit("depth32float");
    reveal_strlit("depth32floatstencil8");
    reveal_strlit("depth16unorm");
    reveal_strlit("depth24plus");
    reveal_strlit("depth24plusstencil8");
    reveal_strlit("rgb9e5ufloat");
    reveal_strlit("bc1rgbaunorm");
    reveal_strlit("bc1rgbaunormsrgb");
    reveal_strlit("bc2rgbaunorm");
    reveal_strlit("bc2rgbaunormsrgb");
    reveal_strlit("bc3rgbaunorm");
    reveal_strlit("bc3rgbaunormsrgb");
    reveal_strlit("bc4runorm");
    reveal_strlit("bc4rsnorm");
    reveal_strlit("bc5rgunorm");
    reveal_strlit("bc5rgsnorm");
    reveal_strlit("bc6hrgbufloat");
    reveal_strlit("bc6hrgbfloat");
    reveal_strlit("bc7rgbaunorm");
    reveal_strlit("bc7rgbaunormsrgb");
    reveal_strlit("etc2rgb8unorm");
    reveal_strlit("etc2rgb8unormsrgb");
    reveal_strlit("etc2rgb8a1unorm");
    reveal_strlit("etc2rgb8a1unormsrgb");
    reveal_strlit("etc2rgba8unorm");
    reveal_strlit("etc2rgba8unormsrgb");
    reveal_strlit("eacr11unorm");
    reveal_strlit("eacr11snorm");
    reveal_strlit("eacrg11unorm");
    reveal_strlit("eacrg11snorm");
    // The length of each key, and the characters that tell it apart from the
    // earlier keys of the same length.
    assert("r8unorm"@.len() == 7 && "r8unorm"@[1] == '8' && "r8unorm"@[2] == 'u');
    assert("r8snorm"@.len() == 7 && "r8snorm"@[1] == '8' && "r8snorm"@[2] == 's');
    assert("r8uint"@.len() == 6 && "r8uint"@[2] == 'u');
    assert("r8sint"@.len() == 6 && "r8sint"@[2] == 's');
    assert("r16uint"@.len() == 7 && "r16uint"@[1] == '1' && "r16uint"@[3] == 'u');
    assert("r16sint"@.len() == 7 && "r16sint"@[1] == '1' && "r16sint"@[3] == 's');
    assert("r16unorm"@.len() == 8 && "r16unorm"@[1] == '1' && "r16unorm"@[3] == 'u');
    assert("r16snorm"@.len() == 8 && "r16snorm"@[1] == '1' && "r16snorm"@[3] == 's');
    assert("r16float"@.len() == 8 && "r16float"@[1] == '1' && "r16float"@[3] == 'f');
    assert("rg8unorm"@.len() == 8 && "rg8unorm"@[1] == 'g' && "rg8unorm"@[2] == '8' && "rg8unorm"@[3] == 'u');
    assert("rg8snorm"@.len() == 8 && "rg8snorm"@[1] == 'g' && "rg8snorm"@[2] == '8' && "rg8snorm"@[3] == 's');
    assert("rg8uint"@.len() == 7 && "rg8uint"@[1] == 'g' && "rg8uint"@[3] == 'u');
    assert("rg8sint"@.len() == 7 && "rg8sint"@[1] == 'g' && "rg8sint"@[3] == 's');
    assert("r32uint"@.len() == 7 && "r32uint"@[1] == '3' && "r32uint"@[3] == 'u');
    assert("r32sint"@.len() == 7 && "r32sint"@[1] == '3' && "r32sint"@[3] == 's');
    assert("r32float"@.len() == 8 && "r32float"@[1] == '3');
    assert("rg16uint"@.len() == 8 && "rg16uint"@[1] == 'g' && "rg16uint"@[2] == '1' && "rg16uint"@[4] == 'u');
    assert("rg16sint"@.len() == 8 && "rg16sint"@[1] == 'g' && "rg16sint"@[2] == '1' && "rg16sint"@[4] == 's');
    assert("rg16unorm"@.len() == 9 && "rg16unorm"@[0] == 'r' && "rg16unorm"@[2] == '1' && "rg16unorm"@[4] == 'u');
    assert("rg16snorm"@.len() == 9 && "rg16snorm"@[0] == 'r' && "rg16snorm"@[2] == '1' && "rg16snorm"@[4] == 's');
    assert("rg16float"@.len() == 9 && "rg16float"@[0] == 'r' && "rg16float"@[2] == '1' && "rg16float"@[4] == 'f');
    assert("rgba8unorm"@.len() == 10 && "rgba8unorm"@[0] == 'r' && "rgba8unorm"@[4] == '8' && "rgba8unorm"@[5] == 'u');
    assert("rgba8unormsrgb"@.len() == 14 && "rgba8unormsrgb"@[0] == 'r');
    assert("rgba8snorm"@.len() == 10 && "rgba8snorm"@[0] == 'r' && "rgba8snorm"@[4] == '8' && "rgba8snorm"@[5] == 's');
    assert("rgba8uint"@.len() == 9 && "rgba8uint"@[0] == 'r' && "rgba8uint"@[2] == 'b' && "rgba8uint"@[5] == 'u');
    assert("rgba8sint"@.len() == 9 && "rgba8sint"@[0] == 'r' && "rgba8sint"@[2] == 'b' && "rgba8sint"@[5] == 's');
    assert("bgra8unorm"@.len() == 10 && "bgra8unorm"@[0] == 'b' && "bgra8unorm"@[1] == 'g');
    assert("bgra8unormsrgb"@.len() == 14 && "bgra8unormsrgb"@[0] == 'b');
    assert("rgb10a2unorm"@.len() == 12 && "rgb10a2unorm"@[0] == 'r' && "rgb10a2unorm"@[3] == '1');
    assert("rg11b10ufloat"@.len() == 13 && "rg11b10ufloat"@[0] == 'r');
    assert("rg32uint"@.len() == 8 && "rg32uint"@[1] == 'g' && "rg32uint"@[2] == '3' && "rg32uint"@[4] == 'u');
    assert("rg32sint"@.len() == 8 && "rg32sint"@[1] == 'g' && "rg32sint"@[2] == '3' && "rg32sint"@[4] == 's');
    assert("rg32float"@.len() == 9 && "rg32float"@[0] == 'r' && "rg32float"@[2] == '3');
    assert("rgba16uint"@.len() == 10 && "rgba16uint"@[0] == 'r' && "rgba16uint"@[4] == '1' && "rgba16uint"@[6] == 'u');
    assert("rgba16sint"@.len() == 10 && "rgba16sint"@[0] == 'r' && "rgba16sint"@[4] == '1' && "rgba16sint"@[6] == 's');
    assert("rgba16unorm"@.len() == 11 && "rgba16unorm"@[0] == 'r' && "rgba16unorm"@[4] == '1' && "rgba16unorm"@[6] == 'u');
    assert("rgba16snorm"@.len() == 11 && "rgba16snorm"@[0] == 'r' && "rgba16snorm"@[4] == '1' && "rgba16snorm"@[6] == 's');
    assert("rgba16float"@.len() == 11 && "rgba16float"@[0] == 'r' && "rgba16float"@[4] == '1' && "rgba16float"@[6] == 'f');
    assert("rgba32uint"@.len() == 10 && "rgba32uint"@[0] == 'r' && "rgba32uint"@[4] == '3' && "rgba32uint"@[6] == 'u');
    assert("rgba32sint"@.len() == 10 && "rgba32sint"@[0] == 'r' && "rgba32sint"@[4] == '3' && "rgba32sint"@[6] == 's');
    assert("rgba32float"@.len() == 11 && "rgba32float"@[0] == 'r' && "rgba32float"@[4] == '3');
    assert("depth32float"@.len() == 12 && "depth32float"@[0] == 'd' && "depth32float"@[5] == '3');
    assert("depth32floatstencil8"@.len() == 20);
    assert("depth16unorm"@.len() == 12 && "depth16unorm"@[0] == 'd' && "depth16unorm"@[5] == '1');
    assert("depth24plus"@.len() == 11 && "depth24plus"@[0] == 'd');
    assert("depth24plusstencil8"@.len() == 19 && "depth24plusstencil8"@[0] == 'd');
    assert("rgb9e5ufloat"@.len() == 12 && "rgb9e5ufloat"@[0] == 'r' && "rgb9e5ufloat"@[3] == '9');
    assert("bc1rgbaunorm"@.len() == 12 && "bc1rgbaunorm"@[0] == 'b' && "bc1rgbaunorm"@[2] == '1');
    assert("bc1rgbaunormsrgb"@.len() == 16 && "bc1rgbaunormsrgb"@[2] == '1');
    assert("bc2rgbaunorm"@.len() == 12 && "bc2rgbaunorm"@[0] == 'b' && "bc2rgbaunorm"@[2] == '2');
    assert("bc2rgbaunormsrgb"@.len() == 16 && "bc2rgbaunormsrgb"@[2] == '2');
    assert("bc3rgbaunorm"@.len() == 12 && "bc3rgbaunorm"@[0] == 'b' && "bc3rgbaunorm"@[2] == '3');
    assert("bc3rgbaunormsrgb"@.len() == 16 && "bc3rgbaunormsrgb"@[2] == '3');
    assert("bc4runorm"@.len() == 9 && "bc4runorm"@[0] == 'b' && "bc4runorm"@[4] == 'u');
    assert("bc4rsnorm"@.len() == 9 && "bc4rsnorm"@[0] == 'b' && "bc4rsnorm"@[4] == 's');
    assert("bc5rgunorm"@.len() == 10 && "bc5rgunorm"@[0] == 'b' && "bc5rgunorm"@[1] == 'c' && "bc5rgunorm"@[5] == 'u');
    assert("bc5rgsnorm"@.len() == 10 && "bc5rgsnorm"@[0] == 'b' && "bc5rgsnorm"@[1] == 'c' && "bc5rgsnorm"@[5] == 's');
    assert("bc6hrgbufloat"@.len() == 13 && "bc6hrgbufloat"@[0] == 'b');
    assert("bc6hrgbfloat"@.len() == 12 && "bc6hrgbfloat"@[0] == 'b' && "bc6hrgbfloat"@[2] == '6');
    assert("bc7rgbaunorm"@.len() == 12 && "bc7rgbaunorm"@[0] == 'b' && "bc7rgbaunorm"@[2] == '7');
    assert("bc7rgbaunormsrgb"@.len() == 16 && "bc7rgbaunormsrgb"@[2] == '7');
    assert("etc2rgb8unorm"@.len() == 13 && "etc2rgb8unorm"@[0] == 'e');
    assert("etc2rgb8unormsrgb"@.len() == 17);
    assert("etc2rgb8a1unorm"@.len() == 15);
    assert("etc2rgb8a1unormsrgb"@.len() == 19 && "etc2rgb8a1unormsrgb"@[0] == 'e');
    assert("etc2rgba8unorm"@.len() == 14 && "etc2rgba8unorm"@[0] == 'e');
    assert("etc2rgba8unormsrgb"@.len() == 18);
    assert("eacr11unorm"@.len() == 11 && "eacr11unorm"@[0] == 'e' && "eacr11unorm"@[6] == 'u');
    assert("eacr11snorm"@.len() == 11 && "eacr11snorm"@[0] == 'e' && "eacr11snorm"@[6] == 's');
    assert("eacrg11unorm"@.len() == 12 && "eacrg11unorm"@[0] == 'e' && "eacrg11unorm"@[7] == 'u');
    assert("eacrg11snorm"@.len() == 12 && "eacrg11snorm"@[0] == 'e' && "eacrg11snorm"@[7] == 's');
}

/// Every key is non-empty and starts with `r`, `b`, `d` or `e`.
pub proof fn lemma_key_initial(f: TextureFormat)
    ensures
        canonical_key(f).len() > 0,
        canonical_key(f)[0] == 'r' || canonical_key(f)[0] == 'b' || canonical_key(f)[0] == 'd'
            || canonical_key(f)[0] == 'e',
{
    match f {
        TextureFormat::R8Unorm => reveal_strlit("r8unorm"),
        TextureFormat::R8Snorm => reveal_strlit("r8snorm"),
        TextureFormat::R8Uint => reveal_strlit("r8uint"),
        TextureFormat::R8Sint => reveal_strlit("r8sint"),
        TextureFormat::R16Uint => reveal_strlit("r16uint"),
        TextureFormat::R16Sint => reveal_strlit("r16sint"),
        TextureFormat::R16Unorm => reveal_strlit("r16unorm"),
        TextureFormat::R16Snorm => reveal_strlit("r16snorm"),
        TextureFormat::R16Float => reveal_strlit("r16float"),
        TextureFormat::Rg8Unorm => reveal_strlit("rg8unorm"),
        TextureFormat::Rg8Snorm => reveal_strlit("rg8snorm"),
        TextureFormat::Rg8Uint => reveal_strlit("rg8uint"),
        TextureFormat::Rg8Sint => reveal_strlit("rg8sint"),
        TextureFormat::R32Uint => reveal_strlit("r32uint"),
        TextureFormat::R32Sint => reveal_strlit("r32sint"),
        TextureFormat::R32Float => reveal_strlit("r32float"),
        TextureFormat::Rg16Uint => reveal_strlit("rg16uint"),
        TextureFormat::Rg16Sint => reveal_strlit("rg16sint"),
        TextureFormat::Rg16Unorm => reveal_strlit("rg16unorm"),
        TextureFormat::Rg16Snorm => reveal_strlit("rg16snorm"),
        TextureFormat::Rg16Float => reveal_strlit("rg16float"),
        TextureFormat::Rgba8Unorm => reveal_strlit("rgba8unorm"),
        TextureFormat::Rgba8UnormSrgb => reveal_strlit("rgba8unormsrgb"),
        TextureFormat::Rgba8Snorm => reveal_strlit("rgba8snorm"),
        TextureFormat::Rgba8Uint => reveal_strlit("rgba8uint"),
        TextureFormat::Rgba8Sint => reveal_strlit("rgba8sint"),
        TextureFormat::Bgra8Unorm => reveal_strlit("bgra8unorm"),
        TextureFormat::Bgra8UnormSrgb => reveal_strlit("bgra8unormsrgb"),
        TextureFormat::Rgb10a2Unorm => reveal_strlit("rgb10a2unorm"),
        TextureFormat::Rg11b10Float => reveal_strlit("rg11b10ufloat"),
        TextureFormat::Rg32Uint => reveal_strlit("rg32uint"),
        TextureFormat::Rg32Sint => reveal_strlit("rg32sint"),
        TextureFormat::Rg32Float => reveal_strlit("rg32float"),
        TextureFormat::Rgba16Uint => reveal_strlit("rgba16uint"),
        TextureFormat::Rgba16Sint => reveal_strlit("rgba16sint"),
        TextureFormat::Rgba16Unorm => reveal_strlit("rgba16unorm"),
        TextureFormat::Rgba16Snorm => reveal_strlit("rgba16snorm"),
        TextureFormat::Rgba16Float => reveal_strlit("rgba16float"),
        TextureFormat::Rgba32Uint => reveal_strlit("rgba32uint"),
        TextureFormat::Rgba32Sint => reveal_strlit("rgba32sint"),
        TextureFormat::Rgba32Float => reveal_strlit("rgba32float"),
        TextureFormat::Depth32Float => reveal_strlit("depth32float"),
        TextureFormat::Depth32FloatStencil8 => reveal_strlit("depth32floatstencil8"),
        TextureFormat::Depth16Unorm => reveal_strlit("depth16unorm"),
        TextureFormat::Depth24Plus => reveal_strlit("depth24plus"),
        TextureFormat::Depth24PlusStencil8 => reveal_strlit("depth24plusstencil8"),
        TextureFormat::Rgb9e5Ufloat => reveal_strlit("rgb9e5ufloat"),
        TextureFormat::Bc1RgbaUnorm => reveal_strlit("bc1rgbaunorm"),
        TextureFormat::Bc1RgbaUnormSrgb => reveal_strlit("bc1rgbaunormsrgb"),
        TextureFormat::Bc2RgbaUnorm => reveal_strlit("bc2rgbaunorm"),
        TextureFormat::Bc2RgbaUnormSrgb => reveal_strlit("bc2rgbaunormsrgb"),
        TextureFormat::Bc3RgbaUnorm => reveal_strlit("bc3rgbaunorm"),
        TextureFormat::Bc3RgbaUnormSrgb => reveal_strlit("bc3rgbaunormsrgb"),
        TextureFormat::Bc4RUnorm => reveal_strlit("bc4runorm"),
        TextureFormat::Bc4RSnorm => reveal_strlit("bc4rsnorm"),
        TextureFormat::Bc5RgUnorm => reveal_strlit("bc5rgunorm"),
        TextureFormat::Bc5RgSnorm => reveal_strlit("bc5rgsnorm"),
        TextureFormat::Bc6hRgbUfloat => reveal_strlit("bc6hrgbufloat"),
        TextureFormat::Bc6hRgbSfloat => reveal_strlit("bc6hrgbfloat"),
        TextureFormat::Bc7RgbaUnorm => reveal_strlit("bc7rgbaunorm"),
        TextureFormat::Bc7RgbaUnormSrgb => reveal_strlit("bc7rgbaunormsrgb"),
        TextureFormat::Etc2Rgb8Unorm => reveal_strlit("etc2rgb8unorm"),
        TextureFormat::Etc2Rgb8UnormSrgb => reveal_strlit("etc2rgb8unormsrgb"),
        TextureFormat::Etc2Rgb8A1Unorm => reveal_strlit("etc2rgb8a1unorm"),
        TextureFormat::Etc2Rgb8A1UnormSrgb => reveal_strlit("etc2rgb8a1unormsrgb"),
        TextureFormat::Etc2Rgba8Unorm => reveal_strlit("etc2rgba8unorm"),
        TextureFormat::Etc2Rgba8UnormSrgb => reveal_strlit("etc2rgba8unormsrgb"),
        TextureFormat::EacR11Unorm => reveal_strlit("eacr11unorm"),
        TextureFormat::EacR11Snorm => reveal_strlit("eacr11snorm"),
        TextureFormat::EacRg11Unorm => reveal_strlit("eacrg11unorm"),
        TextureFormat::EacRg11Snorm => reveal_strlit("eacrg11snorm"),
    }
}

} // verus!
