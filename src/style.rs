use vstd::prelude::*;

use crate::file::FileExtension;

verus! {

/// A colour as red, green and blue intensities.
#[derive(Debug, Clone, Copy, PartialEq, Eq, Structural)]
pub struct Rgb {
    pub r: u8,
    pub g: u8,
    pub b: u8,
}

/// The colour an extension is drawn in; white for the ones without a colour
/// of their own.
pub open spec fn extension_rgb(e: FileExtension) -> Rgb {
    match e {
        FileExtension::Jpg => Rgb { r: 0, g: 204, b: 255 },
        FileExtension::Webp => Rgb { r: 255, g: 255, b: 153 },
        FileExtension::Png => Rgb { r: 204, g: 153, b: 255 },
        FileExtension::Txt => Rgb { r: 255, g: 204, b: 153 },
        FileExtension::NotImplemented => Rgb { r: 255, g: 255, b: 255 },
    }
}

/// The colour an extension is drawn in.
pub fn get_extension_color(file_extension: FileExtension) -> (r: Rgb)
    ensures
        r == extension_rgb(file_extension),
{
    match file_extension {
        FileExtension::Jpg => Rgb { r: 0, g: 204, b: 255 },
        FileExtension::Webp => Rgb { r: 255, g: 255, b: 153 },
        FileExtension::Png => Rgb { r: 204, g: 153, b: 255 },
        FileExtension::Txt => Rgb { r: 255, g: 204, b: 153 },
        FileExtension::NotImplemented => Rgb { r: 255, g: 255, b: 255 },
    }
}

/// The background of a list row: rows alternate between two shades.
#[derive(Debug, Clone, Copy, PartialEq, Eq, Structural)]
pub enum RowShade {
    Normal,
    Alternate,
}

/// The shade of row `i`: even rows are normal, odd rows alternate.
pub fn alternate_colors(i: usize) -> (r: RowShade)
    ensures
        r == (if i % 2 == 0 { RowShade::Normal } else { RowShade::Alternate }),
{
    if i % 2 == 0 {
        RowShade::Normal
    } else {
        RowShade::Alternate
    }
}

} // verus!
