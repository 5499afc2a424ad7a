//! Turning a rendered bitmap into an `Icon`.
use vstd::prelude::*;

use crate::error::{AppInfoError, FileIconError};
use crate::Icon;

verus! {

/// The 32-bit layouts a platform renderer reports.
#[derive(Debug, Clone, Copy, PartialEq, Eq, Structural)]
pub enum PixelFormat {
    /// Bytes in the order blue, green, red, alpha.
    Bgra32,
    /// Bytes in the order red, green, blue, alpha.
    Rgba32,
    /// Any layout this crate does not convert.
    Other,
}

/// Pixels as a platform renderer handed them back.
#[derive(Debug, Clone)]
pub struct Raster {
    pub format: PixelFormat,
    pub pixels: Vec<u8>,
}

/// The byte a red-first image holds at `i`, given the blue-first bytes `s`:
/// the first and third byte of every four trade places.
pub open spec fn red_first_byte(s: Seq<u8>, i: int) -> u8 {
    if i % 4 == 0 {
        s[i + 2]
    } else if i % 4 == 2 {
        s[i - 2]
    } else {
        s[i]
    }
}

/// `s` with the first and third byte of every pixel exchanged.
pub open spec fn red_first(s: Seq<u8>) -> Seq<u8> {
    Seq::new(s.len(), |i: int| red_first_byte(s, i))
}

/// Number of bytes of a `size` by `size` RGBA bitmap.
pub open spec fn plane_len(size: u16) -> int {
    size * size * 4
}

/// The icon a successful extraction yields from `r` at `size`, if its layout and length
/// are accepted.
pub open spec fn icon_of(size: u16, r: Raster) -> Option<Seq<u8>> {
    if r.format is Other || r.pixels@.len() != plane_len(size) {
        None
    } else if r.format is Bgra32 {
        Some(red_first(r.pixels@))
    } else {
        Some(r.pixels@)
    }
}

/// Exchanges the first and third byte of every 4-byte pixel in place, turning
/// blue-first pixels into red-first ones.
pub fn swap_red_blue(pixels: &mut Vec<u8>)
    requires
        old(pixels)@.len() % 4 == 0,
    ensures
        final(pixels)@ == red_first(old(pixels)@),
{
    let n = pixels.len();
    let ghost src = pixels@;
    let mut i: usize = 0;
    while i < n
        invariant
            n == src.len(),
            n % 4 == 0,
            i % 4 == 0,
            i <= n,
            pixels@.len() == n,
            forall|j: int| 0 <= j < i ==> pixels@[j] == red_first_byte(src, j),
            forall|j: int| i <= j < n ==> pixels@[j] == src[j],
        decreases n - i,
    {
        let first = pixels[i];
        let third = pixels[i + 2];
        pixels.set(i, third);
        pixels.set(i + 2, first);
        assert forall|j: int| i <= j < i + 4 implies pixels@[j] == red_first_byte(src, j) by {
            assert(j % 4 == j - i);
        }
        i = i + 4;
    }
    assert(pixels@ =~= red_first(src));
}

/// Gets the icon of a file from what the platform reported about it.
///
/// `path_exists` tells whether the path names something on disk; `rendered` is the
/// platform renderer's outcome for that path at `size`. A zero size is refused first,
/// whatever the path; a missing path next; then a renderer failure is passed on; a
/// bitmap of another layout or length fails; a blue-first one is turned red-first.
pub fn get_file_icon(path_exists: bool, size: u16, rendered: Result<Raster, FileIconError>) -> (r:
    Result<Icon, AppInfoError>)
    ensures
        size == 0 ==> r == Err::<Icon, AppInfoError>(AppInfoError::FileIconError(FileIconError::NullIconSize)),
        size != 0 && !path_exists ==> r == Err::<Icon, AppInfoError>(
            AppInfoError::FileIconError(FileIconError::PathDoesNotExist),
        ),
        size != 0 && path_exists ==> match rendered {
            Err(e) => r == Err::<Icon, AppInfoError>(AppInfoError::FileIconError(e)),
            Ok(raster) => match icon_of(size, raster) {
                None => r == Err::<Icon, AppInfoError>(AppInfoError::FileIconError(FileIconError::Failed)),
                Some(px) => r matches Ok(icon) && icon.width == size && icon.height == size
                    && icon.pixels@ == px,
            },
        },
        r matches Ok(icon) ==> icon.wf() && icon.width == size && icon.height == size,
{
    if size == 0 {
        return Err(AppInfoError::FileIconError(FileIconError::NullIconSize));
    }
    if !path_exists {
        return Err(AppInfoError::FileIconError(FileIconError::PathDoesNotExist));
    }
    let raster = match rendered {
        Err(e) => {
            return Err(AppInfoError::FileIconError(e));
        },
        Ok(raster) => raster,
    };
    let side: u64 = size as u64;
    assert(side * side * 4 <= 0xffff_ffff_ffff) by (nonlinear_arith)
        requires side < 0x10000;
    let want: u64 = side * side * 4;
    if raster.pixels.len() as u64 != want {
        return Err(AppInfoError::FileIconError(FileIconError::Failed));
    }
    let mut pixels = raster.pixels;
    match raster.format {
        PixelFormat::Other => {
            return Err(AppInfoError::FileIconError(FileIconError::Failed));
        },
        PixelFormat::Bgra32 => {
            swap_red_blue(&mut pixels);
        },
        PixelFormat::Rgba32 => {},
    }
    assert(pixels@.len() == size as u32 * size as u32 * 4) by (nonlinear_arith)
        requires pixels@.len() == size * size * 4;
    Ok(Icon { width: size as u32, height: size as u32, pixels })
}

} // verus!
