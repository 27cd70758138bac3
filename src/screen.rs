//! Display geometry: a cache of the bridge's screen size and shrink scale, and
//! the `Display` snapshot taken from it.

use vstd::prelude::*;

use crate::response::{get_size, json_int_field_of, opt_view, screen_size_of};

verus! {

/// The cached geometry `(width, height, scale)`, starting at all zeros.
/// `scale` is the divisor the bridge applied to shrink a large physical
/// resolution.
pub struct ScreenSizeCache {
    width: u16,
    height: u16,
    scale: u16,
}

/// Bitrate correction for a shrink scale: its square, at least `1`, and no
/// more than the largest `u16`.
pub open spec fn quality_factor(scale: u16) -> u16 {
    if scale == 0 {
        1
    } else if scale * scale > u16::MAX {
        u16::MAX
    } else {
        (scale * scale) as u16
    }
}

/// Geometry with a zero dimension has not been learnt yet.
pub open spec fn size_is_empty(size: (u16, u16, u16)) -> bool {
    size.0 == 0 || size.1 == 0
}

/// The cache after a lookup: an empty cache takes the decoded answer, when
/// there is one; otherwise nothing changes.
pub open spec fn size_after_get(size: (u16, u16, u16), response: Option<Seq<char>>) -> (u16, u16, u16) {
    if size_is_empty(size) {
        size_after_refresh(size, response)
    } else {
        size
    }
}

/// The cache after a refresh: the decoded answer, when there is one;
/// otherwise nothing changes.
pub open spec fn size_after_refresh(size: (u16, u16, u16), response: Option<Seq<char>>) -> (u16, u16, u16) {
    match screen_size_of(response) {
        Some(s) => s,
        None => size,
    }
}

/// After a refresh from a `screen_size` answer whose scale is zero or
/// negative, the bitrate correction is `1`.
pub proof fn lemma_non_positive_scale_quality(size: (u16, u16, u16), text: Seq<char>)
    requires
        json_int_field_of(text, "width"@) is Some,
        json_int_field_of(text, "height"@) is Some,
        json_int_field_of(text, "scale"@) matches Some(s) && s <= 0,
    ensures
        quality_factor(size_after_refresh(size, Some(text)).2) == 1,
{
}

impl ScreenSizeCache {
    pub closed spec fn size(&self) -> (u16, u16, u16) {
        (self.width, self.height, self.scale)
    }

    pub fn new() -> (r: ScreenSizeCache)
        ensures
            r.size() == (0u16, 0u16, 0u16),
    {
        ScreenSizeCache { width: 0, height: 0, scale: 0 }
    }

    pub fn width(&self) -> (r: u16)
        ensures
            r == self.size().0,
    {
        self.width
    }

    pub fn height(&self) -> (r: u16)
        ensures
            r == self.size().1,
    {
        self.height
    }

    pub fn scale(&self) -> (r: u16)
        ensures
            r == self.size().2,
    {
        self.scale
    }

    /// Whether the bridge has to be asked before the geometry can be used.
    pub fn is_empty(&self) -> (r: bool)
        ensures
            r == size_is_empty(self.size()),
    {
        self.width == 0 || self.height == 0
    }

    /// Returns the cached geometry, first filling an empty cache from the
    /// bridge's `screen_size` answer (which is read only in that case).
    pub fn get(&mut self, response: Option<&str>) -> (r: (u16, u16, u16))
        ensures
            final(self).size() == size_after_get(old(self).size(), opt_view(response)),
            r == final(self).size(),
    {
        if self.width == 0 || self.height == 0 {
            self.refresh(response);
        }
        (self.width, self.height, self.scale)
    }

    /// Overwrites the cache with the bridge's `screen_size` answer; a missing
    /// or malformed answer leaves it as it was.
    pub fn refresh(&mut self, response: Option<&str>)
        ensures
            final(self).size() == size_after_refresh(old(self).size(), opt_view(response)),
    {
        match get_size(response) {
            Some((w, h, s)) => {
                self.width = w;
                self.height = h;
                self.scale = s;
            },
            None => {},
        }
    }

    /// The square of the shrink scale, at least `1`.
    pub fn fix_quality(&self) -> (r: u16)
        ensures
            r == quality_factor(self.size().2),
    {
        let scale = self.scale;
        if scale == 0 {
            1
        } else {
            let wide: u32 = scale as u32;
            assert(wide * wide <= 65535 * 65535) by (nonlinear_arith)
                requires
                    wide <= 65535,
            ;
            let square: u32 = wide * wide;
            if square > u16::MAX as u32 {
                u16::MAX
            } else {
                square as u16
            }
        }
    }
}

#[derive(Copy, Clone, Debug, Hash, Eq, PartialEq)]
struct Rect {
    x: i16,
    y: i16,
    w: u16,
    h: u16,
}

/// A snapshot of the cached geometry, taken when the display is made.
pub struct Display {
    default: bool,
    rect: Rect,
}

impl Display {
    pub closed spec fn spec_width(&self) -> nat {
        self.rect.w as nat
    }

    pub closed spec fn spec_height(&self) -> nat {
        self.rect.h as nat
    }

    pub closed spec fn spec_origin(&self) -> (int, int) {
        (self.rect.x as int, self.rect.y as int)
    }

    pub closed spec fn spec_is_primary(&self) -> bool {
        self.default
    }

    /// The one display there is: at the origin, with the cached dimensions,
    /// after filling an empty cache from the `screen_size` answer.
    pub fn primary(cache: &mut ScreenSizeCache, response: Option<&str>) -> (r: Display)
        ensures
            final(cache).size() == size_after_get(old(cache).size(), opt_view(response)),
            r.spec_width() == final(cache).size().0,
            r.spec_height() == final(cache).size().1,
            r.spec_origin() == (0int, 0int),
            r.spec_is_primary(),
    {
        let (w, h, _scale) = cache.get(response);
        Display { default: true, rect: Rect { x: 0, y: 0, w, h } }
    }

    /// All displays: the primary one alone.
    pub fn all(cache: &mut ScreenSizeCache, response: Option<&str>) -> (r: Vec<Display>)
        ensures
            final(cache).size() == size_after_get(old(cache).size(), opt_view(response)),
            r@.len() == 1,
            r@[0].spec_width() == final(cache).size().0,
            r@[0].spec_height() == final(cache).size().1,
            r@[0].spec_origin() == (0int, 0int),
            r@[0].spec_is_primary(),
    {
        let d = Display::primary(cache, response);
        let mut v: Vec<Display> = Vec::new();
        v.push(d);
        v
    }

    pub fn width(&self) -> (r: usize)
        ensures
            r == self.spec_width(),
            r <= u16::MAX,
    {
        self.rect.w as usize
    }

    pub fn height(&self) -> (r: usize)
        ensures
            r == self.spec_height(),
            r <= u16::MAX,
    {
        self.rect.h as usize
    }

    pub fn origin(&self) -> (r: (i32, i32))
        ensures
            r.0 == self.spec_origin().0,
            r.1 == self.spec_origin().1,
    {
        let r = self.rect;
        (r.x as i32, r.y as i32)
    }

    pub fn is_online(&self) -> (r: bool)
        ensures
            r,
    {
        true
    }

    pub fn is_primary(&self) -> (r: bool)
        ensures
            r == self.spec_is_primary(),
    {
        self.default
    }

    pub fn name(&self) -> (r: String)
        ensures
            r@ == "Android"@,
    {
        "Android".to_owned()
    }

    /// Re-reads the geometry from the bridge's `screen_size` answer; a missing
    /// or malformed answer leaves the cache as it was.
    pub fn refresh_size(cache: &mut ScreenSizeCache, response: Option<&str>)
        ensures
            final(cache).size() == size_after_refresh(old(cache).size(), opt_view(response)),
    {
        cache.refresh(response);
    }

    /// Factor by which a bitrate computed for the shrunk resolution is to be
    /// multiplied: the square of the shrink scale, at least `1`.
    pub fn fix_quality(cache: &ScreenSizeCache) -> (r: u16)
        ensures
            r == quality_factor(cache.size().2),
    {
        cache.fix_quality()
    }
}

} // verus!
