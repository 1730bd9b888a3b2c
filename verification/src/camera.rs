//! The camera's settings, its raster of pixels and its colours.
use vstd::prelude::*;
use crate::ray::Flt;
use crate::text::{bool_value, decimal, i32_to_string, i32_value, parse_bool, parse_i32, same_text};

verus! {

/// A pixel's colour: red, green and blue.
#[derive(Debug, PartialEq, Eq, Structural, Clone, Copy)]
pub struct Rgb(pub i32, pub i32, pub i32);

/// The three components in decimal digits, with a blank between them.
pub open spec fn rgb_text(c: Rgb) -> Seq<char> {
    decimal(c.0 as int) + seq![' '] + decimal(c.1 as int) + seq![' '] + decimal(c.2 as int)
}

/// A pixel as it stands in the body of an image file.
pub fn rgb_to_string(c: &Rgb) -> (r: String)
    ensures
        r@ == rgb_text(*c),
{
    proof {
        reveal_strlit(" ");
    }
    let mut s = i32_to_string(c.0);
    s.append(" ");
    s.append(i32_to_string(c.1).as_str());
    s.append(" ");
    s.append(i32_to_string(c.2).as_str());
    assert(s@ =~= rgb_text(*c));
    s
}

/// A radiance relative to the largest that the image can show, cut off at
/// that largest: `d2` itself unless it is above one, then one.
pub fn clip(d2: &Flt) -> (r: Flt)
    ensures
        r == if Flt::one().less(*d2) { Flt::one() } else { *d2 },
{
    if d2.gt(&Flt::one()) {
        Flt::one()
    } else {
        *d2
    }
}

/// The value that a list of settings gives to the name `p`: that of the
/// last entry under that name.
pub open spec fn setting(config: Seq<(&str, &str)>, p: Seq<char>) -> Option<Seq<char>>
    decreases config.len(),
{
    if config.len() == 0 {
        None
    } else if config.last().0@ == p {
        Some(config.last().1@)
    } else {
        setting(config.drop_last(), p)
    }
}

/// The whole number that the settings give to `p`.
pub open spec fn int_setting(config: Seq<(&str, &str)>, p: Seq<char>) -> Option<i32> {
    match setting(config, p) {
        Some(v) => i32_value(v),
        None => None,
    }
}

/// The truth value that the settings give to `p`.
pub open spec fn bool_setting(config: Seq<(&str, &str)>, p: Seq<char>) -> Option<bool> {
    match setting(config, p) {
        Some(v) => bool_value(v),
        None => None,
    }
}

/// Looks a name up in a list of settings.
pub fn param<'a>(config: &Vec<(&'a str, &'a str)>, p: &str) -> (r: Option<&'a str>)
    ensures
        match r {
            Some(v) => setting(config@, p@) == Some(v@),
            None => setting(config@, p@) is None,
        },
{
    let mut i: usize = config.len();
    proof {
        assert(config@.take(i as int) =~= config@);
    }
    while i > 0
        invariant
            i <= config.len(),
            setting(config@, p@) == setting(config@.take(i as int), p@),
        decreases i,
    {
        proof {
            assert(config@.take(i as int).drop_last() =~= config@.take(i - 1));
        }
        if same_text(config[i - 1].0, p) {
            return Some(config[i - 1].1);
        }
        i -= 1;
    }
    None
}

/// The whole number that the settings give to `p`; nothing where they do
/// not name `p` or its value is no 32-bit integer.
pub fn find_int(config: &Vec<(&str, &str)>, p: &str) -> (r: Option<i32>)
    ensures
        r == int_setting(config@, p@),
{
    match param(config, p) {
        Some(v) => parse_i32(v),
        None => None,
    }
}

/// The truth value that the settings give to `p`; nothing where they do
/// not name `p` or its value is neither `true` nor `false`.
pub fn find_bool(config: &Vec<(&str, &str)>, p: &str) -> (r: Option<bool>)
    ensures
        r == bool_setting(config@, p@),
{
    match param(config, p) {
        Some(v) => parse_bool(v),
        None => None,
    }
}

/// The whole number that the settings give to `p`.
pub fn param_int(config: &Vec<(&str, &str)>, p: &str) -> (r: i32)
    requires
        int_setting(config@, p@) is Some,
    ensures
        Some(r) == int_setting(config@, p@),
{
    match find_int(config, p) {
        Some(v) => v,
        None => 0,
    }
}

/// The truth value that the settings give to `p`.
pub fn param_bool(config: &Vec<(&str, &str)>, p: &str) -> (r: bool)
    requires
        bool_setting(config@, p@) is Some,
    ensures
        Some(r) == bool_setting(config@, p@),
{
    match find_bool(config, p) {
        Some(v) => v,
        None => false,
    }
}

/// The pixel in row `y` and column `x` of a raster of `w` columns that is
/// held row by row.
pub open spec fn pixel_at(map: Seq<(i32, i32)>, w: int, y: int, x: int) -> (i32, i32) {
    map[y * w + x]
}

/// `map` is the raster of `w` columns and `h` rows in the order in which an
/// image is written: from the top row to the bottom row, and from left to
/// right within a row.  A pixel is its row and its column.
pub open spec fn is_raster(map: Seq<(i32, i32)>, w: int, h: int) -> bool {
    &&& map.len() == h * w
    &&& forall|y: int, x: int|
        0 <= y < h && 0 <= x < w ==> #[trigger] pixel_at(map, w, y, x) == (y as i32, x as i32)
}

/// The size of a raster decides every pixel of it: two rasters of the same
/// number of columns and rows are the same list.
pub proof fn lemma_raster_unique(a: Seq<(i32, i32)>, b: Seq<(i32, i32)>, w: int, h: int)
    requires
        0 <= w,
        0 <= h,
        is_raster(a, w, h),
        is_raster(b, w, h),
    ensures
        a == b,
{
    assert forall|k: int| 0 <= k < a.len() implies a[k] == b[k] by {
        assert(w > 0) by (nonlinear_arith)
            requires
                0 <= w,
                0 <= k < h * w,
        ;
        let y = k / w;
        let x = k % w;
        assert(k == y * w + x && 0 <= x < w && 0 <= y) by (nonlinear_arith)
            requires
                w > 0,
                k >= 0,
                y == k / w,
                x == k % w,
        ;
        assert(y < h) by (nonlinear_arith)
            requires
                w > 0,
                k == y * w + x,
                0 <= x,
                k < h * w,
        ;
        assert(pixel_at(a, w, y, x) == (y as i32, x as i32));
        assert(pixel_at(b, w, y, x) == (y as i32, x as i32));
    }
    assert(a =~= b);
}

/// The pixels of an image of `xreso` columns and `yreso` rows, in the order
/// in which the image is written.  An image without columns or without rows
/// has no pixels.
pub fn screen_map(xreso: i32, yreso: i32) -> (map: Vec<(i32, i32)>)
    ensures
        is_raster(
            map@,
            if xreso > 0 { xreso as int } else { 0 },
            if yreso > 0 { yreso as int } else { 0 },
        ),
{
    let ghost w: int = if xreso > 0 { xreso as int } else { 0 };
    let mut map: Vec<(i32, i32)> = Vec::new();
    let mut y: i32 = 0;
    while y < yreso
        invariant
            0 <= y,
            y <= yreso || y == 0,
            w == if xreso > 0 { xreso as int } else { 0 },
            is_raster(map@, w, y as int),
        decreases yreso - y,
    {
        let mut x: i32 = 0;
        let ghost rows = map@;
        while x < xreso
            invariant
                0 <= x,
                x <= xreso || x == 0,
                0 <= y < yreso,
                rows.len() == y * w,
                w == if xreso > 0 { xreso as int } else { 0 },
                is_raster(rows, w, y as int),
                map@.len() == y * w + x,
                forall|k: int| 0 <= k < rows.len() ==> map@[k] == rows[k],
                forall|k: int| 0 <= k < x ==> #[trigger] map@[y * w + k] == (y, k as i32),
            decreases xreso - x,
        {
            map.push((y, x));
            x += 1;
        }
        proof {
            assert((y + 1) * w == y * w + w) by (nonlinear_arith);
            assert(x == w);
            assert forall|yy: int, xx: int| 0 <= yy < y + 1 && 0 <= xx < w implies #[trigger] pixel_at(
                map@,
                w,
                yy,
                xx,
            ) == (yy as i32, xx as i32) by {
                if yy < y {
                    assert(yy * w + xx < y * w) by (nonlinear_arith)
                        requires
                            0 <= yy < y,
                            0 <= xx < w,
                    ;
                    assert(0 <= yy * w + xx) by (nonlinear_arith)
                        requires
                            0 <= yy,
                            0 <= xx,
                            0 <= w,
                    ;
                    assert(pixel_at(rows, w, yy, xx) == (yy as i32, xx as i32));
                }
            }
        }
        y += 1;
    }
    map
}

} // verus!
