use vstd::prelude::*;
use crate::geometry::{Rect, floor_div};

verus! {

/// Where a label is placed inside its rectangle.
#[derive(Clone, Copy, Debug, PartialEq, Eq, Structural)]
pub enum TextAlign {
    Center,
    LowerLeft,
    LowerRight,
    UpperLeft,
    UpperRight,
}

/// What a font reports about one label, in layout units: `prefix_widths[k]` is
/// the measured width of the label's first `k` characters, so the vector holds
/// one entry more than the label has characters; `line_height` is the font's
/// line height.
pub struct TextMetrics {
    pub prefix_widths: Vec<i32>,
    pub line_height: i32,
}

impl TextMetrics {
    /// The metrics describe a label of `n` characters.
    pub open spec fn describes(&self, n: nat) -> bool {
        self.prefix_widths@.len() == n + 1
    }
}

/// Scanning down from `k`, the first prefix length whose width fits in
/// `avail`, or zero.
pub open spec fn fit_from(widths: Seq<i32>, avail: int, k: int) -> int
    decreases k,
{
    if k <= 0 {
        0
    } else if widths[k] <= avail {
        k
    } else {
        fit_from(widths, avail, k - 1)
    }
}

/// The number of characters of a label that are drawn in a rectangle `avail`
/// wide: the longest prefix, dropping characters from the end, whose width
/// fits; none at all where nothing is available.
pub open spec fn fit_len(widths: Seq<i32>, avail: int) -> int {
    if avail <= 0 {
        0
    } else {
        fit_from(widths, avail, widths.len() - 1)
    }
}

/// The draw origin of a label whose fitted prefix is `text_width` wide.
pub open spec fn origin(align: TextAlign, r: Rect, text_width: int, line_height: int) -> (int, int) {
    let (x, y, w, h): (int, int, int, int) = (r.x as int, r.y as int, r.width as int, r.height as int);
    match align {
        TextAlign::Center => (x + w / 2 - text_width / 2, y + h / 2 - line_height / 4),
        TextAlign::LowerLeft => (x, y + line_height),
        TextAlign::LowerRight => (x + w - text_width, y + h - line_height),
        TextAlign::UpperLeft => (x, y + h - line_height),
        TextAlign::UpperRight => (x + w - text_width, y + h - line_height),
    }
}

/// Drops characters from the end of a label until what remains fits in
/// `avail`, and returns how many remain.
pub fn fit_text(prefix_widths: &Vec<i32>, avail: i32) -> (k: usize)
    requires
        prefix_widths@.len() >= 1,
    ensures
        k as int == fit_len(prefix_widths@, avail as int),
        k < prefix_widths@.len(),
{
    if avail <= 0 {
        return 0;
    }
    let mut k: usize = prefix_widths.len() - 1;
    while k > 0 && prefix_widths[k] > avail
        invariant
            k < prefix_widths@.len(),
            fit_from(prefix_widths@, avail as int, k as int) == fit_from(
                prefix_widths@,
                avail as int,
                prefix_widths@.len() - 1,
            ),
        decreases k,
    {
        k = k - 1;
    }
    k
}

/// Where to draw a fitted label of width `text_width` inside `r`.
pub fn text_origin(align: TextAlign, r: Rect, text_width: i32, line_height: i32) -> (p: (i64, i64))
    ensures
        (p.0 as int, p.1 as int) == origin(align, r, text_width as int, line_height as int),
{
    let (x, y, w, h): (i64, i64, i64, i64) = (r.x as i64, r.y as i64, r.width as i64, r.height as i64);
    let tw: i64 = text_width as i64;
    let lh: i64 = line_height as i64;
    match align {
        TextAlign::Center => (x + floor_div(w, 2) - floor_div(tw, 2), y + floor_div(h, 2)
            - floor_div(lh, 4)),
        TextAlign::LowerLeft => (x, y + lh),
        TextAlign::LowerRight => (x + w - tw, y + h - lh),
        TextAlign::UpperLeft => (x, y + h - lh),
        TextAlign::UpperRight => (x + w - tw, y + h - lh),
    }
}

} // verus!
