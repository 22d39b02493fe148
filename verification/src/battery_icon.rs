//! The 32x32 tray icon that draws the battery: an outline with a cap on the right,
//! filled from the left in proportion to the level, coloured by how low it is and
//! greyed out when the reading is not fresh.

use vstd::prelude::*;

verus! {

pub const ICON_SIZE: u32 = 32;

pub open spec fn rgba4(r: u8, g: u8, b: u8, a: u8) -> Seq<u8> {
    seq![r, g, b, a]
}

/// The colour of the outline: bright for a fresh reading, grey otherwise.
pub open spec fn outline_color(fresh: bool) -> Seq<u8> {
    if fresh {
        rgba4(220, 230, 236, 255)
    } else {
        rgba4(125, 135, 144, 255)
    }
}

/// The colour of the fill: red up to 20%, amber up to 40%, then green (muted when the
/// reading is not fresh); slate when there is no level.
pub open spec fn fill_color(level: Option<u8>, fresh: bool) -> Seq<u8> {
    match level {
        Some(l) => if l <= 20 {
            rgba4(238, 96, 96, 255)
        } else if l <= 40 {
            rgba4(236, 190, 75, 255)
        } else if fresh {
            rgba4(76, 224, 146, 255)
        } else {
            rgba4(112, 150, 132, 255)
        },
        None => rgba4(92, 103, 112, 255),
    }
}

/// How many columns the fill spans: the level scaled to 16 columns, rounded up.
pub open spec fn fill_width(level: u8) -> int {
    (level * 16 + 99) / 100
}

/// The border of the battery body, 3 pixels thick, around x in 3..27, y in 7..25.
pub open spec fn in_body_border(x: int, y: int) -> bool {
    3 <= x < 27 && 7 <= y < 25 && (x <= 5 || x >= 24 || y <= 9 || y >= 22)
}

/// The cap on the right of the body.
pub open spec fn in_cap(x: int, y: int) -> bool {
    27 <= x < 30 && 12 <= y < 20
}

/// Column `x`, row `y` of the fill rectangle, for `x` in `7..7 + w` and `y` in `11..21`.
pub open spec fn in_fill_rect(w: int, x: int, y: int) -> bool {
    7 <= x < 7 + w && 11 <= y < 21
}

/// Pixel `(x, y)` is written by the fill. Columns past the right edge of the image
/// (only reached by levels above 100) continue on the next row, as the pixel buffer
/// is one row after another.
pub open spec fn fill_covers(w: int, x: int, y: int) -> bool {
    in_fill_rect(w, x, y) || in_fill_rect(w, x + 32, y - 1)
}

/// The colour of pixel `p` (row-major) of the icon.
pub open spec fn pixel_color(level: Option<u8>, fresh: bool, p: int) -> Seq<u8> {
    let x = p % 32;
    let y = p / 32;
    if level is Some && fill_covers(fill_width(level->0), x, y) {
        fill_color(level, fresh)
    } else if in_body_border(x, y) || in_cap(x, y) {
        outline_color(fresh)
    } else {
        rgba4(0, 0, 0, 0)
    }
}

/// Byte `i` of the RGBA buffer of the icon.
pub open spec fn icon_byte(level: Option<u8>, fresh: bool, i: int) -> u8 {
    pixel_color(level, fresh, i / 4)[i % 4]
}

/// `(x, y)` comes before `(cx, cy)` in column-major painting order.
pub open spec fn painted_before(x: int, y: int, cx: int, cy: int) -> bool {
    x < cx || (x == cx && y < cy)
}

fn paint(rgba: &mut Vec<u8>, x: u32, y: u32, color: [u8; 4])
    requires
        old(rgba)@.len() == 4096,
        y * 32 + x < 1024,
    ensures
        final(rgba)@.len() == 4096,
        forall|i: int|
            0 <= i < 4096 ==> #[trigger] final(rgba)@[i] == if i / 4 == y * 32 + x {
                color@[i % 4]
            } else {
                old(rgba)@[i]
            },
{
    let index = ((y * ICON_SIZE + x) * 4) as usize;
    rgba.set(index, color[0]);
    rgba.set(index + 1, color[1]);
    rgba.set(index + 2, color[2]);
    rgba.set(index + 3, color[3]);
}

/// The RGBA pixels (32x32, row-major) of the tray icon for `level`.
pub fn make_battery_icon(level: Option<u8>, fresh: bool) -> (rgba: Vec<u8>)
    ensures
        rgba@.len() == 4096,
        forall|i: int| 0 <= i < 4096 ==> #[trigger] rgba@[i] == icon_byte(level, fresh, i),
{
    let mut rgba: Vec<u8> = vec![0u8; 4096];
    let outline: [u8; 4] = if fresh {
        [220, 230, 236, 255]
    } else {
        [125, 135, 144, 255]
    };
    let fill: [u8; 4] = match level {
        Some(l) => if l <= 20 {
            [238, 96, 96, 255]
        } else if l <= 40 {
            [236, 190, 75, 255]
        } else if fresh {
            [76, 224, 146, 255]
        } else {
            [112, 150, 132, 255]
        },
        None => [92, 103, 112, 255],
    };
    assert(outline@ =~= outline_color(fresh));
    assert(fill@ =~= fill_color(level, fresh));

    // The body outline.
    let mut x: u32 = 3;
    while x < 27
        invariant
            3 <= x <= 27,
            outline@ == outline_color(fresh),
            rgba@.len() == 4096,
            forall|i: int|
                0 <= i < 4096 ==> #[trigger] rgba@[i] == if in_body_border((i / 4) % 32, (i / 4)
                    / 32) && (i / 4) % 32 < x {
                    outline@[i % 4]
                } else {
                    0
                },
        decreases 27 - x,
    {
        let mut y: u32 = 7;
        while y < 25
            invariant
                3 <= x < 27,
                7 <= y <= 25,
                outline@ == outline_color(fresh),
                rgba@.len() == 4096,
                forall|i: int|
                    0 <= i < 4096 ==> #[trigger] rgba@[i] == if in_body_border(
                        (i / 4) % 32,
                        (i / 4) / 32,
                    ) && painted_before((i / 4) % 32, (i / 4) / 32, x as int, y as int) {
                        outline@[i % 4]
                    } else {
                        0
                    },
            decreases 25 - y,
        {
            if x <= 5 || x >= 24 || y <= 9 || y >= 22 {
                paint(&mut rgba, x, y, outline);
            }
            y = y + 1;
        }
        x = x + 1;
    }

    // The cap.
    let mut x: u32 = 27;
    while x < 30
        invariant
            27 <= x <= 30,
            outline@ == outline_color(fresh),
            rgba@.len() == 4096,
            forall|i: int|
                0 <= i < 4096 ==> #[trigger] rgba@[i] == if in_body_border((i / 4) % 32, (i / 4)
                    / 32) || (in_cap((i / 4) % 32, (i / 4) / 32) && (i / 4) % 32 < x) {
                    outline@[i % 4]
                } else {
                    0
                },
        decreases 30 - x,
    {
        let mut y: u32 = 12;
        while y < 20
            invariant
                27 <= x < 30,
                12 <= y <= 20,
                outline@ == outline_color(fresh),
                rgba@.len() == 4096,
                forall|i: int|
                    0 <= i < 4096 ==> #[trigger] rgba@[i] == if in_body_border(
                        (i / 4) % 32,
                        (i / 4) / 32,
                    ) || (in_cap((i / 4) % 32, (i / 4) / 32) && painted_before(
                        (i / 4) % 32,
                        (i / 4) / 32,
                        x as int,
                        y as int,
                    )) {
                        outline@[i % 4]
                    } else {
                        0
                    },
            decreases 20 - y,
        {
            paint(&mut rgba, x, y, outline);
            y = y + 1;
        }
        x = x + 1;
    }

    // The fill.
    if let Some(level) = level {
        let width = ((level as u32 * 16) + 99) / 100;
        assert(width == fill_width(level));
        let mut x: u32 = 7;
        while x < 7 + width
            invariant
                7 <= x <= 7 + width,
                width == fill_width(level),
                width <= 41,
                outline@ == outline_color(fresh),
                fill@ == fill_color(Some(level), fresh),
                rgba@.len() == 4096,
                forall|i: int|
                    0 <= i < 4096 ==> #[trigger] rgba@[i] == filled_byte(
                        width as int,
                        x as int,
                        11,
                        outline@,
                        fill@,
                        i,
                    ),
            decreases 7 + width - x,
        {
            let mut y: u32 = 11;
            while y < 21
                invariant
                    7 <= x < 7 + width,
                    11 <= y <= 21,
                    width == fill_width(level),
                    width <= 41,
                    outline@ == outline_color(fresh),
                    fill@ == fill_color(Some(level), fresh),
                    rgba@.len() == 4096,
                    forall|i: int|
                        0 <= i < 4096 ==> #[trigger] rgba@[i] == filled_byte(
                            width as int,
                            x as int,
                            y as int,
                            outline@,
                            fill@,
                            i,
                        ),
                decreases 21 - y,
            {
                paint(&mut rgba, x, y, fill);
                y = y + 1;
            }
            x = x + 1;
        }
    }
    rgba
}

/// The fill is coloured by the level alone up to 40%: every byte of a filled pixel is
/// red (238, 96, 96, 255) for a level up to 20 and amber (236, 190, 75, 255) for 21
/// to 40, fresh reading or not; above 40 it is green (76, 224, 146, 255) for a fresh
/// reading and muted green (112, 150, 132, 255) for an old one.
pub proof fn lemma_fill_colour_by_level(level: u8, fresh: bool, i: int)
    requires
        0 <= i < 4096,
        fill_covers(fill_width(level), (i / 4) % 32, (i / 4) / 32),
    ensures
        level <= 20 ==> icon_byte(Some(level), fresh, i) == seq![238u8, 96u8, 96u8, 255u8][i % 4],
        21 <= level <= 40 ==> icon_byte(Some(level), fresh, i) == seq![
            236u8,
            190u8,
            75u8,
            255u8,
        ][i % 4],
        level > 40 && fresh ==> icon_byte(Some(level), fresh, i) == seq![
            76u8,
            224u8,
            146u8,
            255u8,
        ][i % 4],
        level > 40 && !fresh ==> icon_byte(Some(level), fresh, i) == seq![
            112u8,
            150u8,
            132u8,
            255u8,
        ][i % 4],
        level <= 40 ==> icon_byte(Some(level), true, i) == icon_byte(Some(level), false, i),
{
}

/// Whether the fill has reached `(x, y)` (in the unwrapped coordinates of the fill
/// rectangle) once painting has come up to column `cx`, row `cy`.
pub open spec fn fill_reached(w: int, x: int, y: int, cx: int, cy: int) -> bool {
    in_fill_rect(w, x, y) && painted_before(x, y, cx, cy)
}

/// Byte `i` of the buffer after the outline and cap, and the fill up to `(cx, cy)`.
pub open spec fn filled_byte(w: int, cx: int, cy: int, outline: Seq<u8>, fill: Seq<u8>, i: int) -> u8 {
    let x = (i / 4) % 32;
    let y = (i / 4) / 32;
    if fill_reached(w, x, y, cx, cy) || fill_reached(w, x + 32, y - 1, cx, cy) {
        fill[i % 4]
    } else if in_body_border(x, y) || in_cap(x, y) {
        outline[i % 4]
    } else {
        0
    }
}

} // verus!
