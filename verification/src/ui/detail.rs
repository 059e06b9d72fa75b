//! The detail pane: where the thumbnail goes and where the text goes.

use vstd::prelude::*;

verus! {

/// A rectangle of terminal cells.
#[derive(Debug, Clone, Copy, PartialEq, Eq, Structural)]
pub struct Area {
    pub x: u16,
    pub y: u16,
    pub width: u16,
    pub height: u16,
}

/// A rectangle whose width and height are cut so that its right and bottom
/// edges stay within `u16` (as `ratatui::layout::Rect::new` does).
pub open spec fn clipped(x: u16, y: u16, width: u16, height: u16) -> Area {
    Area {
        x,
        y,
        width: if width > 65535 - x {
            (65535 - x) as u16
        } else {
            width
        },
        height: if height > 65535 - y {
            (65535 - y) as u16
        } else {
            height
        },
    }
}

impl Area {
    /// A rectangle at `(x, y)`, cut to stay within `u16` (see `clipped`).
    pub fn new(x: u16, y: u16, width: u16, height: u16) -> (res: Area)
        ensures
            res == clipped(x, y, width, height),
    {
        let max_width = 65535 - x;
        let max_height = 65535 - y;
        Area {
            x,
            y,
            width: if width > max_width {
                max_width
            } else {
                width
            },
            height: if height > max_height {
                max_height
            } else {
                height
            },
        }
    }
}

/// The rows the thumbnail first gets: 45% of the pane, at least 8, but at
/// most 11 (the image starts one row down, so it stays in the pane's top
/// twelve rows) and leaving six rows for the text.
pub open spec fn first_rows(h: int) -> int {
    let max_rows = if h - 6 < 11 {
        h - 6
    } else {
        11
    };
    let r = h * 45 / 100;
    let lo = if r < 8 {
        8
    } else {
        r
    };
    if lo > max_rows {
        max_rows
    } else {
        lo
    }
}

/// The columns of a 16:9 image `rows` high, for cells `cw` wide and `ch` high.
pub open spec fn columns_for(rows: int, cw: int, ch: int) -> int {
    (rows * ch * 16) / (9 * cw)
}

/// The rows of a 16:9 image `cols` wide, at least six.
pub open spec fn rows_for(cols: int, cw: int, ch: int) -> int {
    let r = (cols * cw * 9) / (16 * ch);
    if r < 6 {
        6
    } else {
        r
    }
}

/// The cell size, each side at least one.
pub open spec fn cell_w(cell: (u16, u16)) -> int {
    if cell.0 < 1 {
        1
    } else {
        cell.0 as int
    }
}

/// The cell height, at least one.
pub open spec fn cell_h(cell: (u16, u16)) -> int {
    if cell.1 < 1 {
        1
    } else {
        cell.1 as int
    }
}

/// The image size before placement, `(columns, rows)`: as wide as 16:9 asks
/// for the first rows; when that passes the pane less a column each side,
/// that width, and the rows that keep 16:9 (never more than before).
pub open spec fn thumb_size(inner: Area, cell: (u16, u16)) -> (int, int) {
    let cw = cell_w(cell);
    let ch = cell_h(cell);
    let rows = first_rows(inner.height as int);
    let cols = columns_for(rows, cw, ch);
    let max_width = inner.width - 2;
    if cols > max_width {
        let r = rows_for(max_width, cw, ch);
        (max_width, if r < rows { r } else { rows })
    } else {
        (cols, rows)
    }
}

/// Where a 16:9 thumbnail and the text below it go in the pane `inner`, for
/// terminal cells of size `cell`: the image one row down from the top of
/// the pane, within its top twelve rows, and centred (see `thumb_size`);
/// the text in the rows below, after one blank row. None when the pane is
/// under 12 rows or 24 columns, reaches past the `u16` plane, or nothing is
/// left for the image or the text.
pub open spec fn thumb_layout(inner: Area, cell: (u16, u16)) -> Option<(Area, Area)> {
    if inner.height < 12 || inner.width < 24 || inner.x + inner.width > 65535 || inner.y + inner.height > 65535 {
        None
    } else {
        let (c, r) = thumb_size(inner, cell);
        if r <= 0 || c <= 0 {
            None
        } else {
            let pad_x = (inner.width - c) / 2;
            let thumb = Area { x: (inner.x + pad_x) as u16, y: (inner.y + 1) as u16, width: c as u16, height: r as u16 };
            let text_y = inner.y + 1 + r + 1;
            if text_y >= inner.y + inner.height {
                None
            } else {
                Some(
                    (
                        thumb,
                        Area {
                            x: inner.x,
                            y: text_y as u16,
                            width: inner.width,
                            height: (inner.y + inner.height - text_y) as u16,
                        },
                    ),
                )
            }
        }
    }
}

/// Where the thumbnail and the text go in the detail pane (see
/// `thumb_layout`); the image lies within the pane's top twelve rows and the
/// text below it, both inside the pane.
pub fn thumb_and_text_areas(inner: Area, cell: (u16, u16)) -> (res: Option<(Area, Area)>)
    ensures
        res == thumb_layout(inner, cell),
        res matches Some((t, txt)) ==> inner.y < t.y && t.y + t.height <= inner.y + 12 && inner.x <= t.x && t.x
            + t.width <= inner.x + inner.width && t.y + t.height < txt.y && txt.y + txt.height == inner.y
            + inner.height,
{
    if inner.height < 12 || inner.width < 24 || inner.x as u32 + inner.width as u32 > 65535 || inner.y as u32
        + inner.height as u32 > 65535 {
        return None;
    }
    let h: u64 = inner.height as u64;
    let w: u64 = inner.width as u64;
    let max_rows: u64 = if h - 6 < 11 {
        h - 6
    } else {
        11
    };
    let r0: u64 = h * 45 / 100;
    let lo: u64 = if r0 < 8 {
        8
    } else {
        r0
    };
    let rows: u64 = if lo > max_rows {
        max_rows
    } else {
        lo
    };
    let cw: u64 = if cell.0 < 1 {
        1
    } else {
        cell.0 as u64
    };
    let ch: u64 = if cell.1 < 1 {
        1
    } else {
        cell.1 as u64
    };
    assert(rows * ch * 16 <= 11 * 65535 * 16) by (nonlinear_arith)
        requires
            rows <= 11,
            ch <= 65535,
    ;
    let cols: u64 = (rows * ch * 16) / (9 * cw);
    let max_width: u64 = w - 2;
    assert(max_width * cw * 9 <= 65535 * 65535 * 9) by (nonlinear_arith)
        requires
            max_width <= 65535,
            cw <= 65535,
    ;
    let c: u64;
    let r: u64;
    if cols > max_width {
        let r1: u64 = (max_width * cw * 9) / (16 * ch);
        let r2: u64 = if r1 < 6 {
            6
        } else {
            r1
        };
        c = max_width;
        r = if r2 < rows {
            r2
        } else {
            rows
        };
    } else {
        c = cols;
        r = rows;
    }
    assert((c as int, r as int) == thumb_size(inner, cell));
    if r == 0 || c == 0 {
        return None;
    }
    let pad_x = (w - c) / 2;
    let thumb = Area { x: (inner.x as u64 + pad_x) as u16, y: inner.y + 1, width: c as u16, height: r as u16 };
    let text_y: u64 = inner.y as u64 + 1 + r + 1;
    if text_y >= inner.y as u64 + h {
        return None;
    }
    let text = Area { x: inner.x, y: text_y as u16, width: inner.width, height: (inner.y as u64 + h - text_y) as u16 };
    Some((thumb, text))
}

} // verus!
