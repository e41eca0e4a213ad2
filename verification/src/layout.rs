//! Screen areas and the vertical split of the screen into header, chat and input regions.

use vstd::prelude::*;
use ratatui::layout::{Constraint, Direction, Layout, Rect};

verus! {

/// A rectangle of terminal cells.
#[derive(Debug, Clone, Copy, PartialEq, Eq, Structural)]
pub struct Area {
    pub x: u16,
    pub y: u16,
    pub width: u16,
    pub height: u16,
}

impl Area {
    pub fn new(x: u16, y: u16, width: u16, height: u16) -> (a: Area)
        ensures
            a == (Area { x, y, width, height }),
    {
        Area { x, y, width, height }
    }
}

/// The vertical split of `area` into a header `header_height` rows tall, a middle part and an
/// input region `input_height` rows tall. When the three fit, the header takes the top rows, the
/// input region the bottom rows, and the middle part (at least one row) everything between. On an
/// area less than two rows tall (with an empty header and a one-row input region) the middle part
/// takes every row there is and the other two are empty, at the top and at the bottom.
pub open spec fn vertical_parts(area: Area, header_height: u16, input_height: u16) -> (
    Area,
    Area,
    Area,
) {
    if header_height + 1 + input_height <= area.height {
        (
            Area { x: area.x, y: area.y, width: area.width, height: header_height },
            Area {
                x: area.x,
                y: (area.y + header_height) as u16,
                width: area.width,
                height: (area.height - header_height - input_height) as u16,
            },
            Area {
                x: area.x,
                y: (area.y + area.height - input_height) as u16,
                width: area.width,
                height: input_height,
            },
        )
    } else {
        (
            Area { x: area.x, y: area.y, width: area.width, height: 0 },
            Area { x: area.x, y: area.y, width: area.width, height: area.height },
            Area { x: area.x, y: (area.y + area.height) as u16, width: area.width, height: 0 },
        )
    }
}

#[verifier::external_body]
fn split_vertical(area: Area, header_height: u16, input_height: u16) -> (parts: (Area, Area, Area))
    requires
        area.y + area.height <= 0xFFFF,
        header_height + 1 + input_height <= area.height || (area.height < 2 && header_height == 0
            && input_height == 1),
    ensures
        parts == vertical_parts(area, header_height, input_height),
{
    let c = Layout::default().direction(Direction::Vertical).constraints(
        [Constraint::Length(header_height), Constraint::Min(1), Constraint::Length(input_height)],
    ).split(Rect { x: area.x, y: area.y, width: area.width, height: area.height });
    (
        Area { x: c[0].x, y: c[0].y, width: c[0].width, height: c[0].height },
        Area { x: c[1].x, y: c[1].y, width: c[1].width, height: c[1].height },
        Area { x: c[2].x, y: c[2].y, width: c[2].width, height: c[2].height },
    )
}

/// The height of the logo header for a screen `height` rows tall: 9, 7, 6 or 4 rows as the
/// screen shrinks past 24, 18 and 12 rows, and never more than the height less three.
pub open spec fn header_height(height: u16) -> u16 {
    let preferred: u16 = if height >= 24 {
        9
    } else if height >= 18 {
        7
    } else if height >= 12 {
        6
    } else {
        4
    };
    let cap: u16 = if height >= 3 {
        (height - 3) as u16
    } else {
        0
    };
    if preferred <= cap {
        preferred
    } else {
        cap
    }
}

/// The height of the input region: its wanted line count (at most five) plus two border rows,
/// limited to what the header leaves of the screen but at least one row.
pub open spec fn input_height(height: u16, input_lines: int) -> u16 {
    let lines = if input_lines < 5 {
        input_lines
    } else {
        5
    };
    let desired = lines + 2;
    let header = header_height(height);
    let max_height = if height >= header + 1 {
        height - header - 1
    } else {
        0
    };
    let h = if desired <= max_height {
        desired
    } else {
        max_height
    };
    if h < 1 {
        1
    } else {
        h as u16
    }
}

/// Splits the screen into the header, chat and input regions, the input region being
/// `input_lines` lines tall (at most five) plus its borders. The area's rows must end within
/// `u16`, as they do for every area ratatui's `Rect::new` builds.
pub fn screen_layout(area: Area, input_lines: usize) -> (parts: (Area, Area, Area))
    requires
        area.y + area.height <= 0xFFFF,
    ensures
        parts == vertical_parts(
            area,
            header_height(area.height),
            input_height(area.height, input_lines as int),
        ),
{
    let height = area.height;
    let preferred: u16 = if height >= 24 {
        9
    } else if height >= 18 {
        7
    } else if height >= 12 {
        6
    } else {
        4
    };
    let header = preferred.min(height.saturating_sub(3));
    let lines = input_lines.min(5);
    let desired = lines.saturating_add(2) as u16;
    let max_input = height.saturating_sub(header.saturating_add(1));
    let input = desired.min(max_input).max(1);
    split_vertical(area, header, input)
}

/// The width of chat message boxes in a chat region `width` columns wide: 62% of it, at least
/// twelve columns and at most the width less two; a region of four columns or fewer is used whole.
pub open spec fn message_width(width: u16) -> u16 {
    if width <= 4 {
        width
    } else {
        let share = (width as int * 62) / 100;
        let at_least = if share < 12 {
            12
        } else {
            share
        };
        let limit = width - 2;
        if at_least <= limit {
            at_least as u16
        } else {
            limit as u16
        }
    }
}

/// Computes `message_width`.
pub fn chat_message_width(chat_area: Area) -> (w: u16)
    ensures
        w == message_width(chat_area.width),
{
    let width = chat_area.width;
    if width <= 4 {
        return width;
    }
    let share = (width as u32 * 62) / 100;
    share.max(12).min(width.saturating_sub(2) as u32) as u16
}

} // verus!
