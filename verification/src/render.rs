//! The render planner: a pure description of one frame.
//!
//! The screen is partitioned vertically into a fixed-height header band
//! for the title, a flexible middle band for the list, and a fixed-height
//! footer band for the action menu. From the application state and the
//! available area the planner produces the texts to show, which entry to
//! highlight and with what marker, and where to place the input caret in
//! Add mode. It draws nothing itself and mutates nothing.

use vstd::prelude::*;
use crate::app::{AppState, Mode};

verus! {

/// The height of the title band at the top of the screen.
pub const HEADER_HEIGHT: u16 = 3;

/// The height of the menu band at the bottom of the screen.
pub const FOOTER_HEIGHT: u16 = 3;

/// A rectangular region of the screen, in character cells.
#[derive(Clone, Copy, PartialEq, Eq, Structural, Debug)]
pub struct Rect {
    pub x: u16,
    pub y: u16,
    pub width: u16,
    pub height: u16,
}

/// The header band's height: its fixed height, shrunk only when the whole
/// area is shorter.
pub open spec fn header_h(h: int) -> int {
    if h >= HEADER_HEIGHT {
        HEADER_HEIGHT as int
    } else {
        h
    }
}

/// The footer band's height: its fixed height, shrunk when the rows left
/// below the header are fewer.
pub open spec fn footer_h(h: int) -> int {
    if h - header_h(h) >= FOOTER_HEIGHT {
        FOOTER_HEIGHT as int
    } else {
        h - header_h(h)
    }
}

/// The body band's height: every row not taken by header or footer.
pub open spec fn body_h(h: int) -> int {
    h - header_h(h) - footer_h(h)
}

/// The three bands, stacked from the top: header, body, footer.
pub open spec fn spec_layout(area: Rect) -> (Rect, Rect, Rect) {
    let hh = header_h(area.height as int);
    let bh = body_h(area.height as int);
    let fh = footer_h(area.height as int);
    (
        (Rect { x: area.x, y: area.y, width: area.width, height: hh as u16 }),
        (Rect { x: area.x, y: (area.y + hh) as u16, width: area.width, height: bh as u16 }),
        (Rect { x: area.x, y: (area.y + hh + bh) as u16, width: area.width, height: fh as u16 }),
    )
}

/// Splits the area into the header, body and footer bands. The bands
/// cover the area exactly, and whenever the area is tall enough both
/// fixed bands keep their full height, the body absorbing the rest.
pub fn split_layout(area: Rect) -> (bands: (Rect, Rect, Rect))
    requires
        area.y + area.height <= u16::MAX,
    ensures
        bands == spec_layout(area),
        bands.0.height + bands.1.height + bands.2.height == area.height,
        area.height >= HEADER_HEIGHT + FOOTER_HEIGHT ==> bands.0.height == HEADER_HEIGHT
            && bands.2.height == FOOTER_HEIGHT,
{
    let hh: u16 = if area.height >= HEADER_HEIGHT {
        HEADER_HEIGHT
    } else {
        area.height
    };
    let rest: u16 = area.height - hh;
    let fh: u16 = if rest >= FOOTER_HEIGHT {
        FOOTER_HEIGHT
    } else {
        rest
    };
    let bh: u16 = rest - fh;
    let header = Rect { x: area.x, y: area.y, width: area.width, height: hh };
    let body = Rect { x: area.x, y: area.y + hh, width: area.width, height: bh };
    let footer = Rect { x: area.x, y: area.y + hh + bh, width: area.width, height: fh };
    (header, body, footer)
}

/// Everything the terminal surface needs to draw one frame: the three
/// bands, the title, the footer menu entries, the list entries with the
/// highlighted index and its leading marker, and where to put the input
/// caret, if anywhere.
pub struct FramePlan {
    pub header: Rect,
    pub body: Rect,
    pub footer: Rect,
    pub title: String,
    pub menu: Vec<String>,
    pub entries: Vec<String>,
    pub highlighted: Option<usize>,
    pub marker: String,
    pub caret: Option<(u16, u16)>,
}

/// Computes the frame for the given state and area: the bands of
/// `spec_layout`, the fixed title and menu, the item texts in order, the
/// cursor as the highlighted entry with its marker, and — in Add mode
/// only — the caret at the header band's origin.
pub fn plan_frame(app: &AppState, area: Rect) -> (plan: FramePlan)
    requires
        app.wf(),
        area.y + area.height <= u16::MAX,
    ensures
        (plan.header, plan.body, plan.footer) == spec_layout(area),
        plan.title@ == "Todo List"@,
        plan.menu@.len() == 3,
        plan.menu@[0]@ == "Add -> A"@,
        plan.menu@[1]@ == "Delete -> X"@,
        plan.menu@[2]@ == "Edit -> E"@,
        plan.entries@.map_values(|s: String| s@) == app.texts(),
        plan.highlighted == app.list.selected,
        plan.highlighted is Some ==> plan.highlighted->0 < plan.entries@.len(),
        plan.marker@ == ">>"@,
        plan.caret == (if app.mode == Mode::Add {
            Some((area.x, area.y))
        } else {
            None::<(u16, u16)>
        }),
{
    let bands = split_layout(area);

    let mut menu: Vec<String> = Vec::new();
    menu.push(String::from_str("Add -> A"));
    menu.push(String::from_str("Delete -> X"));
    menu.push(String::from_str("Edit -> E"));

    let mut entries: Vec<String> = Vec::new();
    let n = app.list.items.len();
    for i in 0..n
        invariant
            n == app.list.items@.len(),
            entries@ =~= app.list.items@.subrange(0, i as int),
    {
        entries.push(app.list.items[i].clone());
    }
    proof {
        assert(entries@ =~= app.list.items@);
        assert(entries@.map_values(|s: String| s@) =~= app.texts());
    }

    let caret: Option<(u16, u16)> = match app.mode {
        Mode::Add => Some((area.x, area.y)),
        _ => None,
    };

    FramePlan {
        header: bands.0,
        body: bands.1,
        footer: bands.2,
        title: String::from_str("Todo List"),
        menu,
        entries,
        highlighted: app.list.selected,
        marker: String::from_str(">>"),
        caret,
    }
}

} // verus!
