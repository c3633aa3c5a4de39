//! The whole screen and the rectangles its parts are drawn in.
use vstd::prelude::*;

verus! {

/// A rectangle of terminal cells.
#[derive(Debug, Clone, Copy, PartialEq, Eq)]
pub struct ScreenArea {
    pub x: u16,
    pub y: u16,
    pub width: u16,
    pub height: u16,
}

/// The whole screen.
pub struct View;

/// The height of the progress overlay for `count` operations: a line per
/// operation plus five, but at most a third of the screen.
pub open spec fn progress_overlay_height(screen_height: u16, count: usize) -> u16 {
    let wanted = ((count + 5) as u16) as int;
    let cap = (screen_height / 3) as int;
    if wanted <= cap { wanted as u16 } else { cap as u16 }
}

impl View {
    /// Where the file-operations overlay goes: at the bottom, above the
    /// status bar, one cell in from each side.
    pub fn progress_overlay_area(screen: ScreenArea, operation_count: usize) -> (r: ScreenArea)
        requires
            operation_count + 5 <= usize::MAX,
        ensures
            r.x == 1,
            r.height == progress_overlay_height(screen.height, operation_count),
            r.y == (if screen.height >= r.height + 2 { screen.height - r.height - 2 } else { 0 }),
            r.width == (if screen.width >= 2 { screen.width - 2 } else { 0 }),
    {
        let height: u16 = (operation_count + 5) as u16;
        let max_height: u16 = screen.height / 3;
        let overlay_height: u16 = if height <= max_height { height } else { max_height };
        ScreenArea {
            x: 1,
            y: screen.height.saturating_sub(overlay_height + 2),
            width: screen.width.saturating_sub(2),
            height: overlay_height,
        }
    }
}

} // verus!
