//! Layout and text of the command-line completion list.
use vstd::prelude::*;
use crate::command_palette::{CommandPaletteState, get_command_description, description_of};
use crate::text::{append_chars, append_str, chars_of, push_decimal, string_of, decimal};

verus! {

/// How the completion list is drawn.
#[derive(Debug, Clone)]
pub struct CompletionConfig {
    /// Maximum completions to show at once
    pub max_visible: usize,
    /// Minimum height of the completion area
    pub min_height: u16,
    /// Show descriptions of commands
    pub show_descriptions: bool,
    /// Show navigation hints
    pub show_nav_hints: bool,
}

impl Default for CompletionConfig {
    fn default() -> (r: Self)
        ensures
            r.max_visible == 6,
            r.min_height == 3,
            r.show_descriptions,
            r.show_nav_hints,
    {
        CompletionConfig { max_visible: 6, min_height: 3, show_descriptions: true, show_nav_hints: true }
    }
}

/* ============================ Specification ========================== */

pub open spec fn min_nat(a: int, b: int) -> int {
    if a <= b { a } else { b }
}

/// The number of completions that fit: at most `max_visible`.
pub open spec fn visible_completions(count: nat, max_visible: usize) -> int {
    min_nat(count as int, max_visible as int)
}

/// Whether the height of a list of `count` completions fits in a `u16`
/// (the visible count is cut to 16 bits before the borders are added).
pub open spec fn completion_height_fits(count: nat, max_visible: usize) -> bool {
    count == 0 || (visible_completions(count, max_visible) as u16) + 2 <= u16::MAX
}

/// Height of the completion list: two borders and the visible completions,
/// at least `min_height`; nothing when there are no completions.
pub open spec fn completion_height(count: nat, max_visible: usize, min_height: u16) -> u16 {
    if count == 0 {
        0
    } else {
        let base = (visible_completions(count, max_visible) as u16) + 2;
        if base >= min_height { base as u16 } else { min_height }
    }
}

/// The first shown completion and how many are shown, so that the selected
/// one stays near the middle of a window of at most
/// `max(min(max_visible, available), 1)` lines.
pub open spec fn scroll_window(total: usize, selected: usize, max_visible: usize, available: usize)
    -> (usize, usize)
{
    let eff = if min_nat(max_visible as int, available as int) >= 1 {
        min_nat(max_visible as int, available as int)
    } else {
        1
    };
    if total <= eff {
        (0, total)
    } else {
        let offset = if selected < eff / 2 {
            0
        } else if selected >= total - eff / 2 {
            total - eff
        } else {
            selected - eff / 2
        };
        (offset as usize, min_nat(total - offset, eff) as usize)
    }
}

pub open spec fn nav_hint() -> Seq<char> {
    "(↑↓ navigate, Tab apply) "@
}

pub open spec fn scroll_indicator(up: bool, down: bool) -> Seq<char> {
    if up && down {
        " ↕ "@
    } else if up {
        " ↑ "@
    } else if down {
        " ↓ "@
    } else {
        " "@
    }
}

/// Title of the completion list.
pub open spec fn completion_title(
    total: usize,
    selected: usize,
    offset: usize,
    visible: usize,
    max_visible: usize,
    show_nav_hints: bool,
) -> Seq<char> {
    let base = if total == 1 {
        " 1 completion "@
    } else {
        " "@ + decimal(total as nat) + " completions "@
    };
    if !show_nav_hints {
        base
    } else if total <= max_visible {
        base + nav_hint()
    } else {
        let ind = scroll_indicator(offset > 0, offset + visible < total);
        ind + decimal((selected + 1) as nat) + "/"@ + decimal(total as nat) + ind + nav_hint()
    }
}

/// `s` followed by spaces up to `width` characters.
pub open spec fn pad_right(s: Seq<char>, width: nat) -> Seq<char> {
    if s.len() >= width {
        s
    } else {
        s + Seq::new((width - s.len()) as nat, |i: int| ' ')
    }
}

/// Text of one completion line: a marker for the selected one, the name and,
/// where enabled and known, the command's description.
pub open spec fn completion_item_text(completion: Seq<char>, is_selected: bool, show_descriptions: bool)
    -> Seq<char>
{
    let prefix = if is_selected { "▶ "@ } else { "  "@ };
    if show_descriptions {
        match description_of(completion) {
            Some(desc) => prefix + pad_right(completion, 12) + " - "@ + desc,
            None => prefix + completion,
        }
    } else {
        prefix + completion
    }
}

/// Height of the command line with its completion list, if shown.
pub open spec fn required_height(p: CommandPaletteState, c: CompletionConfig) -> int {
    if p.show_completions && p.completions@.len() > 0 {
        1 + completion_height(p.completions@.len(), c.max_visible, c.min_height)
    } else {
        1
    }
}

/* ============================== Code ================================ */

/// Draws the command line and its completions.
pub struct CommandCompletion;

impl CommandCompletion {
    /// Height needed by the completion list of `palette`.
    pub fn calculate_completion_height(palette: &CommandPaletteState, config: &CompletionConfig) -> (r: u16)
        requires
            completion_height_fits(palette.completions@.len(), config.max_visible),
        ensures
            r == completion_height(palette.completions@.len(), config.max_visible, config.min_height),
    {
        if palette.completions.len() == 0 {
            return 0;
        }
        let count = palette.completions.len();
        let visible = if count <= config.max_visible { count } else { config.max_visible };
        let base: u16 = 2 + visible as u16;
        if base >= config.min_height { base } else { config.min_height }
    }

    /// The first shown completion and the number shown.
    pub fn calculate_scroll_window(
        total_count: usize,
        selected_idx: usize,
        max_visible: usize,
        available_lines: usize,
    ) -> (r: (usize, usize))
        ensures
            r == scroll_window(total_count, selected_idx, max_visible, available_lines),
            r.0 + r.1 <= total_count,
    {
        let m = if max_visible <= available_lines { max_visible } else { available_lines };
        let effective_max = if m >= 1 { m } else { 1 };
        if total_count <= effective_max {
            (0, total_count)
        } else {
            let half = effective_max / 2;
            let scroll_offset = if selected_idx < half {
                0
            } else if selected_idx >= total_count - half {
                total_count - effective_max
            } else {
                selected_idx - half
            };
            let rest = total_count - scroll_offset;
            let visible_count = if rest <= effective_max { rest } else { effective_max };
            (scroll_offset, visible_count)
        }
    }

    /// The title of the completion list, with position and navigation hints.
    pub fn create_completion_title(
        total_count: usize,
        selected_idx: usize,
        scroll_offset: usize,
        visible_count: usize,
        config: &CompletionConfig,
    ) -> (r: String)
        requires
            selected_idx < usize::MAX,
            scroll_offset + visible_count <= usize::MAX,
        ensures
            r@ == completion_title(
                total_count,
                selected_idx,
                scroll_offset,
                visible_count,
                config.max_visible,
                config.show_nav_hints,
            ),
    {
        let mut base: Vec<char> = Vec::new();
        if total_count == 1 {
            append_str(&mut base, " 1 completion ");
        } else {
            append_str(&mut base, " ");
            push_decimal(&mut base, total_count as u64);
            append_str(&mut base, " completions ");
        }
        if !config.show_nav_hints {
            return string_of(base.as_slice());
        }
        if total_count <= config.max_visible {
            append_str(&mut base, "(↑↓ navigate, Tab apply) ");
            return string_of(base.as_slice());
        }
        let can_up = scroll_offset > 0;
        let can_down = scroll_offset + visible_count < total_count;
        let ind: &str = if can_up && can_down {
            " ↕ "
        } else if can_up {
            " ↑ "
        } else if can_down {
            " ↓ "
        } else {
            " "
        };
        let mut out: Vec<char> = Vec::new();
        append_str(&mut out, ind);
        push_decimal(&mut out, (selected_idx + 1) as u64);
        append_str(&mut out, "/");
        push_decimal(&mut out, total_count as u64);
        append_str(&mut out, ind);
        append_str(&mut out, "(↑↓ navigate, Tab apply) ");
        string_of(out.as_slice())
    }

    /// The text of one completion line.
    pub fn completion_item_text(completion: &str, is_selected: bool, config: &CompletionConfig) -> (r: String)
        ensures
            r@ == completion_item_text(completion@, is_selected, config.show_descriptions),
    {
        let mut out: Vec<char> = Vec::new();
        if is_selected {
            append_str(&mut out, "▶ ");
        } else {
            append_str(&mut out, "  ");
        }
        if config.show_descriptions {
            match get_command_description(completion) {
                Some(desc) => {
                    let name = chars_of(completion);
                    let ghost before = out@;
                    append_chars(&mut out, name.as_slice());
                    let mut k: usize = name.len();
                    while k < 12
                        invariant
                            name@ == completion@,
                            name.len() <= k <= 12 || (k == name.len() && k >= 12),
                            out@ == before + completion@ + Seq::new((k - name.len()) as nat, |i: int| ' '),
                        decreases 12 - k,
                    {
                        out.push(' ');
                        assert(Seq::new((k - name.len()) as nat, |i: int| ' ').push(' ')
                            =~= Seq::new((k + 1 - name.len()) as nat, |i: int| ' '));
                        k = k + 1;
                    }
                    assert(before + completion@ + Seq::new((k - name.len()) as nat, |i: int| ' ')
                        =~= before + pad_right(completion@, 12));
                    append_str(&mut out, " - ");
                    append_str(&mut out, desc);
                },
                None => {
                    append_str(&mut out, completion);
                },
            }
        } else {
            append_str(&mut out, completion);
        }
        string_of(out.as_slice())
    }

    /// Height of the command line together with its completion list.
    pub fn calculate_required_height(palette: &CommandPaletteState, config: &CompletionConfig) -> (r: u16)
        requires
            completion_height_fits(palette.completions@.len(), config.max_visible),
            required_height(*palette, *config) <= u16::MAX,
        ensures
            r == required_height(*palette, *config),
    {
        let completion_height: u16 = if palette.show_completions && palette.completions.len() > 0 {
            Self::calculate_completion_height(palette, config)
        } else {
            0
        };
        1 + completion_height
    }
}

/// The selected completion is always inside the shown window, and the
/// window never holds more than the effective maximum of lines.
pub proof fn law_scroll_window_shows_selection(total: usize, selected: usize, max_visible: usize, available: usize)
    requires
        selected < total,
    ensures
        ({
            let (offset, count) = scroll_window(total, selected, max_visible, available);
            &&& offset <= selected < offset + count
            &&& offset + count <= total
            &&& count <= (if min_nat(max_visible as int, available as int) >= 1 {
                min_nat(max_visible as int, available as int)
            } else {
                1
            })
        }),
{
}

} // verus!
