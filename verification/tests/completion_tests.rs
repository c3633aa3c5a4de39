use fsm_core::command_palette::CommandPaletteState;
use fsm_core::completion::{CommandCompletion, CompletionConfig};

fn palette_with(n: usize, show: bool) -> CommandPaletteState {
    let mut p = CommandPaletteState::new(Vec::new());
    p.completions = (0..n).map(|i| format!("c{i}")).collect();
    p.show_completions = show;
    p
}

#[test]
fn default_config() {
    let c = CompletionConfig::default();
    assert_eq!(c.max_visible, 6);
    assert_eq!(c.min_height, 3);
    assert!(c.show_descriptions && c.show_nav_hints);
}

#[test]
fn completion_heights() {
    let c = CompletionConfig::default();
    assert_eq!(CommandCompletion::calculate_completion_height(&palette_with(0, true), &c), 0);
    assert_eq!(CommandCompletion::calculate_completion_height(&palette_with(1, true), &c), 3);
    assert_eq!(CommandCompletion::calculate_completion_height(&palette_with(4, true), &c), 6);
    assert_eq!(CommandCompletion::calculate_completion_height(&palette_with(20, true), &c), 8);
    assert_eq!(CommandCompletion::calculate_required_height(&palette_with(4, true), &c), 7);
    assert_eq!(CommandCompletion::calculate_required_height(&palette_with(4, false), &c), 1);
    assert_eq!(CommandCompletion::calculate_required_height(&palette_with(0, true), &c), 1);
}

#[test]
fn scroll_window_keeps_selection_centred() {
    assert_eq!(CommandCompletion::calculate_scroll_window(4, 2, 6, 10), (0, 4));
    assert_eq!(CommandCompletion::calculate_scroll_window(20, 1, 6, 10), (0, 6));
    assert_eq!(CommandCompletion::calculate_scroll_window(20, 10, 6, 10), (7, 6));
    assert_eq!(CommandCompletion::calculate_scroll_window(20, 19, 6, 10), (14, 6));
    assert_eq!(CommandCompletion::calculate_scroll_window(20, 5, 6, 0), (5, 1));
}

#[test]
fn titles() {
    let c = CompletionConfig::default();
    assert_eq!(CommandCompletion::create_completion_title(1, 0, 0, 1, &c), " 1 completion (↑↓ navigate, Tab apply) ");
    assert_eq!(CommandCompletion::create_completion_title(3, 0, 0, 3, &c), " 3 completions (↑↓ navigate, Tab apply) ");
    assert_eq!(CommandCompletion::create_completion_title(20, 10, 7, 6, &c), " ↕ 11/20 ↕ (↑↓ navigate, Tab apply) ");
    assert_eq!(CommandCompletion::create_completion_title(20, 0, 0, 6, &c), " ↓ 1/20 ↓ (↑↓ navigate, Tab apply) ");
    let quiet = CompletionConfig { show_nav_hints: false, ..CompletionConfig::default() };
    assert_eq!(CommandCompletion::create_completion_title(20, 0, 0, 6, &quiet), " 20 completions ");
}

#[test]
fn item_texts() {
    let c = CompletionConfig::default();
    assert_eq!(CommandCompletion::completion_item_text("nf", true, &c), "▶ nf           - Create a new file");
    assert_eq!(CommandCompletion::completion_item_text("zz", false, &c), "  zz");
    let plain = CompletionConfig { show_descriptions: false, ..CompletionConfig::default() };
    assert_eq!(CommandCompletion::completion_item_text("nf", false, &plain), "  nf");
    assert_eq!(
        CommandCompletion::completion_item_text("reload", false, &c),
        format!("  {:<12} - {}", "reload", "Reload current directory")
    );
}
