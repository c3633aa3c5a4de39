use fsm_core::command_palette::{
    get_all_commands_with_descriptions, get_command_description, Command, CommandAction,
    CommandPaletteState,
};

fn palette(input: &str) -> CommandPaletteState {
    let mut p = CommandPaletteState::new(vec![
        Command { title: "Open Config".to_string(), action: CommandAction::OpenConfig },
        Command { title: "Reload Directory".to_string(), action: CommandAction::Reload },
        Command { title: "Search Content".to_string(), action: CommandAction::SearchContent },
    ]);
    p.input = input.to_string();
    p
}

#[test]
fn new_palette_shows_all_commands() {
    let p = palette("");
    assert_eq!(p.filtered.len(), 3);
    assert_eq!(p.selected, 0);
    assert!(!p.show_completions);
    assert_eq!(CommandPaletteState::default().all_commands.len(), 0);
}

#[test]
fn filter_is_case_insensitive_substring() {
    let mut p = palette("RELOAD");
    p.update_filter();
    assert_eq!(p.filtered.len(), 1);
    assert_eq!(p.filtered[0].action, CommandAction::Reload);
    let mut q = palette("o");
    q.update_filter();
    assert_eq!(q.filtered.len(), 3);
}

#[test]
fn completions_are_sorted_prefix_matches() {
    let mut p = palette("n");
    p.update_completions();
    assert_eq!(p.completions, vec!["nd".to_string(), "nf".to_string()]);
    assert!(p.show_completions);
    let mut q = palette("  ");
    q.update_completions();
    assert!(q.completions.is_empty());
    assert!(!q.show_completions);
    let mut r = palette("C");
    r.update_completions();
    assert_eq!(r.completions, vec!["config".to_string()]);
    let mut s = palette("x");
    s.update_completions();
    assert!(s.completions.is_empty());
}

#[test]
fn completion_cycling_wraps() {
    let mut p = palette("n");
    p.update_completions();
    p.next_completion();
    assert_eq!(p.completion_index, 1);
    p.next_completion();
    assert_eq!(p.completion_index, 0);
    p.prev_completion();
    assert_eq!(p.completion_index, 1);
    p.hide_completions();
    assert!(!p.show_completions);
    p.show_completions_if_available();
    assert!(p.show_completions);
}

#[test]
fn applying_a_completion_replaces_first_word() {
    let mut p = palette("n   my   file.txt");
    p.update_completions();
    p.next_completion();
    p.apply_completion();
    assert_eq!(p.input, "nf my file.txt");
    assert_eq!(p.parse_command(), Some(CommandAction::NewFileWithName("my file.txt".to_string())));
    let mut q = palette("gr");
    q.update_completions();
    q.apply_completion();
    assert_eq!(q.input, "grep");
    assert_eq!(q.completions, vec!["grep".to_string()]);
}

#[test]
fn parse_command_recognises_aliases() {
    assert_eq!(palette("").parse_command(), None);
    assert_eq!(palette("   ").parse_command(), None);
    assert_eq!(palette("nf").parse_command(), Some(CommandAction::NewFile));
    assert_eq!(palette(" nd  a  b ").parse_command(), Some(CommandAction::NewFolderWithName("a b".to_string())));
    assert_eq!(palette("nd").parse_command(), Some(CommandAction::NewFolder));
    assert_eq!(palette("reload").parse_command(), Some(CommandAction::Reload));
    assert_eq!(palette("grep").parse_command(), Some(CommandAction::SearchContent));
    assert_eq!(palette("config").parse_command(), Some(CommandAction::OpenConfig));
    assert_eq!(palette("search c").parse_command(), Some(CommandAction::SearchContent));
    assert_eq!(palette("nothing").parse_command(), None);
}

#[test]
fn descriptions() {
    assert_eq!(get_command_description("nf"), Some("Create a new file"));
    assert_eq!(get_command_description("grep"), Some("Enter content search overlay"));
    assert_eq!(get_command_description("zz"), None);
    let all = get_all_commands_with_descriptions();
    assert_eq!(all.len(), 5);
    assert_eq!(all[0], ("nf", "", "Create a new file (nf [filename])"));
    assert_eq!(all[4], ("config", "", "Open configuration"));
}

#[test]
fn completion_moves_wrap_and_undo() {
    let mut p = CommandPaletteState::new(Vec::new());
    p.input = "n".to_string();
    p.update_completions();
    assert_eq!(p.completions.len(), 2);
    p.prev_completion();
    assert_eq!(p.completion_index, 1);
    p.next_completion();
    assert_eq!(p.completion_index, 0);
    p.next_completion();
    p.prev_completion();
    assert_eq!(p.completion_index, 0);
}
