use fsm_core::fs_state::{FSState, MAX_RECENT_DIRS};
use std::path::PathBuf;
use std::sync::Arc;

#[test]
fn active_pane_can_be_changed_in_place() {
    let mut fs = FSState::new(PathBuf::from("/tmp"));
    fs.active_pane_mut().set_viewport_height(10);
    assert_eq!(fs.active_pane().viewport_height, 7);
    assert_eq!(fs.panes.len(), 1);
}

#[test]
fn recent_dirs_stay_bounded() {
    let mut fs = FSState::default();
    for i in 0..(MAX_RECENT_DIRS + 5) {
        fs.add_recent_dir(Arc::new(PathBuf::from(format!("/d{i}"))));
    }
    assert_eq!(fs.recent_dirs.len(), MAX_RECENT_DIRS);
    assert_eq!(fs.recent_dirs.back().unwrap().as_ref(), &PathBuf::from(format!("/d{}", MAX_RECENT_DIRS + 4)));
    assert_eq!(fs.recent_dirs.front().unwrap().as_ref(), &PathBuf::from("/d5"));
}
