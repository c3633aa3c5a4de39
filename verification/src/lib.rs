//! The core of a terminal file manager: pane and filesystem state,
//! directory listings and their ordering, the command palette and its
//! completions, ripgrep output parsing, filename search and directory size
//! bookkeeping, JSON-lines log conversion, profiling exports, and the texts
//! and sizes the screen is drawn from, each with its specification.
pub mod text;
pub mod command_palette;
pub mod stable_sort;
pub mod object_registry;
pub mod paths;
pub mod fs_state;
pub mod humanize;
pub mod debounce;
pub mod csv_doc;
pub mod profiling;
pub mod ui_state;
pub mod file_ops;
pub mod app_state;
pub mod completion;
pub mod overlays;
pub mod ui;
pub mod snapshots;
pub mod search;
pub mod jsonl;
pub mod keyed_sort;
pub mod search_stream;
pub mod size_walk;
