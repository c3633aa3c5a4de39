use fsm_core::csv_doc::encode_records;
use fsm_core::profiling::{
    ArcMonitor, ContentionLevel, CustomEvent, DataExporter, ExportFormat, OperationCells, SnapshotCells,
};

fn ev(name: &str, d: u64, meta: Option<&str>) -> CustomEvent {
    CustomEvent {
        timestamp: 1700,
        name: name.to_string(),
        duration_ms: d,
        metadata: meta.map(String::from),
        category: "custom".to_string(),
    }
}

#[test]
fn csv_header_has_fourteen_columns() {
    let h = DataExporter::csv_header();
    assert_eq!(h.len(), 14);
    assert_eq!(h[0], "timestamp");
    assert_eq!(h[13], "async_avg_task_ms");
}

#[test]
fn event_rows() {
    let row = DataExporter::custom_event_record(&ev("load", 25, Some("m")));
    assert_eq!(row.len(), 14);
    assert_eq!(&row[..6], &["1700", "custom_event", "load", "25", "custom", "m"]);
    assert!(row[6..].iter().all(|c| c.is_empty()));
    let row = DataExporter::custom_event_record(&ev("load", 25, None));
    assert_eq!(row[5], "");
    let row = DataExporter::arc_operation_record(99, "lock_ui", 4);
    assert_eq!(&row[..6], &["99", "arc_operation", "lock_ui", "0", "arc_pattern", "access_count:4"]);
    assert_eq!(row.len(), 14);
}

#[test]
fn export_file_names() {
    assert_eq!(DataExporter::export_file_name(&ExportFormat::Json, 5), "profiling-5.json");
    assert_eq!(DataExporter::export_file_name(&ExportFormat::Csv, 5), "profiling-5.csv");
    assert_eq!(DataExporter::export_file_name(&ExportFormat::Flamegraph, 5), "flamegraph-5.folded");
    assert!(DataExporter::is_export_file_name("profiling-1.csv"));
    assert!(DataExporter::is_export_file_name("arc-metrics-1.json"));
    assert!(DataExporter::is_export_file_name("flamegraph-1.folded"));
    assert!(!DataExporter::is_export_file_name("app.jsonl"));
}

#[test]
fn events_are_aggregated_by_name_in_first_seen_order() {
    let events = vec![ev("a", 10, None), ev("b", 3, None), ev("a", 20, None), ev("a", 1, None)];
    let agg = DataExporter::aggregate_custom_events(&events);
    assert_eq!(agg, vec![("a".to_string(), 31, 3), ("b".to_string(), 3, 1)]);
    let lines = DataExporter::custom_stack_lines(&events);
    assert_eq!(lines, vec!["custom;a 10 3".to_string(), "custom;b 3 1".to_string()]);
    assert!(DataExporter::custom_stack_lines(&[]).is_empty());
}

fn snapshot(lock_acquisitions: u64, contention_events: u64) -> SnapshotCells {
    SnapshotCells {
        timestamp: 1700,
        memory_used_mb: 512,
        cpu_usage_percent: "12.5".to_string(),
        cpu_usage_whole: 12,
        process_memory_mb: 40,
        lock_acquisitions,
        contention_events,
        avg_wait_time_ms: "0.75".to_string(),
        avg_wait_time_whole: 0,
        tasks_completed: 7,
        avg_task_time_ms: "3.5".to_string(),
        custom_events: vec![ev("load", 25, Some("a,b")), ev("load", 5, None)],
        access_patterns: vec![("lock_ui".to_string(), 4)],
        operations: vec![OperationCells {
            op_type: "scan".to_string(),
            avg_time_ms: "2.5".to_string(),
            avg_time_whole: 2,
            count: 3,
            max_time_ms: 9,
            min_time_ms: 1,
        }],
    }
}

#[test]
fn csv_export_document() {
    let doc = DataExporter::export_csv_document(&snapshot(8, 2));
    let text = String::from_utf8(doc).unwrap();
    let expected = "timestamp,event_type,name,duration_ms,category,metadata,system_memory_mb,\
system_cpu_percent,process_memory_mb,arc_lock_acquisitions,arc_contention_events,arc_avg_wait_ms,\
async_tasks_completed,async_avg_task_ms\n\
1700,system_metrics,system_snapshot,0,system,,512,12.5,40,8,2,0.75,7,3.5\n\
1700,custom_event,load,25,custom,\"a,b\",,,,,,,,\n\
1700,custom_event,load,5,custom,,,,,,,,,\n\
1700,arc_operation,lock_ui,0,arc_pattern,access_count:4,,,,,,,,\n\
1700,async_operation,scan,2.5,async_stats,\"count:3,max:9,min:1\",,,,,,,,\n";
    assert_eq!(text, expected);
}

#[test]
fn csv_records_refuse_uneven_widths() {
    let even = vec![vec!["a".to_string(), "b".to_string()], vec!["c".to_string(), "d e".to_string()]];
    assert_eq!(encode_records(&even).map(|b| String::from_utf8(b).unwrap()), Some("a,b\nc,d e\n".to_string()));
    let uneven = vec![vec!["a".to_string(), "b".to_string()], vec!["c".to_string()]];
    assert_eq!(encode_records(&uneven), None);
    assert_eq!(encode_records(&vec![]), Some(vec![]));
}

#[test]
fn flamegraph_export_text() {
    let text = DataExporter::export_flamegraph_text(&snapshot(8, 2));
    assert_eq!(
        text,
        "system;memory_usage 512 1\nsystem;cpu_usage 12 1\narc;lock_operations 0 8\n\
arc;lock_operations;contention 0 2\nasync;scan 2 3\ncustom;load 15 2\n"
    );
    let quiet = DataExporter::export_flamegraph_text(&snapshot(0, 5));
    assert_eq!(quiet, "system;memory_usage 512 1\nsystem;cpu_usage 12 1\nasync;scan 2 3\ncustom;load 15 2\n");
    let calm = DataExporter::export_flamegraph_text(&snapshot(3, 0));
    assert!(calm.contains("arc;lock_operations 0 3\n"));
    assert!(!calm.contains("contention"));
}

#[test]
fn access_patterns_most_accessed_first_ties_in_given_order() {
    let patterns = vec![
        ("fs_read".to_string(), 3),
        ("ui_draw".to_string(), 9),
        ("fs_write".to_string(), 3),
        ("cache".to_string(), 0),
    ];
    assert_eq!(
        ArcMonitor::access_pattern_lines(&patterns),
        vec![
            "ui_draw: 9 accesses".to_string(),
            "fs_read: 3 accesses".to_string(),
            "fs_write: 3 accesses".to_string(),
            "cache: 0 accesses".to_string(),
        ]
    );
    assert!(ArcMonitor::access_pattern_lines(&[]).is_empty());
}

#[test]
fn contention_report_text() {
    let patterns = vec![("lock_fs".to_string(), 2), ("lock_ui".to_string(), 5)];
    let report =
        ArcMonitor::generate_contention_report(40, 3, "7.50", "12.25", 1, &patterns, ContentionLevel::Moderate, false);
    let expected = "=== Arc Contention Report ===\n\
Total lock acquisitions: 40\n\
Contention events: 3\n\
Contention rate: 7.50%\n\
Average wait time: 12.25ms\n\
Contention rate: 7.50%\n\
Deadlock near misses: 1\n\
\n=== Access Patterns ===\n\
lock_ui: 5 accesses\n\
lock_fs: 2 accesses\n\
\n=== Crisis #2 Validation ===\n\
⚠️  Moderate contention rate - monitor for issues\n\
⚠️  Slow lock acquisition times\n";
    assert_eq!(report, expected);
    let calm = ArcMonitor::generate_contention_report(0, 0, "0.00", "0.00", 0, &[], ContentionLevel::Low, true);
    assert!(calm.ends_with(
        "=== Access Patterns ===\n\n=== Crisis #2 Validation ===\n✅ Low contention rate - Arc architecture working well\n✅ Fast lock acquisition times\n"
    ));
    assert!(ArcMonitor::generate_contention_report(1, 1, "100.00", "0", 0, &[], ContentionLevel::High, true)
        .contains("❌ High contention rate - Arc architecture may need optimization\n"));
    assert!(ArcMonitor::is_arc_healthy(ContentionLevel::Low, true, 0));
    assert!(!ArcMonitor::is_arc_healthy(ContentionLevel::Low, true, 1));
    assert!(!ArcMonitor::is_arc_healthy(ContentionLevel::Moderate, true, 0));
    assert!(!ArcMonitor::is_arc_healthy(ContentionLevel::Low, false, 0));
}
