use infer_bridge::events::{classify, progress_percent, ClassifyError, WsEvent};

fn event_of(text: &str) -> WsEvent {
    match classify(text) {
        Ok(Some(e)) => e,
        Ok(None) => panic!("ignored: {}", text),
        Err(e) => panic!("rejected {:?}: {}", e, text),
    }
}

#[test]
fn task_completed_carries_task_and_status() {
    let e = event_of(r#"{"type":"task_completed","data":{"task_id":"t1","status":"done"}}"#);
    match e {
        WsEvent::TaskCompleted(m) => {
            assert_eq!(m.event_type, "task_completed");
            assert_eq!(m.task_id, "t1");
            assert_eq!(m.status.as_deref(), Some("done"));
            assert!(m.result.is_none());
            assert!(m.message.is_none());
            assert_eq!(m.total_items, None);
            assert_eq!(m.processed_items, None);
        }
        _ => panic!("wrong event"),
    }
    assert_eq!(
        event_of(r#"{"type":"task_completed","data":{"task_id":"t1"}}"#).channel(),
        "ws_task_completed"
    );
}

#[test]
fn task_completed_defaults_status_to_completed() {
    match event_of(r#"{"type":"task_completed","data":{"task_id":"t9","message":"ok","total_items":4,"processed_items":4}}"#) {
        WsEvent::TaskCompleted(m) => {
            assert_eq!(m.status.as_deref(), Some("completed"));
            assert_eq!(m.message.as_deref(), Some("ok"));
            assert_eq!(m.total_items, Some(4));
            assert_eq!(m.processed_items, Some(4));
        }
        _ => panic!("wrong event"),
    }
}

#[test]
fn progress_carries_raw_counts() {
    match event_of(r#"{"type":"progress","data":{"task_id":"t2","total_items":10,"processed_items":5}}"#) {
        WsEvent::Progress(m) => {
            assert_eq!(m.event_type, "progress");
            assert_eq!(m.task_id, "t2");
            assert_eq!(m.status.as_deref(), Some("running"));
            assert_eq!(m.total_items, Some(10));
            assert_eq!(m.processed_items, Some(5));
            assert!(m.result.is_none());
        }
        _ => panic!("wrong event"),
    }
}

#[test]
fn progress_update_reads_alternate_count_keys() {
    match event_of(r#"{"type":"progress_update","data":{"task_id":"t3","total":8,"completed_items":2}}"#) {
        WsEvent::Progress(m) => {
            assert_eq!(m.total_items, Some(8));
            assert_eq!(m.processed_items, Some(2));
        }
        _ => panic!("wrong event"),
    }
    match event_of(r#"{"type":"progress","data":{"current":3}}"#) {
        WsEvent::Progress(m) => {
            assert_eq!(m.task_id, "");
            assert_eq!(m.total_items, None);
            assert_eq!(m.processed_items, Some(3));
        }
        _ => panic!("wrong event"),
    }
}

#[test]
fn progress_reads_nested_result() {
    let text = r#"{"type":"progress","data":{"task_id":"t4","current_result":{"mode":"single","result":"live","confidence":0.97,"probabilities":[0.03,"x",0.97,null,1],"processing_time":42}}}"#;
    match event_of(text) {
        WsEvent::Progress(m) => {
            let r = m.result.expect("result");
            assert_eq!(r.mode, "single");
            assert_eq!(r.result, "live");
            assert_eq!(r.confidence.and_then(|c| c.as_f64()), Some(0.97));
            let p: Vec<f64> = r.probabilities.iter().filter_map(|n| n.as_f64()).collect();
            assert_eq!(p, vec![0.03, 0.97, 1.0]);
            assert_eq!(r.processing_time, 42);
        }
        _ => panic!("wrong event"),
    }
}

#[test]
fn progress_result_fields_default_when_absent() {
    match event_of(r#"{"type":"progress","data":{"current_result":{}}}"#) {
        WsEvent::Progress(m) => {
            let r = m.result.expect("result");
            assert_eq!(r.mode, "");
            assert_eq!(r.result, "");
            assert!(r.confidence.is_none());
            assert!(r.probabilities.is_empty());
            assert_eq!(r.processing_time, 0);
        }
        _ => panic!("wrong event"),
    }
    match event_of(r#"{"type":"progress","data":{"current_result":"nope"}}"#) {
        WsEvent::Progress(m) => assert!(m.result.is_none()),
        _ => panic!("wrong event"),
    }
}

#[test]
fn task_failed_is_marked_failed() {
    match event_of(r#"{"type":"task_failed","data":{"task_id":"t5","message":"boom","total_items":3}}"#) {
        WsEvent::TaskFailed(m) => {
            assert_eq!(m.event_type, "task_failed");
            assert_eq!(m.task_id, "t5");
            assert_eq!(m.status.as_deref(), Some("failed"));
            assert_eq!(m.message.as_deref(), Some("boom"));
            assert_eq!(m.total_items, None);
        }
        _ => panic!("wrong event"),
    }
}

#[test]
fn unknown_types_are_ignored() {
    for text in [
        r#"{"type":"server_hello","data":{}}"#,
        r#"{"type":"connected","client_id":"x"}"#,
        r#"{"data":{"task_id":"t1"}}"#,
        r#"{"type":7}"#,
        r#"[1,2,3]"#,
        r#""pong""#,
    ] {
        assert!(matches!(classify(text), Ok(None)), "{}", text);
    }
}

#[test]
fn known_types_need_data() {
    for t in ["task_completed", "task_failed", "progress", "progress_update"] {
        let text = format!(r#"{{"type":"{}"}}"#, t);
        assert!(matches!(classify(&text), Err(ClassifyError::MissingData)), "{}", t);
    }
}

#[test]
fn non_json_is_rejected() {
    assert!(matches!(classify("ping"), Err(ClassifyError::InvalidJson)));
    assert!(matches!(classify(""), Err(ClassifyError::InvalidJson)));
}

#[test]
fn counts_are_cut_to_32_bits() {
    match event_of(r#"{"type":"progress","data":{"total_items":4294967297,"processed_items":-1}}"#) {
        WsEvent::Progress(m) => {
            assert_eq!(m.total_items, Some(1));
            assert_eq!(m.processed_items, None);
        }
        _ => panic!("wrong event"),
    }
}

#[test]
fn percent_with_zero_total_is_zero() {
    assert_eq!(progress_percent(Some(0), Some(0)), 0);
    assert_eq!(progress_percent(Some(0), Some(7)), 0);
    assert_eq!(progress_percent(None, Some(7)), 0);
    assert_eq!(progress_percent(Some(7), None), 0);
}

#[test]
fn percent_rounds_to_nearest() {
    assert_eq!(progress_percent(Some(10), Some(5)), 50);
    assert_eq!(progress_percent(Some(3), Some(1)), 33);
    assert_eq!(progress_percent(Some(3), Some(2)), 67);
    assert_eq!(progress_percent(Some(8), Some(1)), 13);
    assert_eq!(progress_percent(Some(4), Some(4)), 100);
    assert_eq!(progress_percent(Some(u32::MAX), Some(u32::MAX)), 100);
    assert_eq!(progress_percent(Some(1), Some(u32::MAX)), 429496729500);
}
