use keeper::audit::{
    clear_tx_context, get_tx_context, init_global_logger, insert_log_statement, is_initialized,
    log_tx, maintenance_statements, new_audit_state, retention_statement, schema_statements,
    set_default_instance_id, set_tx_context, AuditConsumer, SQLiteLogConfig, TxContext, TxLog,
};
use rusqlite::types::Value;

fn cfg() -> SQLiteLogConfig {
    SQLiteLogConfig {
        path: String::from(":memory:"),
        batch_max: 100,
        batch_ms: 1000,
        queue_cap: 1000,
        retention_days: 30,
        keeper_instance_id: String::from("host:1"),
    }
}

fn entry(op: &str, instance: &str) -> TxLog {
    TxLog {
        keeper_type: String::from("start"),
        keeper_instance_id: String::from(instance),
        op: String::from(op),
        round_id: Some(1),
        group_id: None,
        range_start: None,
        range_end: None,
        transaction_signature: Some(String::from("sig")),
        status: String::from("success"),
        error_message: None,
        attempt: 1,
        retry_count: 0,
        backoff_ms: 0,
        gas_used: None,
        module: None,
        file: None,
        line: None,
    }
}

fn opt_text(v: &Option<String>) -> Value {
    match v {
        Some(s) => Value::Text(s.clone()),
        None => Value::Null,
    }
}

fn opt_int(v: Option<i64>) -> Value {
    match v {
        Some(i) => Value::Integer(i),
        None => Value::Null,
    }
}

fn params_of(e: &TxLog) -> Vec<Value> {
    vec![
        Value::Text(e.keeper_type.clone()),
        Value::Text(e.keeper_instance_id.clone()),
        Value::Text(e.op.clone()),
        opt_int(e.round_id),
        opt_int(e.group_id),
        opt_int(e.range_start),
        opt_int(e.range_end),
        opt_text(&e.transaction_signature),
        Value::Text(e.status.clone()),
        opt_text(&e.error_message),
        Value::Integer(e.attempt),
        Value::Integer(e.retry_count),
        Value::Integer(e.backoff_ms),
        opt_int(e.gas_used),
        opt_text(&e.module),
        opt_text(&e.file),
        opt_int(e.line),
    ]
}

fn count(conn: &rusqlite::Connection) -> i64 {
    conn.query_row("SELECT COUNT(*) FROM transaction_logs", [], |r| r.get(0))
        .unwrap()
}

#[test]
fn recording_is_a_no_op_until_initialized() {
    let mut state = new_audit_state();
    assert!(!is_initialized(&state));
    assert!(log_tx(&state, entry("start_round", "")).is_none());
    init_global_logger(&mut state, cfg());
    assert!(is_initialized(&state));
    // with no default identifier stored, an empty one stays empty
    let e = log_tx(&state, entry("start_round", "")).unwrap();
    assert_eq!(e.keeper_instance_id, "");
}

#[test]
fn empty_instance_id_takes_the_default() {
    let mut state = new_audit_state();
    init_global_logger(&mut state, cfg());
    set_default_instance_id(&mut state, String::from("host:9"));
    let e = log_tx(&state, entry("start_round", "")).unwrap();
    assert_eq!(e.keeper_instance_id, "host:9");
    let e = log_tx(&state, entry("start_round", "host:2")).unwrap();
    assert_eq!(e.keeper_instance_id, "host:2");
    // only the first default sticks
    set_default_instance_id(&mut state, String::from("host:8"));
    let e = log_tx(&state, entry("start_round", "")).unwrap();
    assert_eq!(e.keeper_instance_id, "host:9");
}

#[test]
fn context_is_set_read_and_cleared() {
    let mut state = new_audit_state();
    assert!(get_tx_context(&state).is_none());
    set_tx_context(
        &mut state,
        TxContext {
            keeper_type: String::from("settle"),
            op: String::from("capture_end_price"),
            round_id: Some(4),
            group_id: Some(2),
            range_start: Some(1),
            range_end: Some(50),
        },
    );
    let c = get_tx_context(&state).unwrap();
    assert_eq!(c.keeper_type, "settle");
    assert_eq!(c.op, "capture_end_price");
    assert_eq!(c.round_id, Some(4));
    assert_eq!(c.range_end, Some(50));
    clear_tx_context(&mut state);
    assert!(get_tx_context(&state).is_none());
}

#[test]
fn consumer_flushes_by_size_and_by_time() {
    let mut c = AuditConsumer::start(3, 1000, 30, 0);
    assert!(c.step(Some(entry("a", "i")), 10).flush.is_none());
    assert!(c.step(Some(entry("b", "i")), 20).flush.is_none());
    // third entry reaches the batch bound: size-triggered flush
    let eff = c.step(Some(entry("c", "i")), 30);
    assert_eq!(eff.flush.unwrap().len(), 3);
    // idle steps past the interval flush nothing while empty
    assert!(c.step(None, 5000).flush.is_none());
    // an entry arriving after the interval flushes at once
    let eff = c.step(Some(entry("d", "i")), 5100);
    assert_eq!(eff.flush.unwrap().len(), 1);
}

#[test]
fn consumer_prunes_hourly_and_compacts_daily_alongside_flushes() {
    let mut c = AuditConsumer::start(10, 1000, 30, 0);
    // a flush before the retention interval asks for no pruning
    let eff = c.step(Some(entry("a", "i")), 2000);
    assert!(eff.flush.is_some());
    assert!(eff.prune_older_than_days.is_none());
    assert!(!eff.compact);
    // a flush an hour later prunes with the configured window
    let eff = c.step(Some(entry("b", "i")), 2000 + 3_600_000);
    assert!(eff.flush.is_some());
    assert_eq!(eff.prune_older_than_days, Some(30));
    assert!(!eff.compact);
    // a flush a day later also compacts
    let eff = c.step(Some(entry("c", "i")), 2000 + 86_400_000 + 3_600_000);
    assert!(eff.flush.is_some());
    assert!(eff.compact);
}

#[test]
fn flushed_entries_all_reach_durable_storage() {
    let conn = rusqlite::Connection::open_in_memory().unwrap();
    for s in schema_statements() {
        conn.execute(&s, []).unwrap();
    }
    let mut c = AuditConsumer::start(100, 1000, 30, 0);
    let n = 7;
    for k in 0..n {
        let eff = c.step(Some(entry(&format!("op-{}", k), "i")), 10 + k as u64);
        assert!(eff.flush.is_none());
    }
    // a wait past the flush interval lands every entry in one batch
    let eff = c.step(None, 5000);
    let batch = eff.flush.unwrap();
    assert_eq!(batch.len(), n);
    let sql = insert_log_statement();
    for e in &batch {
        conn.execute(&sql, rusqlite::params_from_iter(params_of(e))).unwrap();
    }
    assert_eq!(count(&conn), n as i64);
}

#[test]
fn retention_removes_only_rows_outside_the_window() {
    let conn = rusqlite::Connection::open_in_memory().unwrap();
    for s in schema_statements() {
        conn.execute(&s, []).unwrap();
    }
    let sql = insert_log_statement();
    for k in 0..3 {
        conn.execute(&sql, rusqlite::params_from_iter(params_of(&entry(&format!("op-{}", k), "i"))))
            .unwrap();
    }
    // age one row beyond the window
    conn.execute(
        "UPDATE transaction_logs SET timestamp = datetime('now', '-40 days') WHERE op = 'op-0'",
        [],
    )
    .unwrap();
    conn.execute(&retention_statement(), [Value::Text(String::from("-30 days"))])
        .unwrap();
    assert_eq!(count(&conn), 2);
    // a maintenance pass preserves the rows inside the window
    for s in maintenance_statements() {
        conn.execute_batch(&s).unwrap();
    }
    assert_eq!(count(&conn), 2);
}
