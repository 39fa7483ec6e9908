//! Audit log pipeline: producers hand completed entries to a single
//! consumer that owns the durable store. The producer side fills in
//! defaults and refuses nothing once initialized; the consumer side is a
//! state machine deciding, from its buffer and clock, when to flush a
//! batch, when to prune old rows, and when to compact the store.

use vstd::prelude::*;
use vstd::string::*;

verus! {

/// Configuration of the audit pipeline: store path, batch bounds, queue
/// capacity, retention window, and the keeper instance identifier.
#[derive(Clone, Debug)]
pub struct SQLiteLogConfig {
    pub path: String,
    pub batch_max: usize,
    pub batch_ms: u64,
    pub queue_cap: usize,
    pub retention_days: u64,
    pub keeper_instance_id: String,
}

/// One durable record of one attempted remote operation. Never mutated
/// after creation; deleted only by retention pruning.
#[derive(Clone, Debug)]
pub struct TxLog {
    pub keeper_type: String,
    pub keeper_instance_id: String,
    pub op: String,
    pub round_id: Option<i64>,
    pub group_id: Option<i64>,
    pub range_start: Option<i64>,
    pub range_end: Option<i64>,
    pub transaction_signature: Option<String>,
    pub status: String,
    pub error_message: Option<String>,
    pub attempt: i64,
    pub retry_count: i64,
    pub backoff_ms: i64,
    pub gas_used: Option<i64>,
    pub module: Option<String>,
    pub file: Option<String>,
    pub line: Option<i64>,
}

/// The per-operation context a producer sets before an attempt.
#[derive(Clone, Debug)]
pub struct TxContext {
    pub keeper_type: String,
    pub op: String,
    pub round_id: Option<i64>,
    pub group_id: Option<i64>,
    pub range_start: Option<i64>,
    pub range_end: Option<i64>,
}

/// Two contexts carry the same values.
pub open spec fn tx_context_eqv(a: TxContext, b: TxContext) -> bool {
    &&& a.keeper_type@ == b.keeper_type@
    &&& a.op@ == b.op@
    &&& a.round_id == b.round_id
    &&& a.group_id == b.group_id
    &&& a.range_start == b.range_start
    &&& a.range_end == b.range_end
}

/// Two entries agree on everything but the instance identifier.
pub open spec fn tx_log_same_but_id(a: TxLog, b: TxLog) -> bool {
    &&& a.keeper_type == b.keeper_type
    &&& a.op == b.op
    &&& a.round_id == b.round_id
    &&& a.group_id == b.group_id
    &&& a.range_start == b.range_start
    &&& a.range_end == b.range_end
    &&& a.transaction_signature == b.transaction_signature
    &&& a.status == b.status
    &&& a.error_message == b.error_message
    &&& a.attempt == b.attempt
    &&& a.retry_count == b.retry_count
    &&& a.backoff_ms == b.backoff_ms
    &&& a.gas_used == b.gas_used
    &&& a.module == b.module
    &&& a.file == b.file
    &&& a.line == b.line
}

/// The producer-side handle: whether the pipeline is running (and with
/// which configuration), the default instance identifier, and the current
/// per-operation context. Passed explicitly; the pipeline is optional, and
/// recording into an uninitialized pipeline is a no-op.
#[derive(Debug)]
pub struct AuditState {
    pub logger: Option<SQLiteLogConfig>,
    pub default_instance_id: Option<String>,
    pub tx_context: Option<TxContext>,
}

/// A fresh, uninitialized producer handle.
pub fn new_audit_state() -> (r: AuditState)
    ensures
        r.logger is None,
        r.default_instance_id is None,
        r.tx_context is None,
{
    AuditState { logger: None, default_instance_id: None, tx_context: None }
}

/// Marks the pipeline started with this configuration. Only the first
/// initialization takes effect; a later one changes nothing.
pub fn init_global_logger(state: &mut AuditState, cfg: SQLiteLogConfig)
    ensures
        old(state).logger is None ==> final(state).logger == Some(cfg),
        old(state).logger is Some ==> final(state).logger == old(state).logger,
        final(state).default_instance_id == old(state).default_instance_id,
        final(state).tx_context == old(state).tx_context,
{
    if state.logger.is_none() {
        state.logger = Some(cfg);
    }
}

/// The pipeline accepts entries.
pub fn is_initialized(state: &AuditState) -> (r: bool)
    ensures
        r == (state.logger is Some),
{
    state.logger.is_some()
}

/// Stores the default instance identifier for entries that set none. Only
/// the first call takes effect.
pub fn set_default_instance_id(state: &mut AuditState, id: String)
    ensures
        old(state).default_instance_id is None ==> final(state).default_instance_id == Some(id),
        old(state).default_instance_id is Some ==> final(state).default_instance_id == old(
            state,
        ).default_instance_id,
        final(state).logger == old(state).logger,
        final(state).tx_context == old(state).tx_context,
{
    if state.default_instance_id.is_none() {
        state.default_instance_id = Some(id);
    }
}

/// Completes an entry for the pipeline: a no-op (`None`) when the pipeline
/// is not initialized; otherwise the entry, with an empty instance
/// identifier replaced by the stored default.
pub fn log_tx(state: &AuditState, entry: TxLog) -> (r: Option<TxLog>)
    ensures
        state.logger is None <==> r is None,
        (r matches Some(e) ==> {
            &&& tx_log_same_but_id(e, entry)
            &&& e.keeper_instance_id@ == (if entry.keeper_instance_id@.len() == 0 {
                match state.default_instance_id {
                    Some(id) => id@,
                    None => entry.keeper_instance_id@,
                }
            } else {
                entry.keeper_instance_id@
            })
        }),
{
    if state.logger.is_none() {
        return None;
    }
    let mut e = entry;
    if e.keeper_instance_id.as_str().is_empty() {
        match &state.default_instance_id {
            Some(id) => {
                e.keeper_instance_id = id.clone();
            },
            None => {},
        }
    }
    Some(e)
}

/// Sets the per-operation context.
pub fn set_tx_context(state: &mut AuditState, ctx: TxContext)
    ensures
        final(state).tx_context == Some(ctx),
        final(state).logger == old(state).logger,
        final(state).default_instance_id == old(state).default_instance_id,
{
    state.tx_context = Some(ctx);
}

/// Clears the per-operation context.
pub fn clear_tx_context(state: &mut AuditState)
    ensures
        final(state).tx_context is None,
        final(state).logger == old(state).logger,
        final(state).default_instance_id == old(state).default_instance_id,
{
    state.tx_context = None;
}

/// Reads the per-operation context, value for value.
pub fn get_tx_context(state: &AuditState) -> (r: Option<TxContext>)
    ensures
        r is Some <==> state.tx_context is Some,
        (r matches Some(c) ==> tx_context_eqv(c, state.tx_context->Some_0)),
{
    match &state.tx_context {
        Some(c) => Some(
            TxContext {
                keeper_type: c.keeper_type.clone(),
                op: c.op.clone(),
                round_id: c.round_id,
                group_id: c.group_id,
                range_start: c.range_start,
                range_end: c.range_end,
            },
        ),
        None => None,
    }
}

/// Milliseconds between retention passes: once per hour, checked while
/// flushing.
pub const RETENTION_CHECK_MS: u64 = 3600000;

/// Milliseconds between maintenance passes: once per day, checked while
/// flushing.
pub const MAINTENANCE_CHECK_MS: u64 = 86400000;

/// The consumer's state: batching configuration, the buffer of entries not
/// yet written, and the clock readings of the last flush, retention and
/// maintenance passes.
#[derive(Debug)]
pub struct AuditConsumer {
    pub batch_max: usize,
    pub batch_ms: u64,
    pub retention_days: u64,
    pub buffer: Vec<TxLog>,
    pub last_flush_ms: u64,
    pub last_retention_ms: u64,
    pub last_maintenance_ms: u64,
}

/// What one consumer step asks the store to do: write these entries in one
/// transaction, delete rows older than this many days, compact the store.
#[derive(Debug)]
pub struct StepEffects {
    pub flush: Option<Vec<TxLog>>,
    pub prune_older_than_days: Option<u64>,
    pub compact: bool,
}

/// The buffer after taking in one received entry.
pub open spec fn spec_buffer_in(buffer: Seq<TxLog>, received: Option<TxLog>) -> Seq<TxLog> {
    match received {
        Some(e) => buffer + seq![e],
        None => buffer,
    }
}

/// A flush is due: the buffer is non-empty, and either the flush interval
/// has elapsed or the buffer has reached the batch bound.
pub open spec fn spec_flush_due(
    buffer: Seq<TxLog>,
    batch_max: usize,
    batch_ms: u64,
    last_flush_ms: u64,
    now_ms: u64,
) -> bool {
    buffer.len() > 0 && (now_ms - last_flush_ms >= batch_ms || buffer.len() >= batch_max)
}

impl AuditConsumer {
    /// A fresh consumer with an empty buffer, its timers set to now.
    pub fn start(batch_max: usize, batch_ms: u64, retention_days: u64, now_ms: u64) -> (r:
        AuditConsumer)
        ensures
            r.batch_max == batch_max,
            r.batch_ms == batch_ms,
            r.retention_days == retention_days,
            r.buffer@.len() == 0,
            r.last_flush_ms == now_ms,
            r.last_retention_ms == now_ms,
            r.last_maintenance_ms == now_ms,
    {
        AuditConsumer {
            batch_max,
            batch_ms,
            retention_days,
            buffer: Vec::new(),
            last_flush_ms: now_ms,
            last_retention_ms: now_ms,
            last_maintenance_ms: now_ms,
        }
    }

    /// One consumer step: takes in at most one received entry, then flushes
    /// the whole buffer when a flush is due — by count or by elapsed time,
    /// even if the buffer filled only now. A retention pass is requested at
    /// most once per hour and a maintenance pass at most once per day, each
    /// only alongside a flush. Timers advance exactly when their action is
    /// requested.
    pub fn step(&mut self, received: Option<TxLog>, now_ms: u64) -> (r: StepEffects)
        requires
            now_ms >= old(self).last_flush_ms,
            now_ms >= old(self).last_retention_ms,
            now_ms >= old(self).last_maintenance_ms,
        ensures
            ({
                let buf1 = spec_buffer_in(old(self).buffer@, received);
                let due = spec_flush_due(
                    buf1,
                    old(self).batch_max,
                    old(self).batch_ms,
                    old(self).last_flush_ms,
                    now_ms,
                );
                let prune_due = due && now_ms - old(self).last_retention_ms
                    >= RETENTION_CHECK_MS;
                let compact_due = due && now_ms - old(self).last_maintenance_ms
                    >= MAINTENANCE_CHECK_MS;
                &&& (if due {
                    r.flush matches Some(v) && v@ == buf1 && final(self).buffer@.len() == 0
                        && final(self).last_flush_ms == now_ms
                } else {
                    r.flush is None && final(self).buffer@ == buf1 && final(self).last_flush_ms
                        == old(self).last_flush_ms
                })
                &&& (if prune_due {
                    r.prune_older_than_days == Some(old(self).retention_days)
                        && final(self).last_retention_ms == now_ms
                } else {
                    r.prune_older_than_days is None && final(self).last_retention_ms
                        == old(self).last_retention_ms
                })
                &&& r.compact == compact_due
                &&& (if compact_due {
                    final(self).last_maintenance_ms == now_ms
                } else {
                    final(self).last_maintenance_ms == old(self).last_maintenance_ms
                })
                &&& final(self).batch_max == old(self).batch_max
                &&& final(self).batch_ms == old(self).batch_ms
                &&& final(self).retention_days == old(self).retention_days
            }),
    {
        match received {
            Some(e) => {
                self.buffer.push(e);
            },
            None => {},
        }
        let need_time_flush = now_ms - self.last_flush_ms >= self.batch_ms;
        let need_size_flush = self.buffer.len() >= self.batch_max;
        if self.buffer.len() > 0 && (need_time_flush || need_size_flush) {
            let mut flushed: Vec<TxLog> = Vec::new();
            flushed.append(&mut self.buffer);
            self.last_flush_ms = now_ms;
            let prune = if now_ms - self.last_retention_ms >= RETENTION_CHECK_MS {
                self.last_retention_ms = now_ms;
                Some(self.retention_days)
            } else {
                None
            };
            let compact = now_ms - self.last_maintenance_ms >= MAINTENANCE_CHECK_MS;
            if compact {
                self.last_maintenance_ms = now_ms;
            }
            proof {
                assert(flushed@ =~= spec_buffer_in(old(self).buffer@, received));
            }
            StepEffects { flush: Some(flushed), prune_older_than_days: prune, compact }
        } else {
            proof {
                assert(self.buffer@ =~= spec_buffer_in(old(self).buffer@, received));
            }
            StepEffects { flush: None, prune_older_than_days: None, compact: false }
        }
    }
}

/// The text that creates the audit table: the seventeen entry columns,
/// the row id, and the two timestamps.
pub open spec fn spec_create_table_text() -> Seq<char> {
    ("CREATE TABLE IF NOT EXISTS transaction_logs (\
             id INTEGER PRIMARY KEY AUTOINCREMENT,\
             timestamp DATETIME DEFAULT CURRENT_TIMESTAMP,\
             keeper_type TEXT NOT NULL,\
             keeper_instance_id TEXT NOT NULL,\
             op TEXT NOT NULL,\
             round_id INTEGER,\
             group_id INTEGER,\
             range_start INTEGER,\
             range_end INTEGER,\
             transaction_signature TEXT,\
             status TEXT NOT NULL,\
             error_message TEXT,\
             attempt INTEGER DEFAULT 0,\
             retry_count INTEGER DEFAULT 0,\
             backoff_ms INTEGER DEFAULT 0,\
             gas_used INTEGER,\
             module TEXT,\
             file TEXT,\
             line INTEGER,\
             created_at DATETIME DEFAULT CURRENT_TIMESTAMP)")@
}

/// The text of the time index.
pub open spec fn spec_index_time_text() -> Seq<char> {
    ("CREATE INDEX IF NOT EXISTS idx_txlogs_ts ON transaction_logs(timestamp)")@
}

/// The text of the round index.
pub open spec fn spec_index_round_text() -> Seq<char> {
    ("CREATE INDEX IF NOT EXISTS idx_txlogs_round ON transaction_logs(round_id)")@
}

/// The text of the signature index.
pub open spec fn spec_index_signature_text() -> Seq<char> {
    ("CREATE INDEX IF NOT EXISTS idx_txlogs_sig ON transaction_logs(transaction_signature)")@
}

/// The text of the operation-with-time index.
pub open spec fn spec_index_op_time_text() -> Seq<char> {
    ("CREATE INDEX IF NOT EXISTS idx_txlogs_op_ts ON transaction_logs(op, timestamp DESC)")@
}

/// The text that inserts one entry: the seventeen entry columns in field
/// order, one placeholder each. The consumer never updates a row; this
/// insert, the retention delete and the maintenance pass below are the
/// only statements it runs against the table.
pub open spec fn spec_insert_log_text() -> Seq<char> {
    ("INSERT INTO transaction_logs (\
         keeper_type, keeper_instance_id, op, round_id, group_id,\
         range_start, range_end, transaction_signature, status,\
         error_message, attempt, retry_count, backoff_ms,\
         gas_used, module, file, line\
         ) VALUES (?, ?, ?, ?, ?, ?, ?, ?, ?, ?, ?, ?, ?, ?, ?, ?, ?)")@
}

/// The text that prunes old rows: it deletes exactly the rows whose
/// timestamp is older than the offset bound to its one placeholder, such
/// as `-30 days`, and touches nothing else.
pub open spec fn spec_retention_text() -> Seq<char> {
    ("DELETE FROM transaction_logs WHERE timestamp < datetime('now', ?)")@
}

/// The text that checkpoints the write-ahead log.
pub open spec fn spec_checkpoint_text() -> Seq<char> {
    ("PRAGMA wal_checkpoint(TRUNCATE)")@
}

/// The text that compacts the store; it reclaims space and alters no row.
pub open spec fn spec_vacuum_text() -> Seq<char> {
    ("VACUUM")@
}

/// The statements that create the durable audit table and its indexes:
/// the table itself, then one index each on time, round, signature, and
/// operation-with-time — exactly these five texts.
pub fn schema_statements() -> (r: Vec<String>)
    ensures
        r@.len() == 5,
        r@[0]@ == spec_create_table_text(),
        r@[1]@ == spec_index_time_text(),
        r@[2]@ == spec_index_round_text(),
        r@[3]@ == spec_index_signature_text(),
        r@[4]@ == spec_index_op_time_text(),
{
    let mut stmts: Vec<String> = Vec::new();
    stmts.push(
        String::from_str(
            "CREATE TABLE IF NOT EXISTS transaction_logs (\
             id INTEGER PRIMARY KEY AUTOINCREMENT,\
             timestamp DATETIME DEFAULT CURRENT_TIMESTAMP,\
             keeper_type TEXT NOT NULL,\
             keeper_instance_id TEXT NOT NULL,\
             op TEXT NOT NULL,\
             round_id INTEGER,\
             group_id INTEGER,\
             range_start INTEGER,\
             range_end INTEGER,\
             transaction_signature TEXT,\
             status TEXT NOT NULL,\
             error_message TEXT,\
             attempt INTEGER DEFAULT 0,\
             retry_count INTEGER DEFAULT 0,\
             backoff_ms INTEGER DEFAULT 0,\
             gas_used INTEGER,\
             module TEXT,\
             file TEXT,\
             line INTEGER,\
             created_at DATETIME DEFAULT CURRENT_TIMESTAMP)",
        ),
    );
    stmts.push(
        String::from_str(
            "CREATE INDEX IF NOT EXISTS idx_txlogs_ts ON transaction_logs(timestamp)",
        ),
    );
    stmts.push(
        String::from_str(
            "CREATE INDEX IF NOT EXISTS idx_txlogs_round ON transaction_logs(round_id)",
        ),
    );
    stmts.push(
        String::from_str(
            "CREATE INDEX IF NOT EXISTS idx_txlogs_sig ON transaction_logs(transaction_signature)",
        ),
    );
    stmts.push(
        String::from_str(
            "CREATE INDEX IF NOT EXISTS idx_txlogs_op_ts ON transaction_logs(op, timestamp DESC)",
        ),
    );
    stmts
}

/// The parameterized statement that inserts one entry, its seventeen
/// placeholders in the order of the entry's fields: exactly this text, so
/// the consumer appends rows and never updates one.
pub fn insert_log_statement() -> (r: String)
    ensures
        r@ == spec_insert_log_text(),
{
    String::from_str(
        "INSERT INTO transaction_logs (\
         keeper_type, keeper_instance_id, op, round_id, group_id,\
         range_start, range_end, transaction_signature, status,\
         error_message, attempt, retry_count, backoff_ms,\
         gas_used, module, file, line\
         ) VALUES (?, ?, ?, ?, ?, ?, ?, ?, ?, ?, ?, ?, ?, ?, ?, ?, ?)",
    )
}

/// The statement that deletes rows older than the retention window; its
/// one placeholder takes a negative day offset, such as `-30 days`.
/// Exactly this text: retention pruning is the consumer's only deletion.
pub fn retention_statement() -> (r: String)
    ensures
        r@ == spec_retention_text(),
{
    String::from_str("DELETE FROM transaction_logs WHERE timestamp < datetime('now', ?)")
}

/// The statements of one maintenance pass: checkpoint the write-ahead log,
/// then compact the store — exactly these two texts, neither of which
/// changes a row.
pub fn maintenance_statements() -> (r: Vec<String>)
    ensures
        r@.len() == 2,
        r@[0]@ == spec_checkpoint_text(),
        r@[1]@ == spec_vacuum_text(),
{
    let mut stmts: Vec<String> = Vec::new();
    stmts.push(String::from_str("PRAGMA wal_checkpoint(TRUNCATE)"));
    stmts.push(String::from_str("VACUUM"));
    stmts
}

} // verus!
