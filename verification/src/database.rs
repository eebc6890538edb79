//! The backend-polymorphic connection abstraction.
//!
//! A database is constructed in exactly one of four modes and is
//! immutable after construction but for the replica a sync-enabled
//! database owns. `connect` dispatches to the backend the mode selects;
//! the backend set is closed and every dispatch site matches it
//! exhaustively, so adding a backend forces every site to be updated.

use vstd::prelude::*;

use crate::errors::Error;
use crate::hrana::{spec_auth_header, spec_url_for_queries, stmt_planned, Client, InnerClient, Stmt};
use crate::params::Params;
use crate::replication::{apply_seq, apply_snapshot_model, frames_valid_from, Frames, Replica};

verus! {

/// Access mode of a local database file.
#[allow(non_camel_case_types)]
#[derive(Clone, Copy, Debug, PartialEq, Eq, Structural)]
pub enum OpenFlags {
    SQLITE_RO,
    SQLITE_RW,
}

/// How a transaction is begun: the local engine's native start modes.
#[derive(Clone, Copy, Debug, PartialEq, Eq, Structural)]
pub enum TransactionBehavior {
    Deferred,
    Immediate,
    Exclusive,
}

/// The begin statement each behavior maps to: each mode its own
/// statement, never another mode's.
pub open spec fn begin_stmt_chars(behavior: TransactionBehavior) -> Seq<char> {
    match behavior {
        TransactionBehavior::Deferred => seq![
            'B',
            'E',
            'G',
            'I',
            'N',
            ' ',
            'D',
            'E',
            'F',
            'E',
            'R',
            'R',
            'E',
            'D',
        ],
        TransactionBehavior::Immediate => seq![
            'B',
            'E',
            'G',
            'I',
            'N',
            ' ',
            'I',
            'M',
            'M',
            'E',
            'D',
            'I',
            'A',
            'T',
            'E',
        ],
        TransactionBehavior::Exclusive => seq![
            'B',
            'E',
            'G',
            'I',
            'N',
            ' ',
            'E',
            'X',
            'C',
            'L',
            'U',
            'S',
            'I',
            'V',
            'E',
        ],
    }
}

/// The statement that begins a transaction of the given behavior, for
/// a backend that executes SQL directly.
pub fn behavior_sql(behavior: TransactionBehavior) -> (r: &'static str)
    ensures
        r@ == begin_stmt_chars(behavior),
{
    match behavior {
        TransactionBehavior::Deferred => {
            proof {
                reveal_strlit("BEGIN DEFERRED");
                assert("BEGIN DEFERRED"@ =~= begin_stmt_chars(TransactionBehavior::Deferred));
            }
            "BEGIN DEFERRED"
        },
        TransactionBehavior::Immediate => {
            proof {
                reveal_strlit("BEGIN IMMEDIATE");
                assert("BEGIN IMMEDIATE"@ =~= begin_stmt_chars(TransactionBehavior::Immediate));
            }
            "BEGIN IMMEDIATE"
        },
        TransactionBehavior::Exclusive => {
            proof {
                reveal_strlit("BEGIN EXCLUSIVE");
                assert("BEGIN EXCLUSIVE"@ =~= begin_stmt_chars(TransactionBehavior::Exclusive));
            }
            "BEGIN EXCLUSIVE"
        },
    }
}

/// The backend selector a database is constructed with.
#[derive(Debug)]
pub enum DbType {
    /// A fresh in-memory database.
    Memory,
    /// A local database file.
    File { path: String, readonly: bool },
    /// A local replica kept current by frame application.
    Sync { path: String, replica: Replica },
    /// A purely remote database behind the wire protocol.
    Remote { url: String, auth_token: String },
}

/// A database handle: the backend selector plus the access-mode flag,
/// fixed at construction.
#[derive(Debug)]
pub struct Database {
    pub db_type: DbType,
    pub flags: Option<OpenFlags>,
}

/// A handle on the local execution engine: which database it is bound
/// to and with which access mode. Driving the engine itself — an
/// external, blocking collaborator — happens at the crate's edge,
/// serialized through the bridge.
#[derive(Debug)]
pub struct LocalConnection {
    pub target: String,
    pub readonly: bool,
}

/// The closed set of connection backends.
#[derive(Debug)]
pub enum ConnKind {
    /// The local execution engine, bridged.
    Local(LocalConnection),
    /// The remote wire-protocol client.
    Remote(Client),
}

/// The backend's visible per-connection state, as it last reported it:
/// rows affected by the last statement, the last inserted rowid, and
/// whether the connection is in autocommit (no explicit transaction
/// open).
#[derive(Clone, Copy, Debug, PartialEq, Eq, Structural)]
pub struct ConnState {
    pub changes: u64,
    pub last_insert_rowid: i64,
    pub is_autocommit: bool,
}

/// What one statement execution must do: the closed dispatch of the
/// capability interface. The step carries the exact statement; the
/// crate's edge performs it — through the bridge against the local
/// engine, or as a wire request.
#[derive(Debug)]
pub enum ExecStep {
    /// Run the statement on the local engine, serialized through the
    /// bridge.
    Local(Stmt),
    /// Send the statement over the wire protocol.
    Remote(Stmt),
}

/// A connection bound to one backend. Statements and transactions
/// obtained from it stay on that backend.
#[derive(Debug)]
pub struct Connection {
    pub conn: ConnKind,
    pub state: ConnState,
}

impl Connection {
    /// Whether this connection executes on the local engine.
    pub fn is_local(&self) -> (r: bool)
        ensures
            r == (self.conn is Local),
    {
        match &self.conn {
            ConnKind::Local(_) => true,
            ConnKind::Remote(_) => false,
        }
    }

    /// The statement that begins a transaction of the given behavior on
    /// this connection. The local engine supports all three modes
    /// natively. The wire protocol defines no immediate or exclusive
    /// stream start, so on a remote connection those two fail
    /// explicitly instead of silently downgrading; deferred maps to the
    /// protocol's plain begin.
    pub fn transaction_begin_sql(&self, behavior: TransactionBehavior) -> (r: Result<
        &'static str,
        Error,
    >)
        ensures
            self.conn is Local ==> r is Ok,
            self.conn is Remote ==> (r is Ok <==> behavior is Deferred),
            r matches Ok(s) ==> s@ == begin_stmt_chars(behavior),
            r is Err ==> r->Err_0 matches Error::TransactionBehaviorNotSupported(_),
    {
        match &self.conn {
            ConnKind::Local(_) => Ok(behavior_sql(behavior)),
            ConnKind::Remote(_) => match behavior {
                TransactionBehavior::Deferred => Ok(behavior_sql(TransactionBehavior::Deferred)),
                TransactionBehavior::Immediate => Err(
                    Error::TransactionBehaviorNotSupported(
                        String::from_str("immediate transactions are not supported remotely"),
                    ),
                ),
                TransactionBehavior::Exclusive => Err(
                    Error::TransactionBehaviorNotSupported(
                        String::from_str("exclusive transactions are not supported remotely"),
                    ),
                ),
            },
        }
    }

    /// Routes one `execute` (`want_rows` false) or `query` (`want_rows`
    /// true) to this connection's backend: the step carries exactly the
    /// statement built from `sql` and `params`, and goes to the local
    /// engine or the wire according to the backend — never the other.
    pub fn plan_execute(&self, sql: &str, params: Params, want_rows: bool) -> (r: ExecStep)
        ensures
            r is Local <==> self.conn is Local,
            match r {
                ExecStep::Local(s) => stmt_planned(s, sql@, params, want_rows),
                ExecStep::Remote(s) => stmt_planned(s, sql@, params, want_rows),
            },
    {
        let stmt = Stmt::with_params(sql, params, want_rows);
        match &self.conn {
            ConnKind::Local(_) => ExecStep::Local(stmt),
            ConnKind::Remote(_) => ExecStep::Remote(stmt),
        }
    }

    /// Records what the backend reported for the last executed
    /// statement: the affected-row count, the last inserted rowid if
    /// one was produced, and the autocommit state after the statement.
    pub fn record_execute_outcome(
        &mut self,
        affected_row_count: u64,
        last_insert_rowid: Option<i64>,
        is_autocommit: bool,
    )
        ensures
            final(self).conn == old(self).conn,
            final(self).state.changes == affected_row_count,
            final(self).state.is_autocommit == is_autocommit,
            final(self).state.last_insert_rowid == (match last_insert_rowid {
                Some(id) => id,
                None => old(self).state.last_insert_rowid,
            }),
    {
        self.state.changes = affected_row_count;
        if let Some(id) = last_insert_rowid {
            self.state.last_insert_rowid = id;
        }
        self.state.is_autocommit = is_autocommit;
    }

    /// Whether no explicit transaction is open, as the backend last
    /// reported.
    pub fn is_autocommit(&self) -> (r: bool)
        ensures
            r == self.state.is_autocommit,
    {
        self.state.is_autocommit
    }

    /// Rows affected by the last statement, as the backend last
    /// reported.
    pub fn changes(&self) -> (r: u64)
        ensures
            r == self.state.changes,
    {
        self.state.changes
    }

    /// The last inserted rowid, as the backend last reported.
    pub fn last_insert_rowid(&self) -> (r: i64)
        ensures
            r == self.state.last_insert_rowid,
    {
        self.state.last_insert_rowid
    }
}

/// The in-memory engine target name.
pub open spec fn memory_target() -> Seq<char> {
    seq![':', 'm', 'e', 'm', 'o', 'r', 'y', ':']
}

impl Database {
    /// A fresh in-memory database.
    pub fn open_in_memory() -> (r: Result<Database, Error>)
        ensures
            r matches Ok(db) && db.db_type is Memory && db.flags is None,
    {
        Ok(Database { db_type: DbType::Memory, flags: None })
    }

    /// A local database file, read-write.
    pub fn open(db_path: &str) -> (r: Result<Database, Error>)
        ensures
            r matches Ok(db) && db.db_type matches DbType::File { path, readonly } && path@
                == db_path@ && !readonly && db.flags is None,
    {
        Ok(Database { db_type: DbType::File { path: db_path.to_owned(), readonly: false }, flags: None })
    }

    /// A local database file with an explicit access mode.
    pub fn open_with_flags(db_path: &str, flags: OpenFlags) -> (r: Result<Database, Error>)
        ensures
            r matches Ok(db) && db.db_type matches DbType::File { path, readonly } && path@
                == db_path@ && readonly == (flags is SQLITE_RO) && db.flags == Some(flags),
    {
        let readonly = match flags {
            OpenFlags::SQLITE_RO => true,
            OpenFlags::SQLITE_RW => false,
        };
        Ok(
            Database {
                db_type: DbType::File { path: db_path.to_owned(), readonly },
                flags: Some(flags),
            },
        )
    }

    /// A local replica of a remote database, kept current by handing
    /// frame batches to [`Database::sync_frames`].
    pub fn open_with_local_sync(db_path: &str) -> (r: Result<Database, Error>)
        ensures
            r matches Ok(db) && db.db_type matches DbType::Sync { path, replica } && path@
                == db_path@ && replica@.cursor == 0 && replica@.committed
                == Seq::<Seq<u8>>::empty() && replica@.pending == Seq::<Seq<u8>>::empty()
                && db.flags is None,
    {
        Ok(
            Database {
                db_type: DbType::Sync { path: db_path.to_owned(), replica: Replica::new() },
                flags: None,
            },
        )
    }

    /// A purely remote database behind the given endpoint and token.
    pub fn open_remote(url: &str, auth_token: &str) -> (r: Result<Database, Error>)
        ensures
            r matches Ok(db) && db.db_type matches DbType::Remote { url: u, auth_token: t } && u@
                == url@ && t@ == auth_token@ && db.flags is None,
    {
        Ok(
            Database {
                db_type: DbType::Remote { url: url.to_owned(), auth_token: auth_token.to_owned() },
                flags: None,
            },
        )
    }

    /// Connects to the backend this database was constructed for: the
    /// local engine for memory, file and replica modes; the wire
    /// protocol client, configured with the endpoint and token, for
    /// remote mode.
    pub fn connect(&self) -> (r: Result<Connection, Error>)
        ensures
            r matches Ok(c) ==> match self.db_type {
                DbType::Memory => c.conn matches ConnKind::Local(l) && l.target@ == memory_target()
                    && l.readonly == (self.flags == Some(OpenFlags::SQLITE_RO)),
                DbType::File { path, readonly } => c.conn matches ConnKind::Local(l) && l.target@
                    == path@ && l.readonly == (self.flags == Some(OpenFlags::SQLITE_RO)),
                DbType::Sync { path, replica } => c.conn matches ConnKind::Local(l) && l.target@
                    == path@ && !l.readonly,
                DbType::Remote { url, auth_token } => c.conn matches ConnKind::Remote(cl)
                    && cl@.url == spec_url_for_queries(url@) && cl@.auth == spec_auth_header(
                    auth_token@,
                ) && cl@.cookies == Map::<u64, crate::hrana::Cookie>::empty() && cl@.closed
                    == Set::<u64>::empty(),
            },
            r matches Ok(c) ==> c.state == (ConnState {
                changes: 0,
                last_insert_rowid: 0,
                is_autocommit: true,
            }),
            r is Ok,
    {
        let state = ConnState { changes: 0, last_insert_rowid: 0, is_autocommit: true };
        let readonly = match &self.flags {
            Some(OpenFlags::SQLITE_RO) => true,
            Some(OpenFlags::SQLITE_RW) => false,
            None => false,
        };
        match &self.db_type {
            DbType::Memory => {
                proof {
                    reveal_strlit(":memory:");
                    assert(":memory:"@ =~= memory_target());
                }
                let target = String::from_str(":memory:");
                Ok(Connection { conn: ConnKind::Local(LocalConnection { target, readonly }), state })
            },
            DbType::File { path, readonly: _ } => {
                Ok(
                    Connection {
                        conn: ConnKind::Local(LocalConnection { target: path.clone(), readonly }),
                        state,
                    },
                )
            },
            DbType::Sync { path, replica: _ } => {
                Ok(
                    Connection {
                        conn: ConnKind::Local(
                            LocalConnection { target: path.clone(), readonly: false },
                        ),
                        state,
                    },
                )
            },
            DbType::Remote { url, auth_token } => {
                let client = Client::new(InnerClient::new(), url.as_str(), auth_token.as_str());
                Ok(Connection { conn: ConnKind::Remote(client), state })
            },
        }
    }

    /// Applies one batch of frames, or one snapshot, to the replica of
    /// a sync-enabled database, exactly as [`Replica::sync_frames`]
    /// does; on every other backend it fails with a sync-not-supported
    /// error naming that backend, and changes nothing.
    pub fn sync_frames(&mut self, frames: Frames) -> (r: Result<usize, Error>)
        ensures
            !(old(self).db_type is Sync) ==> *final(self) == *old(self) && r matches Err(
                Error::SyncNotSupported(_),
            ),
            old(self).db_type matches DbType::Sync { path, replica } ==> {
                &&& final(self).db_type matches DbType::Sync { path: p2, replica: r2 } && p2 == path
                    && (match frames {
                    Frames::Vec(fs) => {
                        &&& frames_valid_from(replica@.cursor, fs@) ==> r == Ok::<usize, Error>(
                            fs.len(),
                        ) && r2@ == apply_seq(replica@, fs@)
                        &&& !frames_valid_from(replica@.cursor, fs@) ==> r is Err && r2@ == replica@
                    },
                    Frames::Snapshot(s) => r == Ok::<usize, Error>(s.pages.len() as usize) && r2@
                        == apply_snapshot_model(replica@, s),
                })
                &&& final(self).flags == old(self).flags
            },
    {
        match &mut self.db_type {
            DbType::Sync { path: _, replica } => replica.sync_frames(frames),
            DbType::Memory => Err(Error::SyncNotSupported(String::from_str("in-memory"))),
            DbType::File { .. } => Err(Error::SyncNotSupported(String::from_str("file"))),
            DbType::Remote { .. } => Err(Error::SyncNotSupported(String::from_str("remote"))),
        }
    }

    /// The replica's cursor, for a sync-enabled database.
    pub fn sync_cursor(&self) -> (r: Option<u64>)
        ensures
            self.db_type matches DbType::Sync { path, replica } ==> r == Some(replica@.cursor),
            !(self.db_type is Sync) ==> r is None,
    {
        match &self.db_type {
            DbType::Sync { path: _, replica } => Some(replica.cursor()),
            _ => None,
        }
    }
}

} // verus!
