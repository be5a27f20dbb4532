use vstd::prelude::*;
use crate::error::IsarError;

verus! {

/// An exclusive handle to the storage engine for one storage file. The handle
/// is never duplicated: whoever holds the value holds the connection.
#[derive(Debug)]
pub struct Connection {
    handle: u64,
}

impl Connection {
    /// Wraps the handle that the storage engine gave out for a newly opened
    /// connection.
    pub fn new(handle: u64) -> (c: Connection)
        ensures
            c.handle() == handle,
    {
        Connection { handle }
    }

    /// The storage engine's handle.
    #[verifier::when_used_as_spec(spec_handle)]
    pub fn handle(&self) -> (h: u64)
        ensures
            h == self.handle(),
    {
        self.handle
    }

    pub closed spec fn spec_handle(&self) -> u64 {
        self.handle
    }
}

/// A read or write transaction that has begun and has not ended yet. It owns
/// its connection until it is committed or aborted; either call consumes it.
#[derive(Debug)]
pub struct SQLiteTxn {
    connection: Connection,
    write: bool,
}

impl SQLiteTxn {
    /// Wraps `connection` once the storage engine has been asked to begin a
    /// transaction on it. `begun` is the engine's answer: a failure is handed
    /// on and the connection is given up.
    pub fn new(connection: Connection, write: bool, begun: Result<(), IsarError>) -> (r: Result<
        SQLiteTxn,
        IsarError,
    >)
        ensures
            begun is Ok ==> r is Ok && r->Ok_0.connection() == connection && r->Ok_0.is_write()
                == write,
            begun is Err ==> r is Err && r->Err_0 == begun->Err_0,
    {
        match begun {
            Ok(()) => Ok(SQLiteTxn { connection, write }),
            Err(e) => Err(e),
        }
    }

    /// Whether the transaction may write.
    #[verifier::when_used_as_spec(spec_is_write)]
    pub fn is_write(&self) -> (w: bool)
        ensures
            w == self.is_write(),
    {
        self.write
    }

    pub closed spec fn spec_is_write(&self) -> bool {
        self.write
    }

    /// The connection that the transaction runs on.
    pub closed spec fn connection(&self) -> Connection {
        self.connection
    }

    /// The handle of the connection that the transaction runs on.
    pub fn handle(&self) -> (h: u64)
        ensures
            h == self.connection().handle(),
    {
        self.connection.handle()
    }

    /// Ends the transaction after the storage engine was asked to commit it.
    /// On success the connection comes back for reuse; on failure the error is
    /// handed on and the connection is given up.
    pub fn commit(self, committed: Result<(), IsarError>) -> (r: Result<Connection, IsarError>)
        ensures
            r == after_engine(self.connection(), committed),
    {
        match committed {
            Ok(()) => Ok(self.connection),
            Err(e) => Err(e),
        }
    }

    /// Ends the transaction after the storage engine was asked to roll it
    /// back. On success the connection comes back for reuse; on failure the
    /// error is handed on and the connection is given up.
    pub fn abort(self, rolled_back: Result<(), IsarError>) -> (r: Result<Connection, IsarError>)
        ensures
            r == after_engine(self.connection(), rolled_back),
    {
        match rolled_back {
            Ok(()) => Ok(self.connection),
            Err(e) => Err(e),
        }
    }
}

/// What becomes of a transaction's connection once the storage engine has
/// answered: it is free again if the engine succeeded, and lost with the
/// engine's error otherwise.
pub open spec fn after_engine(connection: Connection, outcome: Result<(), IsarError>) -> Result<
    Connection,
    IsarError,
> {
    match outcome {
        Ok(_) => Ok(connection),
        Err(e) => Err(e),
    }
}

} // verus!
