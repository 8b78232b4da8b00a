use vstd::prelude::*;

verus! {

/// Every way a wallet command can fail. Each variant carries the human-readable
/// detail of the failure.
#[derive(Debug, Clone, PartialEq, Eq)]
pub enum AppError {
    /// The configuration (environment or command line) is unusable.
    Config(String),
    /// The wallet refused an operation.
    Wallet(String),
    /// The node's RPC interface reported an error.
    Rpc(String),
    /// The wallet database reported an error.
    Sqlite(String),
    /// Reading or writing a local file failed.
    Io(String),
    /// A Bitcoin address could not be used.
    Address(String),
    /// Anything else.
    Other(String),
}

pub type AppResult<T> = Result<T, AppError>;

} // verus!
