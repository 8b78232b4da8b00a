//! How the wallet authenticates with the Bitcoin Core node.
use vstd::prelude::*;

use crate::config::Config;
use crate::error::AppError;
use crate::text::concat4;

verus! {

/// The credentials to present to the node's RPC interface.
pub enum RpcAuth {
    /// No credentials.
    Anonymous,
    /// A user name and password.
    UserPass(String, String),
    /// The path of the node's cookie file.
    CookieFile(String),
}

/// The message for a configuration with half of a user/password pair.
pub open spec fn incomplete_credentials_message() -> Seq<char> {
    "set both RPC_USER and RPC_PASS, or RPC_COOKIE, to authenticate with bitcoind"@
}

/// Chooses the node credentials of a configuration: the cookie file where one
/// is set (the default for a freshly started `bitcoind -regtest`), else the
/// user and password, else none at all; a user without a password, or a
/// password without a user, is refused.
pub fn rpc_auth(config: &Config) -> (r: Result<RpcAuth, AppError>)
    ensures
        match (config.rpc_cookie, config.rpc_user, config.rpc_pass) {
            (Some(c), _, _) => r matches Ok(RpcAuth::CookieFile(p)) && p@ == c@,
            (None, Some(u), Some(w)) => r matches Ok(RpcAuth::UserPass(u2, w2)) && u2@ == u@ && w2@
                == w@,
            (None, None, None) => r matches Ok(RpcAuth::Anonymous),
            _ => r matches Err(AppError::Config(m)) && m@ == incomplete_credentials_message(),
        },
{
    match (&config.rpc_cookie, &config.rpc_user, &config.rpc_pass) {
        (Some(cookie), _, _) => Ok(RpcAuth::CookieFile(cookie.clone())),
        (None, Some(user), Some(pass)) => Ok(RpcAuth::UserPass(user.clone(), pass.clone())),
        (None, None, None) => Ok(RpcAuth::Anonymous),
        _ => Err(
            AppError::Config(
                String::from_str(
                    "set both RPC_USER and RPC_PASS, or RPC_COOKIE, to authenticate with bitcoind",
                ),
            ),
        ),
    }
}

/// The error for a node that does not answer at `url`, with the RPC client's
/// own detail.
pub fn node_unreachable(url: &str, detail: &str) -> (r: AppError)
    ensures
        r matches AppError::Config(m) && m@ == "could not reach bitcoind at "@ + url@ + " ("@
            + detail@ + "); is it running with `-regtest -server`?"@,
{
    let mut m = concat4("could not reach bitcoind at ", url, " (", detail);
    m.append("); is it running with `-regtest -server`?");
    AppError::Config(m)
}

} // verus!
