use vstd::prelude::*;

use crate::error::Error;
use crate::util::decimal;

mod base;
mod collator;
mod external;
mod validator;

pub use base::{copy_opt_path, opt_path, texts_result, BaseNode, BaseNodeView};
pub use collator::{Collator, CollatorRelay, CollatorView, RelayView};
pub use external::{join_words, joined_words, then_words};
pub use validator::Validator;

verus! {

/// `--rpc-port <port>` when the port is given, nothing otherwise.
pub open spec fn rpc_flag(rpc_port: Option<u16>) -> Seq<Seq<char>> {
    match rpc_port {
        Some(p) => seq!["--rpc-port"@, decimal(p as nat)],
        None => seq![],
    }
}

/// The argument list of `a` followed by that of `b`; the first failure wins.
pub open spec fn then_args(
    a: Result<Seq<Seq<char>>, Error>,
    b: Result<Seq<Seq<char>>, Error>,
) -> Result<Seq<Seq<char>>, Error> {
    match a {
        Err(e) => Err(e),
        Ok(x) => match b {
            Err(e) => Err(e),
            Ok(y) => Ok(x + y),
        },
    }
}

} // verus!
