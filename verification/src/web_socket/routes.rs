//! What a client states when it opens a control connection.

use vstd::prelude::*;

use crate::Encoding;

verus! {

/// The query of the connect request: the wire encoding the client chose.
#[derive(Clone, Copy, Debug)]
pub struct ConnectQueryParams {
    pub encoding: Encoding,
}

} // verus!
