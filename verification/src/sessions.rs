//! Session summaries handed to the shell.

use vstd::prelude::*;
use crate::converter::TauriMessage;

verus! {

/// One session in a listing.
#[derive(Debug, Clone)]
pub struct SessionInfo {
    pub id: String,
    pub name: String,
    pub created_at: i64,
    pub updated_at: i64,
}

/// One session with its recorded messages.
#[derive(Debug, Clone)]
pub struct SessionDetail {
    pub id: String,
    pub name: String,
    pub created_at: i64,
    pub updated_at: i64,
    pub messages: Vec<TauriMessage>,
}

} // verus!
