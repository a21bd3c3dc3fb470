//! The plain request and task types the HTTP layer hands to the core. The
//! transport copies carrying serialization derives live with the transport;
//! these are the values the verified logic speaks about.
use vstd::prelude::*;

verus! {

pub struct TaskId {
    pub task_id: String,
}

pub struct TaskIds {
    pub task_ids: Vec<String>,
}

/// What a key-value request asks the store to do.
pub enum StoreOp {
    Put,
    Del,
    Get,
}

impl StoreOp {
    /// The operation's wire label.
    pub fn label(&self) -> (r: String)
        ensures
            match *self {
                StoreOp::Put => r@ == "Put"@,
                StoreOp::Del => r@ == "Del"@,
                StoreOp::Get => r@ == "Get"@,
            },
    {
        match self {
            StoreOp::Put => "Put".to_owned(),
            StoreOp::Del => "Del".to_owned(),
            StoreOp::Get => "Get".to_owned(),
        }
    }
}

/// A range scan over the task store.
pub struct ReqScan {
    pub begin: String,
    pub end: String,
    pub limited: u32,
}

/// A free-text request body.
pub struct ReqContent {
    pub content: String,
}

} // verus!
