//! Messages published by the services.

use vstd::prelude::*;
use std::collections::HashMap;

verus! {

/// A message to be published: a payload and its headers.
#[derive(Clone, Debug)]
pub struct Message {
    pub payload: Vec<u8>,
    pub headers: HashMap<String, String>,
}

impl Message {
    /// A message with a copy of `payload` and no headers.
    pub fn new(payload: &[u8]) -> (r: Message)
        ensures
            r.payload@ == payload@,
            r.headers@ == Map::<String, String>::empty(),
    {
        Message { payload: vstd::slice::slice_to_vec(payload), headers: HashMap::new() }
    }
}

} // verus!
