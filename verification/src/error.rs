use vstd::prelude::*;

verus! {

/// The single failure value every layer of the client reports: a descriptive
/// message, whatever went wrong (bad page bounds, transport failure, wrong
/// status, undecodable body).
#[derive(Debug)]
pub struct Error {
    pub msg: String,
}

impl Error {
    pub fn new(msg: String) -> (r: Error)
        ensures
            r.msg == msg,
    {
        Error { msg }
    }
}

impl Clone for Error {
    fn clone(&self) -> (r: Self)
        ensures
            r == *self,
    {
        Error { msg: self.msg.clone() }
    }
}

} // verus!
