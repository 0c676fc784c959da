use vstd::prelude::*;

verus! {

/// A failure of the venue or of the connection to it: the venue could not be
/// reached, answered with something unreadable, or refused the credentials.
#[derive(Clone, Copy, Debug, PartialEq, Eq, Structural)]
pub enum Error {
    ConnectionError,
}

} // verus!
