//! The single-assignment cell into which a guest writes its result.

use vstd::prelude::*;
use crate::trap::Trap;

verus! {

/// Holds the result of one invocation: empty until the guest sets it, and set
/// at most once.
pub struct ResultHandle {
    value: Option<Vec<u8>>,
}

impl View for ResultHandle {
    type V = Option<Seq<u8>>;

    closed spec fn view(&self) -> Option<Seq<u8>> {
        match self.value {
            Some(v) => Some(v@),
            None => None,
        }
    }
}

impl ResultHandle {
    /// An empty handle, for a new invocation.
    pub fn new() -> (r: Self)
        ensures
            r@ is None,
    {
        ResultHandle { value: None }
    }

    /// Whether the guest has set its result.
    pub fn is_set(&self) -> (r: bool)
        ensures
            r == self@ is Some,
    {
        self.value.is_some()
    }

    /// Records the result; a second write is refused and leaves the first.
    pub fn set(&mut self, bytes: Vec<u8>) -> (r: Result<(), Trap>)
        ensures
            old(self)@ is None ==> r is Ok && final(self)@ == Some(bytes@),
            old(self)@ is Some ==> r == Err::<(), Trap>(Trap::ResultAlreadySet) && final(self)@
                == old(self)@,
    {
        if self.value.is_some() {
            return Err(Trap::ResultAlreadySet);
        }
        self.value = Some(bytes);
        Ok(())
    }

    /// The result, leaving the handle empty.
    pub fn take(&mut self) -> (r: Option<Vec<u8>>)
        ensures
            match r {
                Some(v) => old(self)@ == Some(v@),
                None => old(self)@ is None,
            },
            final(self)@ is None,
    {
        self.value.take()
    }
}

} // verus!
