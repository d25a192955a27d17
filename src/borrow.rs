use crate::error::Error;
use vstd::prelude::*;

verus! {

/// Dynamic exclusivity tracker of one box.
#[derive(PartialEq, Eq, Structural, Clone, Copy, Debug)]
pub enum BorrowState {
    Free,
    /// Number of outstanding shared borrows; never zero.
    Shared(u64),
    Exclusive,
}

impl BorrowState {
    /// A shared count of zero is spelled `Free`.
    pub open spec fn wf(self) -> bool {
        match self {
            BorrowState::Shared(n) => n > 0,
            _ => true,
        }
    }

    /// Number of shared borrows held.
    pub open spec fn shared_count(self) -> nat {
        match self {
            BorrowState::Shared(n) => n as nat,
            _ => 0,
        }
    }

    pub open spec fn spec_after_shared(self) -> BorrowState {
        match self {
            BorrowState::Free => BorrowState::Shared(1),
            BorrowState::Shared(n) => BorrowState::Shared((n + 1) as u64),
            BorrowState::Exclusive => BorrowState::Exclusive,
        }
    }

    pub open spec fn spec_after_release_shared(self) -> BorrowState {
        match self {
            BorrowState::Shared(n) => if n <= 1 {
                BorrowState::Free
            } else {
                BorrowState::Shared((n - 1) as u64)
            },
            _ => self,
        }
    }

    pub fn new() -> (r: BorrowState)
        ensures
            r == BorrowState::Free,
    {
        BorrowState::Free
    }

    pub fn is_free(&self) -> (r: bool)
        ensures
            r == (*self == BorrowState::Free),
    {
        matches!(self, BorrowState::Free)
    }

    pub fn is_exclusive(&self) -> (r: bool)
        ensures
            r == (*self == BorrowState::Exclusive),
    {
        matches!(self, BorrowState::Exclusive)
    }

    /// Takes one more shared borrow; refused while an exclusive one is held.
    /// The count saturates at `u64::MAX`, where the request is refused too.
    pub fn try_borrow_shared(&mut self) -> (r: Result<(), Error>)
        requires
            old(self).wf(),
        ensures
            final(self).wf(),
            r is Ok <==> (*old(self) != BorrowState::Exclusive && old(self).shared_count()
                < u64::MAX),
            r is Ok ==> *final(self) == old(self).spec_after_shared(),
            r is Err ==> *final(self) == *old(self) && r == Err::<(), Error>(Error::BorrowError),
    {
        match *self {
            BorrowState::Free => {
                *self = BorrowState::Shared(1);
                Ok(())
            },
            BorrowState::Shared(n) => {
                if n < u64::MAX {
                    *self = BorrowState::Shared(n + 1);
                    Ok(())
                } else {
                    Err(Error::BorrowError)
                }
            },
            BorrowState::Exclusive => Err(Error::BorrowError),
        }
    }

    /// Gives back one shared borrow.
    pub fn release_shared(&mut self)
        requires
            old(self).wf(),
            old(self).shared_count() > 0,
        ensures
            final(self).wf(),
            *final(self) == old(self).spec_after_release_shared(),
            final(self).shared_count() + 1 == old(self).shared_count(),
    {
        if let BorrowState::Shared(n) = *self {
            if n <= 1 {
                *self = BorrowState::Free;
            } else {
                *self = BorrowState::Shared(n - 1);
            }
        }
    }

    /// Takes the exclusive borrow; refused unless no borrow is held.
    pub fn try_borrow_exclusive(&mut self) -> (r: Result<(), Error>)
        requires
            old(self).wf(),
        ensures
            final(self).wf(),
            r is Ok <==> *old(self) == BorrowState::Free,
            r is Ok ==> *final(self) == BorrowState::Exclusive,
            r is Err ==> *final(self) == *old(self) && r == Err::<(), Error>(Error::BorrowMutError),
    {
        match *self {
            BorrowState::Free => {
                *self = BorrowState::Exclusive;
                Ok(())
            },
            _ => Err(Error::BorrowMutError),
        }
    }

    /// Gives back the exclusive borrow.
    pub fn release_exclusive(&mut self)
        requires
            *old(self) == BorrowState::Exclusive,
        ensures
            *final(self) == BorrowState::Free,
    {
        *self = BorrowState::Free;
    }
}

} // verus!
