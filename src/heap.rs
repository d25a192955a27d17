use crate::borrow::BorrowState;
use crate::error::Error;
use crate::value::{AnyUserData, Value};
use vstd::prelude::*;

verus! {

/// The storage of one foreign object: native payload, borrow state and user value.
pub struct UserDataBox<T> {
    /// Identifies the native type of the payload.
    pub tag: u64,
    /// `None` once the finalizer has torn the payload down.
    pub payload: Option<T>,
    pub borrow: BorrowState,
    pub user_value: Option<Value>,
    /// Handles to the box held by native code, outside the script heap.
    pub native_refs: u64,
    /// Whether the collector has run the box's finalizer.
    pub collected: bool,
}

/// The boxes that handles refer to, by index.
pub struct Heap<T> {
    boxes: Vec<UserDataBox<T>>,
}

/// Box well-formedness: a torn-down box is neither borrowed nor held by native code.
pub open spec fn box_wf<T>(b: UserDataBox<T>) -> bool {
    &&& b.borrow.wf()
    &&& b.payload is None ==> b.borrow == BorrowState::Free && b.native_refs == 0
}

pub open spec fn boxes_wf<T>(s: Seq<UserDataBox<T>>) -> bool {
    forall|i: int| 0 <= i < s.len() ==> #[trigger] box_wf(s[i])
}

/// Why a handle cannot reach a live payload, if it cannot.
pub open spec fn access_error<T>(s: Seq<UserDataBox<T>>, ud: AnyUserData) -> Option<Error> {
    if ud.index >= s.len() {
        Some(Error::UserDataNotFound)
    } else if s[ud.index as int].payload is None {
        Some(Error::UserDataDestructed)
    } else {
        None
    }
}

/// What a type test of the handle against the type `tag` gives.
pub open spec fn is_result<T>(s: Seq<UserDataBox<T>>, ud: AnyUserData, tag: u64) -> Result<
    bool,
    Error,
> {
    match access_error(s, ud) {
        Some(e) => Err(e),
        None => Ok(s[ud.index as int].tag == tag),
    }
}

/// A fresh box: live, free, without user value.
pub open spec fn fresh_box<T>(tag: u64, payload: T) -> UserDataBox<T> {
    UserDataBox {
        tag,
        payload: Some(payload),
        borrow: BorrowState::Free,
        user_value: None,
        native_refs: 0,
        collected: false,
    }
}

/// Why a typed shared borrow is refused, if it is.
pub open spec fn borrow_error<T>(s: Seq<UserDataBox<T>>, ud: AnyUserData, tag: u64) -> Option<
    Error,
> {
    match access_error(s, ud) {
        Some(e) => Some(e),
        None => if s[ud.index as int].tag != tag {
            Some(Error::UserDataTypeMismatch)
        } else if s[ud.index as int].borrow == BorrowState::Exclusive
            || s[ud.index as int].borrow.shared_count() >= u64::MAX {
            Some(Error::BorrowError)
        } else {
            None
        },
    }
}

/// Why a typed exclusive borrow is refused, if it is.
pub open spec fn borrow_mut_error<T>(s: Seq<UserDataBox<T>>, ud: AnyUserData, tag: u64) -> Option<
    Error,
> {
    match access_error(s, ud) {
        Some(e) => Some(e),
        None => if s[ud.index as int].tag != tag {
            Some(Error::UserDataTypeMismatch)
        } else if s[ud.index as int].borrow != BorrowState::Free {
            Some(Error::BorrowMutError)
        } else {
            None
        },
    }
}

/// The boxes after box `i` gets borrow state `st`.
pub open spec fn with_borrow<T>(s: Seq<UserDataBox<T>>, i: int, st: BorrowState) -> Seq<
    UserDataBox<T>,
> {
    s.update(i, UserDataBox { borrow: st, ..s[i] })
}

/// The boxes after the finalizer of box `i` ran: the box is marked collected, and its
/// payload is gone unless native code still holds the box.
pub open spec fn finalized<T>(s: Seq<UserDataBox<T>>, i: int) -> Seq<UserDataBox<T>> {
    if s[i].native_refs == 0 {
        s.update(i, UserDataBox { payload: None, collected: true, ..s[i] })
    } else {
        s.update(i, UserDataBox { collected: true, ..s[i] })
    }
}

/// The boxes after native code dropped one handle to box `i`: the payload goes with the
/// last one once the collector has finalized the box and nothing borrows it.
pub open spec fn native_ref_dropped<T>(s: Seq<UserDataBox<T>>, i: int) -> Seq<UserDataBox<T>> {
    let n = (s[i].native_refs - 1) as u64;
    if n == 0 && s[i].collected && s[i].borrow == BorrowState::Free {
        s.update(i, UserDataBox { payload: None, native_refs: n, ..s[i] })
    } else {
        s.update(i, UserDataBox { native_refs: n, ..s[i] })
    }
}

/// The payload that finalizing box `i` releases, if any.
pub open spec fn finalize_releases<T>(s: Seq<UserDataBox<T>>, i: int) -> Option<T> {
    if s[i].native_refs == 0 {
        s[i].payload
    } else {
        None
    }
}

/// Number of boxes whose payload is still alive.
pub open spec fn live_count<T>(s: Seq<UserDataBox<T>>) -> nat
    decreases s.len(),
{
    if s.len() == 0 {
        0
    } else {
        live_count(s.drop_last()) + if s.last().payload is Some {
            1nat
        } else {
            0nat
        }
    }
}

/// The live payloads, from the newest box to the oldest.
pub open spec fn live_payloads_newest_first<T>(s: Seq<UserDataBox<T>>) -> Seq<T>
    decreases s.len(),
{
    if s.len() == 0 {
        Seq::empty()
    } else {
        match s.last().payload {
            Some(p) => seq![p] + live_payloads_newest_first(s.drop_last()),
            None => live_payloads_newest_first(s.drop_last()),
        }
    }
}

impl<T> View for Heap<T> {
    type V = Seq<UserDataBox<T>>;

    closed spec fn view(&self) -> Seq<UserDataBox<T>> {
        self.boxes@
    }
}

impl<T> Heap<T> {
    pub closed spec fn wf(&self) -> bool {
        boxes_wf(self.boxes@)
    }

    pub fn new() -> (r: Heap<T>)
        ensures
            r.wf(),
            r@ == Seq::<UserDataBox<T>>::empty(),
    {
        Heap { boxes: Vec::new() }
    }

    pub fn len(&self) -> (r: usize)
        ensures
            r == self@.len(),
    {
        self.boxes.len()
    }

    /// Wraps a native value of the type `tag` in a fresh box, free and without user value.
    pub fn create_userdata(&mut self, tag: u64, payload: T) -> (r: AnyUserData)
        requires
            old(self).wf(),
            old(self)@.len() < usize::MAX,
        ensures
            final(self).wf(),
            r.index == old(self)@.len(),
            final(self)@ == old(self)@.push(fresh_box(tag, payload)),
    {
        let r = AnyUserData { index: self.boxes.len() };
        self.boxes.push(
            UserDataBox {
                tag,
                payload: Some(payload),
                borrow: BorrowState::new(),
                user_value: None,
                native_refs: 0,
                collected: false,
            },
        );
        r
    }

    /// Why the handle cannot reach a live payload, if it cannot.
    pub fn check(&self, ud: AnyUserData) -> (r: Option<Error>)
        ensures
            r == access_error(self@, ud),
    {
        if ud.index >= self.boxes.len() {
            Some(Error::UserDataNotFound)
        } else if self.boxes[ud.index].payload.is_none() {
            Some(Error::UserDataDestructed)
        } else {
            None
        }
    }

    /// The type tag of the handle's box.
    pub fn tag(&self, ud: AnyUserData) -> (r: u64)
        requires
            ud.index < self@.len(),
        ensures
            r == self@[ud.index as int].tag,
    {
        self.boxes[ud.index].tag
    }

    /// Whether the handle's payload is of the type `tag`; never borrows.
    pub fn is(&self, ud: AnyUserData, tag: u64) -> (r: Result<bool, Error>)
        ensures
            r == is_result(self@, ud, tag),
    {
        if ud.index >= self.boxes.len() {
            return Err(Error::UserDataNotFound);
        }
        let b = &self.boxes[ud.index];
        if b.payload.is_none() {
            return Err(Error::UserDataDestructed);
        }
        Ok(b.tag == tag)
    }

    /// Takes a shared borrow of the payload as the type `tag`.
    pub fn borrow(&mut self, ud: AnyUserData, tag: u64) -> (r: Result<(), Error>)
        requires
            old(self).wf(),
        ensures
            final(self).wf(),
            match borrow_error(old(self)@, ud, tag) {
                Some(e) => r == Err::<(), Error>(e) && final(self)@ == old(self)@,
                None => r is Ok && final(self)@ == with_borrow(
                    old(self)@,
                    ud.index as int,
                    old(self)@[ud.index as int].borrow.spec_after_shared(),
                ),
            },
    {
        if ud.index >= self.boxes.len() {
            return Err(Error::UserDataNotFound);
        }
        if self.boxes[ud.index].payload.is_none() {
            return Err(Error::UserDataDestructed);
        }
        if self.boxes[ud.index].tag != tag {
            return Err(Error::UserDataTypeMismatch);
        }
        let mut st = self.boxes[ud.index].borrow;
        proof {
            assert(box_wf(self.boxes@[ud.index as int]));
        }
        let r = st.try_borrow_shared();
        if r.is_ok() {
            self.boxes[ud.index].borrow = st;
        }
        r
    }

    /// Gives back a shared borrow taken by [`Heap::borrow`].
    pub fn release(&mut self, ud: AnyUserData)
        requires
            old(self).wf(),
            ud.index < old(self)@.len(),
            old(self)@[ud.index as int].borrow.shared_count() > 0,
        ensures
            final(self).wf(),
            final(self)@ == with_borrow(
                old(self)@,
                ud.index as int,
                old(self)@[ud.index as int].borrow.spec_after_release_shared(),
            ),
    {
        let mut st = self.boxes[ud.index].borrow;
        proof {
            assert(box_wf(self.boxes@[ud.index as int]));
        }
        st.release_shared();
        self.boxes[ud.index].borrow = st;
    }

    /// Takes the exclusive borrow of the payload as the type `tag`.
    pub fn borrow_mut(&mut self, ud: AnyUserData, tag: u64) -> (r: Result<(), Error>)
        requires
            old(self).wf(),
        ensures
            final(self).wf(),
            match borrow_mut_error(old(self)@, ud, tag) {
                Some(e) => r == Err::<(), Error>(e) && final(self)@ == old(self)@,
                None => r is Ok && final(self)@ == with_borrow(
                    old(self)@,
                    ud.index as int,
                    BorrowState::Exclusive,
                ),
            },
    {
        if ud.index >= self.boxes.len() {
            return Err(Error::UserDataNotFound);
        }
        if self.boxes[ud.index].payload.is_none() {
            return Err(Error::UserDataDestructed);
        }
        if self.boxes[ud.index].tag != tag {
            return Err(Error::UserDataTypeMismatch);
        }
        let mut st = self.boxes[ud.index].borrow;
        proof {
            assert(box_wf(self.boxes@[ud.index as int]));
        }
        let r = st.try_borrow_exclusive();
        if r.is_ok() {
            self.boxes[ud.index].borrow = st;
        }
        r
    }

    /// Gives back the exclusive borrow taken by [`Heap::borrow_mut`].
    pub fn release_mut(&mut self, ud: AnyUserData)
        requires
            old(self).wf(),
            ud.index < old(self)@.len(),
            old(self)@[ud.index as int].borrow == BorrowState::Exclusive,
        ensures
            final(self).wf(),
            final(self)@ == with_borrow(old(self)@, ud.index as int, BorrowState::Free),
    {
        proof {
            assert(box_wf(self.boxes@[ud.index as int]));
        }
        self.boxes[ud.index].borrow = BorrowState::Free;
    }

    /// The payload, read under a borrow that the caller holds.
    pub fn payload(&self, ud: AnyUserData) -> (r: &T)
        requires
            self.wf(),
            ud.index < self@.len(),
            self@[ud.index as int].borrow != BorrowState::Free,
        ensures
            self@[ud.index as int].payload == Some(*r),
    {
        proof {
            assert(box_wf(self.boxes@[ud.index as int]));
        }
        self.boxes[ud.index].payload.as_ref().unwrap()
    }

    /// Replaces the payload under the exclusive borrow that the caller holds; returns the old one.
    pub fn replace_payload(&mut self, ud: AnyUserData, value: T) -> (r: T)
        requires
            old(self).wf(),
            ud.index < old(self)@.len(),
            old(self)@[ud.index as int].borrow == BorrowState::Exclusive,
        ensures
            final(self).wf(),
            old(self)@[ud.index as int].payload == Some(r),
            final(self)@ == with_payload(old(self)@, ud.index as int, value),
    {
        proof {
            assert(box_wf(self.boxes@[ud.index as int]));
        }
        let mut slot = Some(value);
        std::mem::swap(&mut self.boxes[ud.index].payload, &mut slot);
        slot.unwrap()
    }

    /// Runs the finalizer of the box. The payload is taken out and handed back once,
    /// unless native code still holds the box: then it stays until the last such handle
    /// is dropped. A box that is borrowed at that moment is left as it is.
    pub fn finalize(&mut self, ud: AnyUserData) -> (r: Result<Option<T>, Error>)
        requires
            old(self).wf(),
        ensures
            final(self).wf(),
            ud.index >= old(self)@.len() ==> r == Err::<Option<T>, Error>(Error::UserDataNotFound)
                && final(self)@ == old(self)@,
            ud.index < old(self)@.len() && old(self)@[ud.index as int].borrow
                != BorrowState::Free ==> r == Err::<Option<T>, Error>(Error::BorrowMutError)
                && final(self)@ == old(self)@,
            ud.index < old(self)@.len() && old(self)@[ud.index as int].borrow
                == BorrowState::Free ==> r == Ok::<Option<T>, Error>(
                finalize_releases(old(self)@, ud.index as int),
            ) && final(self)@ == finalized(old(self)@, ud.index as int),
    {
        if ud.index >= self.boxes.len() {
            return Err(Error::UserDataNotFound);
        }
        if !self.boxes[ud.index].borrow.is_free() {
            return Err(Error::BorrowMutError);
        }
        proof {
            assert(box_wf(self.boxes@[ud.index as int]));
        }
        self.boxes[ud.index].collected = true;
        if self.boxes[ud.index].native_refs == 0 {
            let mut slot: Option<T> = None;
            std::mem::swap(&mut self.boxes[ud.index].payload, &mut slot);
            Ok(slot)
        } else {
            Ok(None)
        }
    }

    /// Records one more handle to the live box held by native code.
    pub fn take_native_ref(&mut self, ud: AnyUserData) -> (r: Result<(), Error>)
        requires
            old(self).wf(),
        ensures
            final(self).wf(),
            match access_error(old(self)@, ud) {
                Some(e) => r == Err::<(), Error>(e) && final(self)@ == old(self)@,
                None => if old(self)@[ud.index as int].native_refs == u64::MAX {
                    r == Err::<(), Error>(Error::TooManyReferences) && final(self)@ == old(self)@
                } else {
                    r is Ok && final(self)@ == old(self)@.update(
                        ud.index as int,
                        UserDataBox {
                            native_refs: (old(self)@[ud.index as int].native_refs + 1) as u64,
                            ..old(self)@[ud.index as int]
                        },
                    )
                },
            },
    {
        if let Some(e) = self.check(ud) {
            return Err(e);
        }
        let n = self.boxes[ud.index].native_refs;
        if n == u64::MAX {
            return Err(Error::TooManyReferences);
        }
        proof {
            assert(box_wf(self.boxes@[ud.index as int]));
        }
        self.boxes[ud.index].native_refs = n + 1;
        Ok(())
    }

    /// Drops one handle held by native code. The last one hands back the payload where
    /// the collector has already finalized the box and nothing borrows it.
    pub fn drop_native_ref(&mut self, ud: AnyUserData) -> (r: Option<T>)
        requires
            old(self).wf(),
            ud.index < old(self)@.len(),
            old(self)@[ud.index as int].native_refs > 0,
        ensures
            final(self).wf(),
            final(self)@ == native_ref_dropped(old(self)@, ud.index as int),
            r == (if old(self)@[ud.index as int].native_refs == 1 && old(
                self,
            )@[ud.index as int].collected && old(self)@[ud.index as int].borrow
                == BorrowState::Free {
                old(self)@[ud.index as int].payload
            } else {
                None
            }),
    {
        proof {
            assert(box_wf(self.boxes@[ud.index as int]));
        }
        let n = self.boxes[ud.index].native_refs - 1;
        self.boxes[ud.index].native_refs = n;
        if n == 0 && self.boxes[ud.index].collected && self.boxes[ud.index].borrow.is_free() {
            let mut slot: Option<T> = None;
            std::mem::swap(&mut self.boxes[ud.index].payload, &mut slot);
            slot
        } else {
            None
        }
    }

    /// Attaches a user value to the handle, replacing any earlier one.
    pub fn set_user_value(&mut self, ud: AnyUserData, value: Value) -> (r: Result<(), Error>)
        requires
            old(self).wf(),
        ensures
            final(self).wf(),
            match access_error(old(self)@, ud) {
                Some(e) => r == Err::<(), Error>(e) && final(self)@ == old(self)@,
                None => r is Ok && final(self)@ == with_user_value(
                    old(self)@,
                    ud.index as int,
                    value,
                ),
            },
    {
        if ud.index >= self.boxes.len() {
            return Err(Error::UserDataNotFound);
        }
        if self.boxes[ud.index].payload.is_none() {
            return Err(Error::UserDataDestructed);
        }
        proof {
            assert(box_wf(self.boxes@[ud.index as int]));
        }
        self.boxes[ud.index].user_value = Some(value);
        Ok(())
    }

    /// The user value stored on the handle.
    pub fn get_user_value(&self, ud: AnyUserData) -> (r: Result<Value, Error>)
        ensures
            r == user_value_result(self@, ud),
    {
        if ud.index >= self.boxes.len() {
            return Err(Error::UserDataNotFound);
        }
        let b = &self.boxes[ud.index];
        if b.payload.is_none() {
            return Err(Error::UserDataDestructed);
        }
        match &b.user_value {
            Some(v) => Ok(v.duplicate()),
            None => Err(Error::NoUserValue),
        }
    }

    /// Tears the whole heap down, handing back every payload still alive, newest first.
    pub fn close(self) -> (r: Vec<T>)
        ensures
            r@ == live_payloads_newest_first(self@),
            r@.len() == live_count(self@),
    {
        let mut boxes = self.boxes;
        let mut out: Vec<T> = Vec::new();
        while boxes.len() > 0
            invariant
                live_payloads_newest_first(self@) == out@ + live_payloads_newest_first(boxes@),
                live_count(self@) == out@.len() + live_count(boxes@),
            decreases boxes.len(),
        {
            let ghost before = boxes@;
            let ghost out_before = out@;
            let b = boxes.pop().unwrap();
            proof {
                assert(boxes@ == before.drop_last());
            }
            match b.payload {
                Some(p) => {
                    out.push(p);
                    proof {
                        assert(out_before + live_payloads_newest_first(before) =~= out@
                            + live_payloads_newest_first(boxes@));
                    }
                },
                None => {},
            }
        }
        proof {
            assert(out@ + live_payloads_newest_first(boxes@) =~= out@);
        }
        out
    }
}

/// The boxes after box `i` gets the payload `p`.
pub open spec fn with_payload<T>(s: Seq<UserDataBox<T>>, i: int, p: T) -> Seq<UserDataBox<T>> {
    s.update(i, UserDataBox { payload: Some(p), ..s[i] })
}

/// The boxes after box `i` gets the user value `v`.
pub open spec fn with_user_value<T>(s: Seq<UserDataBox<T>>, i: int, v: Value) -> Seq<
    UserDataBox<T>,
> {
    s.update(i, UserDataBox { user_value: Some(v), ..s[i] })
}

/// What retrieving the handle's user value gives.
pub open spec fn user_value_result<T>(s: Seq<UserDataBox<T>>, ud: AnyUserData) -> Result<
    Value,
    Error,
> {
    match access_error(s, ud) {
        Some(e) => Err(e),
        None => match s[ud.index as int].user_value {
            Some(v) => Ok(v),
            None => Err(Error::NoUserValue),
        },
    }
}

} // verus!
