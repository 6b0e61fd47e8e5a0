//! The buffers of a request, as they are handed to the virtqueue.

use vstd::prelude::*;
use smallvec::SmallVec;

verus! {

/// One buffer of a descriptor chain.
///
/// `Sized` holds the in-memory image of a fixed-size object (the request
/// header, the status byte); `Vector` holds a data buffer.
#[derive(Debug)]
pub enum BufferElem {
    Sized(Vec<u8>),
    Vector(Vec<u8>),
}

/// The buffers of one list (device-readable or device-writable) of a request,
/// kept inline for up to two buffers.
#[verifier::external_body]
pub struct BufferList {
    list: SmallVec<[BufferElem; 2]>,
}

/// What a list of buffers holds, first buffer first.
pub uninterp spec fn buffer_elems(list: BufferList) -> Seq<BufferElem>;

/// `SmallVec::new`: an empty list.
#[verifier::external_body]
pub(crate) fn new_buffer_list() -> (list: BufferList)
    ensures
        buffer_elems(list) == Seq::<BufferElem>::empty(),
{
    BufferList { list: SmallVec::new() }
}

/// `SmallVec::push`: appends `elem` at the end. Below the inline capacity
/// of two buffers the push stores inline and cannot fail; beyond it the
/// crate may panic on a capacity overflow, so only pushes into a list of
/// fewer than two buffers are admitted.
#[verifier::external_body]
pub(crate) fn push_buffer(list: &mut BufferList, elem: BufferElem)
    requires
        buffer_elems(*old(list)).len() < 2,
    ensures
        buffer_elems(*final(list)) == buffer_elems(*old(list)).push(elem),
{
    list.list.push(elem)
}

/// `SmallVec::into_vec`: the buffers of the list, in order, as a `Vec`.
#[verifier::external_body]
pub(crate) fn buffer_list_into_vec(list: BufferList) -> (v: Vec<BufferElem>)
    ensures
        v@ == buffer_elems(list),
{
    list.list.into_vec()
}

/// A request ready to be dispatched: the buffers the device reads (`send`) and
/// the buffers the device writes (`recv`).
pub struct AvailBufferToken {
    pub send: BufferList,
    pub recv: BufferList,
}

impl AvailBufferToken {
    /// The two lists of the request, in order, for handing to a virtqueue.
    pub fn into_lists(self) -> (r: (Vec<BufferElem>, Vec<BufferElem>))
        ensures
            r.0@ == buffer_elems(self.send),
            r.1@ == buffer_elems(self.recv),
    {
        let AvailBufferToken { send, recv } = self;
        (buffer_list_into_vec(send), buffer_list_into_vec(recv))
    }
}

} // verus!
