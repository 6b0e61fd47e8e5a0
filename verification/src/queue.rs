use vstd::prelude::*;

verus! {

/// The request queue of the block device: empty until the queue that the
/// device was told about during bring-up is handed over.
pub struct RequestQueue<Q> {
    pub vq: Option<Q>,
}

impl<Q> RequestQueue<Q> {
    /// A request queue without a virtqueue.
    pub fn new() -> (r: Self)
        ensures
            r.vq is None,
    {
        RequestQueue { vq: None }
    }

    /// Installs `vq` as the queue that requests are sent on, replacing any
    /// earlier one.
    pub fn add(&mut self, vq: Q)
        ensures
            final(self).vq == Some(vq),
    {
        self.vq = Some(vq);
    }
}

} // verus!
