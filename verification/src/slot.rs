//! The shared latest-value slot: a concurrently readable, single-write
//! holder of the most recent `ControlData`.
//!
//! Both ends of the link keep one of these: the tracker publishes each newly
//! computed offset into it and every consumer session streams from it; the
//! car's receive thread publishes each decoded frame into it and the control
//! tick reads it. A write fully supersedes the old value and never blocks on
//! readers; a reader always sees some previously published value, never a
//! torn one, because the slot is an atomically swapped reference-counted
//! snapshot, not a mutexed buffer. Under concurrent writers nothing relates
//! one load to the next, so the functions below promise nothing about which
//! published value a load yields; the verified consumers of a loaded value
//! take it as an argument and are proved for every value of it.

use vstd::prelude::*;
use crate::common::ControlData;
use crate::common::FrameError;
use crate::common::CONTROL_DATA_SIZE;
use crate::common::encoding_of;
use crate::common::decoding_of;
use crate::common::lemma_codec_round_trip;
use crate::tracker::StateData;
use crate::tracker::calculate;

verus! {

/// Last-writer-wins holder of the latest control value, shared across
/// threads behind `&self`.
#[verifier::external_body]
pub struct SharedControlSlot {
    inner: arc_swap::ArcSwap<ControlData>,
}

impl SharedControlSlot {
    /// Relies on `arc_swap::ArcSwapAny::new`: constructs a storage holding
    /// the given value.
    #[verifier::external_body]
    pub fn new(initial: ControlData) -> (r: Self) {
        Self { inner: arc_swap::ArcSwap::new(std::sync::Arc::new(initial)) }
    }

    /// Relies on `arc_swap::ArcSwapAny::store`: atomically replaces the held
    /// value; it never blocks on readers, and further loads yield the new
    /// value until the next store. Under concurrent writers no caller can
    /// know which value the slot holds afterwards, so nothing is promised
    /// here.
    #[verifier::external_body]
    pub fn publish(&self, value: ControlData) {
        self.inner.store(std::sync::Arc::new(value));
    }

    /// Relies on `arc_swap::ArcSwapAny::load`: atomically snapshots the held
    /// value, safe against concurrent stores. The result is some previously
    /// published value (or the initial one); under concurrent writers no
    /// more can be said, so nothing is promised here.
    #[verifier::external_body]
    pub fn load(&self) -> (r: ControlData) {
        **self.inner.load()
    }
}

/// Tracker side: publish a validated localization snapshot as the current
/// control value.
pub fn publish_event(slot: &SharedControlSlot, data: StateData)
    requires
        data.wf(),
{
    let control = calculate(data);
    slot.publish(control);
}

/// Broadcaster side: the bytes a consumer session sends in one iteration,
/// the wire encoding of the currently held control value.
pub fn snapshot_frame(slot: &SharedControlSlot) -> (r: Vec<u8>)
    ensures
        r@.len() == CONTROL_DATA_SIZE,
        r@ == encoding_of(decoding_of(r@)),
{
    let current = slot.load();
    let frame = current.to_slice();
    proof {
        lemma_codec_round_trip(current);
    }
    frame
}

/// Car side: decode one received frame and publish it as the latest control
/// value. A buffer of the wrong length is rejected loudly and publishes
/// nothing.
pub fn receive_frame(slot: &SharedControlSlot, bytes: &[u8]) -> (r: Result<(), FrameError>)
    ensures
        bytes@.len() == CONTROL_DATA_SIZE <==> r is Ok,
        r is Err ==> r->Err_0 == FrameError::UnexpectedLength,
{
    match ControlData::try_from_slice(bytes) {
        Ok(value) => {
            slot.publish(value);
            Ok(())
        },
        Err(e) => Err(e),
    }
}

} // verus!
