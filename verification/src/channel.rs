//! The channel on which spawn events are published.
//!
//! The channel is `shrev`'s `EventChannel`. Nothing in this file is proved:
//! each function below calls one method of the channel and states what that
//! method does, as its source shows it.

use vstd::prelude::*;
use shrev::EventChannel;
use crate::entity::EntitySpawnEvent;

verus! {

/// `shrev::EventChannel`, of which the verifier sees nothing but what the
/// functions below state.
#[verifier::external_type_specification]
#[verifier::external_body]
#[verifier::reject_recursive_types(E)]
pub struct ExEventChannel<E>(EventChannel<E>);

/// The events that have been written to a channel, in the order in which
/// they were written. A reader is handed, at each read, those that were
/// written since its last read, or since it was registered.
pub uninterp spec fn channel_events(channel: EventChannel<EntitySpawnEvent>) -> Seq<
    EntitySpawnEvent,
>;

/// `EventChannel::new`: a channel to which nothing has been written.
#[verifier::external_body]
pub(crate) fn channel_new() -> (channel: EventChannel<EntitySpawnEvent>)
    ensures
        channel_events(channel) == Seq::<EntitySpawnEvent>::empty(),
{
    EventChannel::new()
}

/// `EventChannel::single_write`: the event is written behind all earlier
/// ones. The buffer grows where a reader has not read what would be
/// overwritten, so the call always succeeds.
#[verifier::external_body]
pub(crate) fn channel_write(channel: &mut EventChannel<EntitySpawnEvent>, event: EntitySpawnEvent)
    ensures
        channel_events(*final(channel)) == channel_events(*old(channel)).push(event),
{
    channel.single_write(event)
}

} // verus!
