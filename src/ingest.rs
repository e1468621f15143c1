//! What the ingestion listener does with a parsed frame once the storage
//! backend has said whether its device is registered.
use vstd::prelude::*;
use crate::frame::{Frame, FRAME_FIELDS};
use crate::hub::{deliver_data, Registry, SessionView};
use crate::models::{field_value, ESPRecievedEvent};

verus! {

/// Accepts a frame whose device id the backend has checked. For a known
/// device the frame's event is published once through the registry and
/// returned, to be stored once as the device's latest reading; for an unknown
/// device nothing is published and nothing is to be stored.
pub fn accept_frame(
    registry: &mut Registry,
    frame: Frame,
    parsed: &Vec<Option<u32>>,
    device_known: bool,
) -> (r: Option<ESPRecievedEvent>)
    requires
        old(registry).wf(),
        parsed@.len() == FRAME_FIELDS - 1,
    ensures
        final(registry).wf(),
        r is Some <==> device_known,
        match r {
            Some(ev) => {
                &&& ev.id@ == frame.device_id@
                &&& forall|i: int| 0 <= i < FRAME_FIELDS - 1 ==> #[trigger] ev.data.fields()[i] == field_value(parsed@[i])
                &&& final(registry)@ == old(registry)@.map_values(|s: SessionView| deliver_data(s, ev@))
            },
            None => final(registry)@ == old(registry)@,
        },
{
    if !device_known {
        return None;
    }
    let ev = frame.into_event(parsed);
    registry.publish_data(&ev);
    Some(ev)
}

} // verus!
