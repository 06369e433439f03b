use vstd::prelude::*;
use crate::handler::{FlutterHandlerView, HandlerView};
use crate::renderer::{FrameOutcome, FrameShape, TextureWrite};
use crate::seq_util::lemma_filter_map_none;
use crate::types::{DeliveryView, EventView, SessionID, SinkId};

verus! {

impl FlutterHandlerView {
    /// The notices that a run of frames for `displays` brings, with render targets and
    /// nothing else happening in between.
    pub open spec fn texture_run_events(self, displays: Seq<usize>) -> Seq<DeliveryView>
        decreases displays.len(),
    {
        if displays.len() == 0 {
            Seq::empty()
        } else {
            self.texture_events(displays[0]) + self.after_texture_frame().texture_run_events(
                displays.drop_first(),
            )
        }
    }

    /// The handler after a run of frames with pixels `frames` for `display`, with owned
    /// buffers and no release in between.
    pub open spec fn buffer_run(self, display: usize, frames: Seq<Seq<u8>>) -> FlutterHandlerView
        decreases frames.len(),
    {
        if frames.len() == 0 {
            self
        } else if self.buffer_accepts(display) {
            self.after_buffer_frame(display, frames[0]).buffer_run(display, frames.drop_first())
        } else {
            self.buffer_run(display, frames.drop_first())
        }
    }

    /// How many frames of such a run go into the slot.
    pub open spec fn buffer_run_retained(self, display: usize, frames: Seq<Seq<u8>>) -> nat
        decreases frames.len(),
    {
        if frames.len() == 0 {
            0
        } else if self.buffer_accepts(display) {
            1 + self.after_buffer_frame(display, frames[0]).buffer_run_retained(
                display,
                frames.drop_first(),
            )
        } else {
            self.buffer_run_retained(display, frames.drop_first())
        }
    }
}

/// A frame leaves a well-formed handler well-formed, in either mode, and so does the
/// release of a frame.
pub proof fn lemma_frames_keep_wf(v: FlutterHandlerView, display: usize, data: Seq<u8>)
    requires
        v.wf(),
    ensures
        v.after_texture_frame().wf(),
        v.after_buffer_frame(display, data).wf(),
        v.next_rgba(display).wf(),
{
    let b = v.after_buffer_frame(display, data);
    if !v.rgbas.dom().contains(display) {
        assert(!v.rgba_displays.contains(display));
        assert(b.rgba_displays.last() == display);
        assert(b.rgba_displays.no_duplicates());
        assert forall|d: usize| b.rgbas.dom().contains(d) <==> b.rgba_displays.contains(d) by {
            if v.rgba_displays.contains(d) {
                let j = v.rgba_displays.index_of(d);
                assert(b.rgba_displays[j] == d);
            }
            if b.rgba_displays.contains(d) && d != display {
                let j = b.rgba_displays.index_of(d);
                assert(v.rgba_displays[j] == d);
            }
        }
    }
    assert(b.wf());
}

/// Once a frame went to the render targets, the next frame brings no notice: each
/// attachment that has a sink was notified, and the others have no sink.
pub proof fn lemma_next_frame_is_silent(v: FlutterHandlerView, display: usize)
    requires
        v.wf(),
    ensures
        v.after_texture_frame().texture_events(display) == Seq::<DeliveryView>::empty(),
        v.after_texture_frame().after_texture_frame() == v.after_texture_frame(),
{
    let a = v.after_texture_frame();
    assert forall|i: int| 0 <= i < a.ids.len() implies (|id: SessionID|
        a.handlers[id].first_frame_event(display))(#[trigger] a.ids[i]) is None by {
        assert(v.ids.contains(v.ids[i]));
    }
    lemma_filter_map_none(a.ids, |id: SessionID| a.handlers[id].first_frame_event(display));
    assert(a.after_texture_frame().handlers =~= a.handlers);
}

/// Of a run of frames to render targets only the first brings notices: one to each
/// attachment that has a sink and was armed, none afterwards, however many frames
/// follow and whichever displays they are for.
pub proof fn lemma_notified_once(v: FlutterHandlerView, displays: Seq<usize>)
    requires
        v.wf(),
        displays.len() >= 1,
    ensures
        v.texture_run_events(displays) == v.texture_events(displays[0]),
    decreases displays.len(),
{
    let a = v.after_texture_frame();
    let rest = displays.drop_first();
    lemma_frames_keep_wf(v, 0, Seq::empty());
    lemma_next_frame_is_silent(v, displays[0]);
    lemma_silent_run(a, rest);
    assert(v.texture_events(displays[0]) + Seq::<DeliveryView>::empty() =~= v.texture_events(
        displays[0],
    ));
}

/// A run of frames that follows a frame brings no notice.
pub proof fn lemma_silent_run(v: FlutterHandlerView, displays: Seq<usize>)
    requires
        v.wf(),
        v.after_texture_frame() == v,
    ensures
        v.texture_run_events(displays) == Seq::<DeliveryView>::empty(),
    decreases displays.len(),
{
    if displays.len() > 0 {
        lemma_next_frame_is_silent(v, displays[0]);
        lemma_silent_run(v, displays.drop_first());
        assert(Seq::<DeliveryView>::empty() + Seq::<DeliveryView>::empty() =~= Seq::<
            DeliveryView,
        >::empty());
    }
}

/// A handler whose one attachment has a sink and is armed brings exactly one notice
/// for a run of frames; once the attachment's size is set again, the next run brings
/// exactly one more.
pub proof fn lemma_one_notice_until_rearmed(
    v: FlutterHandlerView,
    id: SessionID,
    sink: SinkId,
    displays: Seq<usize>,
    resized: usize,
    width: usize,
    height: usize,
    more: Seq<usize>,
)
    requires
        v.wf(),
        v.ids == seq![id],
        v.handlers[id].event_stream == Some(sink),
        !v.handlers[id].notify_rendered,
        displays.len() >= 1,
        more.len() >= 1,
    ensures
        v.texture_run_events(displays) == seq![
            DeliveryView { sink, event: EventView::Rgba(displays[0]) },
        ],
        v.after_texture_frame().with_handler(
            id,
            v.after_texture_frame().handlers[id].set_size(resized, width, height),
        ).texture_run_events(more) == seq![DeliveryView { sink, event: EventView::Rgba(more[0]) }],
{
    lemma_notified_once(v, displays);
    lemma_single_armed(v, id, sink, displays[0]);
    let a = v.after_texture_frame();
    lemma_frames_keep_wf(v, 0, Seq::empty());
    assert(v.ids.contains(id)) by {
        assert(v.ids[0] == id);
    }
    let h = a.handlers[id].set_size(resized, width, height);
    let r = a.with_handler(id, h);
    assert(r.wf()) by {
        crate::renderer::lemma_transitions_keep_wf(a.handlers[id].renderer, resized, 0, width, height);
    }
    lemma_notified_once(r, more);
    lemma_single_armed(r, id, sink, more[0]);
}

/// A handler whose one attachment has a sink and is armed brings one notice.
pub proof fn lemma_single_armed(v: FlutterHandlerView, id: SessionID, sink: SinkId, display: usize)
    requires
        v.ids == seq![id],
        v.handlers[id].event_stream == Some(sink),
        !v.handlers[id].notify_rendered,
    ensures
        v.texture_events(display) == seq![DeliveryView { sink, event: EventView::Rgba(display) }],
{
    let f = |x: SessionID| v.handlers[x].first_frame_event(display);
    assert(v.ids.drop_last() =~= Seq::<SessionID>::empty());
    assert(v.ids.last() == id);
    assert(v.ids.drop_last().filter_map(f) =~= Seq::<DeliveryView>::empty());
    assert(v.ids.filter_map(f) =~= seq![DeliveryView { sink, event: EventView::Rgba(display) }]);
}

/// Of a run of frames into a slot that takes a frame, with no release in between,
/// exactly one is kept, the first, and the others are dropped.
pub proof fn lemma_buffer_keeps_first(v: FlutterHandlerView, display: usize, frames: Seq<Seq<u8>>)
    requires
        v.buffer_accepts(display),
        frames.len() >= 1,
    ensures
        v.buffer_run(display, frames) == v.after_buffer_frame(display, frames[0]),
        v.buffer_run(display, frames).get_rgba(display) == Some(frames[0]),
        v.buffer_run_retained(display, frames) == 1,
{
    lemma_full_slot_drops(v.after_buffer_frame(display, frames[0]), display, frames.drop_first());
}

/// A slot that holds a frame that was not released drops every frame of a run.
pub proof fn lemma_full_slot_drops(v: FlutterHandlerView, display: usize, frames: Seq<Seq<u8>>)
    requires
        !v.buffer_accepts(display),
    ensures
        v.buffer_run(display, frames) == v,
        v.buffer_run_retained(display, frames) == 0,
    decreases frames.len(),
{
    if frames.len() > 0 {
        lemma_full_slot_drops(v, display, frames.drop_first());
    }
}

/// After a release the slot takes the next frame, whatever it held.
pub proof fn lemma_release_admits_next(v: FlutterHandlerView, display: usize, data: Seq<u8>)
    ensures
        v.next_rgba(display).buffer_accepts(display),
        v.next_rgba(display).get_rgba(display) is None,
        v.next_rgba(display).after_buffer_frame(display, data).get_rgba(display) == Some(data),
{
}

/// A handler with one attachment makes one outcome of each frame. Where the
/// attachment's target for the display is registered with the frame's size, the peer
/// addresses displays one by one and the callback was resolved, that outcome is one
/// write; where the sizes differ it is none.
pub proof fn lemma_one_attachment_one_outcome(
    v: FlutterHandlerView,
    id: SessionID,
    display: usize,
    frame: FrameShape,
)
    requires
        v.ids == seq![id],
    ensures
        v.texture_outcomes(display, frame) == seq![
            v.handlers[id].renderer.outcome(display, frame),
        ],
        ({
            let r = v.handlers[id].renderer;
            r.multi_display && r.has_callback && r.infos.dom().contains(display)
                && r.infos[display].texture_rgba_ptr != 0 && r.infos[display].size == (
                frame.w,
                frame.h,
            ) ==> v.texture_outcomes(display, frame) == seq![
                FrameOutcome::Write(
                    TextureWrite { texture_rgba_ptr: r.infos[display].texture_rgba_ptr, frame },
                ),
            ]
        }),
        ({
            let r = v.handlers[id].renderer;
            r.multi_display && r.infos.dom().contains(display) && r.infos[display].size != (
                frame.w,
                frame.h,
            ) ==> !(v.texture_outcomes(display, frame)[0] is Write)
        }),
{
    assert(v.texture_outcomes(display, frame) =~= seq![
        v.handlers[id].renderer.outcome(display, frame),
    ]);
}

/// An attachment that is detached and attached again, and given a sink, is armed
/// again: the next run of frames brings it exactly one notice.
pub proof fn lemma_reattach_rearms(
    v: FlutterHandlerView,
    id: SessionID,
    multi_display: bool,
    sink: SinkId,
    displays: Seq<usize>,
)
    requires
        v.wf(),
        v.ids == seq![id],
        displays.len() >= 1,
    ensures
        ({
            let again = v.remove_handler(id).insert_handler(id, multi_display);
            let started = again.with_handler(
                id,
                HandlerView { event_stream: Some(sink), ..again.handlers[id] },
            );
            started.texture_run_events(displays) == seq![
                DeliveryView { sink, event: EventView::Rgba(displays[0]) },
            ]
        }),
{
    let removed = v.remove_handler(id);
    crate::session_laws::lemma_attachments_keep_wf(v, id, multi_display);
    assert(v.ids[0] == id);
    assert(v.ids.contains(id));
    assert(removed.ids.len() == 0);
    let again = removed.insert_handler(id, multi_display);
    crate::session_laws::lemma_attachments_keep_wf(removed, id, multi_display);
    assert(again.ids =~= seq![id]);
    let h = HandlerView { event_stream: Some(sink), ..again.handlers[id] };
    let started = again.with_handler(id, h);
    crate::session_laws::lemma_with_handler_keeps_wf(again, id, h);
    lemma_notified_once(started, displays);
    lemma_single_armed(started, id, sink, displays[0]);
}

/// A handler whose one attachment has a sink and was notified is armed again when a
/// target other than 0 is registered at the attachment: the next run of frames brings
/// exactly one notice. Taking a target away, with 0, arms nothing.
pub proof fn lemma_registration_rearms(
    v: FlutterHandlerView,
    id: SessionID,
    sink: SinkId,
    display: usize,
    ptr: usize,
    more: Seq<usize>,
)
    requires
        v.wf(),
        v.ids == seq![id],
        v.handlers[id].event_stream == Some(sink),
        v.handlers[id].notify_rendered,
        more.len() >= 1,
    ensures
        ptr != 0 ==> v.with_handler(
            id,
            v.handlers[id].register_texture(display, ptr),
        ).texture_run_events(more) == seq![DeliveryView { sink, event: EventView::Rgba(more[0]) }],
        ptr == 0 ==> v.with_handler(
            id,
            v.handlers[id].register_texture(display, ptr),
        ).texture_run_events(more) == Seq::<DeliveryView>::empty(),
{
    assert(v.ids[0] == id);
    assert(v.ids.contains(id));
    let h = v.handlers[id].register_texture(display, ptr);
    let r = v.with_handler(id, h);
    crate::renderer::lemma_transitions_keep_wf(v.handlers[id].renderer, display, ptr, 0, 0);
    crate::session_laws::lemma_with_handler_keeps_wf(v, id, h);
    lemma_notified_once(r, more);
    if ptr != 0 {
        lemma_single_armed(r, id, sink, more[0]);
    } else {
        assert(r.ids.drop_last() =~= Seq::<SessionID>::empty());
        assert(r.ids.last() == id);
        let f = |x: SessionID| r.handlers[x].first_frame_event(more[0]);
        assert(r.ids.drop_last().filter_map(f) =~= Seq::<DeliveryView>::empty());
        assert(r.texture_events(more[0]) =~= Seq::<DeliveryView>::empty());
    }
}

} // verus!
