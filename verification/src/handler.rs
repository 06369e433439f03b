use vstd::prelude::*;
use crate::ordered_map::OrderedMap;
use crate::peer::{PeerInfo, PeerInfoView};
use crate::renderer::{FrameOutcome, FrameShape, RendererView, VideoRenderer};
use crate::types::{
    close_event, deliveries_view, Delivery, DeliveryView, EventToUI, EventView, SessionID, SinkId,
};

verus! {

/// The state of one UI attachment: its sink, whether it was told that a frame is
/// ready, and its render targets.
pub struct SessionHandler {
    pub event_stream: Option<SinkId>,
    pub notify_rendered: bool,
    pub renderer: VideoRenderer,
}

/// The mathematical value of a [`SessionHandler`].
pub struct HandlerView {
    pub event_stream: Option<SinkId>,
    pub notify_rendered: bool,
    pub renderer: RendererView,
}

impl View for SessionHandler {
    type V = HandlerView;

    open spec fn view(&self) -> HandlerView {
        HandlerView {
            event_stream: self.event_stream,
            notify_rendered: self.notify_rendered,
            renderer: self.renderer@,
        }
    }
}

impl HandlerView {
    /// The attachment as it is made: no sink, not notified, no targets.
    pub open spec fn fresh(has_callback: bool, multi_display: bool) -> HandlerView {
        HandlerView {
            event_stream: None,
            notify_rendered: false,
            renderer: RendererView { multi_display, ..RendererView::empty(has_callback) },
        }
    }

    /// The notice that a frame is ready, owed to an attachment that has a sink and was
    /// not yet notified.
    pub open spec fn first_frame_event(self, display: usize) -> Option<DeliveryView> {
        if !self.notify_rendered && self.event_stream is Some {
            Some(DeliveryView { sink: self.event_stream->0, event: EventView::Rgba(display) })
        } else {
            None
        }
    }

    /// The attachment after a frame passed: notified, if it has a sink.
    pub open spec fn after_frame(self) -> HandlerView {
        HandlerView {
            notify_rendered: self.notify_rendered || self.event_stream is Some,
            ..self
        }
    }

    /// The attachment after the size of `display` was set: armed for one more notice.
    pub open spec fn set_size(self, display: usize, width: usize, height: usize) -> HandlerView {
        HandlerView {
            notify_rendered: false,
            renderer: self.renderer.set_size(display, width, height),
            ..self
        }
    }

    /// The attachment after `ptr` was registered as the target of `display`: a target
    /// other than 0 arms one more notice, as a new size does.
    pub open spec fn register_texture(self, display: usize, ptr: usize) -> HandlerView {
        HandlerView {
            notify_rendered: self.notify_rendered && ptr == 0,
            renderer: self.renderer.register_texture(display, ptr),
            ..self
        }
    }

    /// The attachment told whether the peer addresses displays one by one.
    pub open spec fn with_multi_display(self, value: bool) -> HandlerView {
        HandlerView { renderer: RendererView { multi_display: value, ..self.renderer }, ..self }
    }

    /// The notice that goes to an attachment's sink, if it has one.
    pub open spec fn notice(self, event: EventView) -> Option<DeliveryView> {
        match self.event_stream {
            Some(sink) => Some(DeliveryView { sink, event }),
            None => None,
        }
    }
}

impl SessionHandler {
    /// The render targets of the attachment are well-formed.
    pub open spec fn wf(&self) -> bool {
        self.renderer.wf()
    }

    /// An attachment without a sink. `on_rgba_func` says whether the write callback of
    /// the render targets could be resolved.
    pub fn new(on_rgba_func: bool) -> (h: Self)
        ensures
            h.wf(),
            h@ == HandlerView::fresh(on_rgba_func, false),
    {
        SessionHandler {
            event_stream: None,
            notify_rendered: false,
            renderer: VideoRenderer::new(on_rgba_func),
        }
    }

    /// Arms one more notice that a frame is ready.
    pub fn on_waiting_for_image_dialog_show(&mut self)
        ensures
            final(self)@ == (HandlerView { notify_rendered: false, ..old(self)@ }),
            final(self).wf() == old(self).wf(),
    {
        self.notify_rendered = false;
    }
}


/// What a hook is called for.
#[derive(Clone, Copy, Debug, PartialEq, Eq, Structural)]
pub enum SessionHook {
    /// For each frame, before it is buffered.
    OnSessionRgba,
}

/// A decoded frame: its pixels and its shape.
pub struct ImageRgb {
    pub raw: Vec<u8>,
    pub w: usize,
    pub h: usize,
    /// Bytes per row.
    pub stride: usize,
}

impl ImageRgb {
    /// The shape of the frame.
    pub open spec fn shape(&self) -> FrameShape {
        FrameShape { len: self.raw@.len() as usize, w: self.w, h: self.h, stride: self.stride }
    }
}

/// The most recent frame of one display: a buffer that the consumer may read while
/// `valid` holds, and that the producer may overwrite while it does not.
pub struct RgbaData {
    pub data: Vec<u8>,
    pub valid: bool,
}

/// The mathematical value of an [`RgbaData`].
pub struct RgbaView {
    pub data: Seq<u8>,
    pub valid: bool,
}

impl View for RgbaData {
    type V = RgbaView;

    open spec fn view(&self) -> RgbaView {
        RgbaView { data: self.data@, valid: self.valid }
    }
}

/// What one frame led to: for the caller to write and to send.
#[derive(Debug, PartialEq, Eq)]
pub struct FrameDelivery {
    /// With render targets: what became of the frame at each attachment, in the
    /// attachments' order.
    pub outcomes: Vec<FrameOutcome>,
    /// With an owned buffer: whether the frame went into the display's slot.
    pub retained: bool,
    /// The notices to send.
    pub events: Vec<Delivery>,
}

/// The mathematical value of a [`FlutterHandler`].
pub struct FlutterHandlerView {
    /// Whether frames go to render targets; else they go to the owned buffers.
    pub texture_render: bool,
    /// Whether the write callback of the render targets was resolved.
    pub has_callback: bool,
    /// Whether the peer addresses displays one by one, as far as it has said.
    pub peer_multi_display: bool,
    /// The attachments, in the order in which they were made.
    pub ids: Seq<SessionID>,
    /// The state of each attachment.
    pub handlers: Map<SessionID, HandlerView>,
    /// The displays that have a slot, in the order in which they got one.
    pub rgba_displays: Seq<usize>,
    /// The slot of each of them.
    pub rgbas: Map<usize, RgbaView>,
    /// What the peer has said of itself.
    pub peer_info: PeerInfoView,
    /// The names of the hooks that see each frame before it is buffered, in the order
    /// in which they were added.
    pub hooks: Seq<Seq<char>>,
    /// What each hook is called for.
    pub hook_kinds: Map<Seq<char>, SessionHook>,
}

impl FlutterHandlerView {
    /// No attachment and no display occurs twice; each has its state; the render
    /// targets of each attachment are well-formed.
    pub open spec fn wf(self) -> bool {
        &&& self.ids.no_duplicates()
        &&& forall|id: SessionID| self.handlers.dom().contains(id) <==> self.ids.contains(id)
        &&& forall|id: SessionID|
            self.handlers.dom().contains(id) ==> (#[trigger] self.handlers[id]).renderer.wf()
        &&& self.rgba_displays.no_duplicates()
        &&& forall|d: usize| self.rgbas.dom().contains(d) <==> self.rgba_displays.contains(d)
        &&& self.hooks.no_duplicates()
        &&& forall|k: Seq<char>| self.hook_kinds.dom().contains(k) <==> self.hooks.contains(k)
    }

    /// The handler without attachments and without frames.
    pub open spec fn empty(texture_render: bool, has_callback: bool) -> FlutterHandlerView {
        FlutterHandlerView {
            texture_render,
            has_callback,
            peer_multi_display: false,
            ids: Seq::empty(),
            handlers: Map::empty(),
            rgba_displays: Seq::empty(),
            rgbas: Map::empty(),
            peer_info: PeerInfoView::empty(),
            hooks: Seq::empty(),
            hook_kinds: Map::empty(),
        }
    }

    /// The attachments after `id` was added, if it was not among them.
    pub open spec fn ids_with(self, id: SessionID) -> Seq<SessionID> {
        if self.handlers.dom().contains(id) {
            self.ids
        } else {
            self.ids.push(id)
        }
    }

    /// The handler after a fresh attachment was put under `id`, in the place of the one
    /// that stood there, if any.
    pub open spec fn insert_handler(self, id: SessionID, multi_display: bool) -> FlutterHandlerView {
        FlutterHandlerView {
            ids: self.ids_with(id),
            handlers: self.handlers.insert(id, HandlerView::fresh(self.has_callback, multi_display)),
            ..self
        }
    }

    /// The handler after the attachment `id` was taken away.
    pub open spec fn remove_handler(self, id: SessionID) -> FlutterHandlerView {
        FlutterHandlerView {
            ids: self.ids.remove_value(id),
            handlers: self.handlers.remove(id),
            ..self
        }
    }

    /// The handler with the state of the attachment `id` replaced.
    pub open spec fn with_handler(self, id: SessionID, h: HandlerView) -> FlutterHandlerView {
        FlutterHandlerView { handlers: self.handlers.insert(id, h), ..self }
    }

    /// The handler with every attachment told whether the peer addresses displays one
    /// by one.
    pub open spec fn with_multi_display(self, value: bool) -> FlutterHandlerView {
        FlutterHandlerView {
            peer_multi_display: value,
            handlers: self.handlers.map_values(|h: HandlerView| h.with_multi_display(value)),
            ..self
        }
    }

    /// `acc` with the displays of `ds` that it lacks, each added once, in their order.
    pub open spec fn add_displays(acc: Seq<usize>, ds: Seq<usize>) -> Seq<usize>
        decreases ds.len(),
    {
        if ds.len() == 0 {
            acc
        } else {
            let a = Self::add_displays(acc, ds.drop_last());
            if a.contains(ds.last()) {
                a
            } else {
                a.push(ds.last())
            }
        }
    }

    /// `start` with the displays for which the attachments `ids` but `except` have an
    /// entry, each display once.
    pub open spec fn viewed_displays(
        self,
        ids: Seq<SessionID>,
        except: SessionID,
        start: Seq<usize>,
    ) -> Seq<usize>
        decreases ids.len(),
    {
        if ids.len() == 0 {
            start
        } else {
            let a = self.viewed_displays(ids.drop_last(), except, start);
            if ids.last() == except {
                a
            } else {
                Self::add_displays(a, self.handlers[ids.last()].renderer.displays)
            }
        }
    }

    /// The displays that are still in use once the attachment `except` is left out:
    /// `current`, if there is one, and those for which another attachment has an entry.
    pub open spec fn remaining_displays(self, current: Option<usize>, except: SessionID) -> Seq<
        usize,
    > {
        self.viewed_displays(
            self.ids,
            except,
            match current {
                Some(c) => seq![c],
                None => Seq::empty(),
            },
        )
    }

    /// The notices of `event`, one for each attachment that has a sink, in the
    /// attachments' order.
    pub open spec fn notices(self, event: EventView) -> Seq<DeliveryView> {
        self.ids.filter_map(|id: SessionID| self.handlers[id].notice(event))
    }

    /// What becomes of a frame at each attachment's render targets.
    pub open spec fn texture_outcomes(self, display: usize, frame: FrameShape) -> Seq<
        FrameOutcome,
    > {
        self.ids.map_values(|id: SessionID| self.handlers[id].renderer.outcome(display, frame))
    }

    /// The notices that a frame is ready: one for each attachment that has a sink and
    /// was not notified since it was armed.
    pub open spec fn texture_events(self, display: usize) -> Seq<DeliveryView> {
        self.ids.filter_map(|id: SessionID| self.handlers[id].first_frame_event(display))
    }

    /// The handler after a frame went to the render targets.
    pub open spec fn after_texture_frame(self) -> FlutterHandlerView {
        FlutterHandlerView {
            handlers: self.handlers.map_values(|h: HandlerView| h.after_frame()),
            ..self
        }
    }

    /// Whether the slot of `display` takes a new frame: it does unless it holds one that
    /// the consumer has not yet released.
    pub open spec fn buffer_accepts(self, display: usize) -> bool {
        !(self.rgbas.dom().contains(display) && self.rgbas[display].valid)
    }

    /// The buffer that the producer gets back for a frame that the slot took: the one
    /// that the slot held, or an empty one where there was no slot.
    pub open spec fn returned_buffer(self, display: usize) -> Seq<u8> {
        if self.rgbas.dom().contains(display) {
            self.rgbas[display].data
        } else {
            Seq::empty()
        }
    }

    /// The handler after `data` went into the slot of `display`.
    pub open spec fn after_buffer_frame(self, display: usize, data: Seq<u8>) -> FlutterHandlerView {
        FlutterHandlerView {
            rgba_displays: if self.rgbas.dom().contains(display) {
                self.rgba_displays
            } else {
                self.rgba_displays.push(display)
            },
            rgbas: self.rgbas.insert(display, RgbaView { data, valid: true }),
            ..self
        }
    }

    /// The handler after the consumer released the frame of `display`.
    pub open spec fn next_rgba(self, display: usize) -> FlutterHandlerView {
        if self.rgbas.dom().contains(display) {
            FlutterHandlerView {
                rgbas: self.rgbas.insert(
                    display,
                    RgbaView { valid: false, ..self.rgbas[display] },
                ),
                ..self
            }
        } else {
            self
        }
    }

    /// The frame of `display` that the consumer may read.
    pub open spec fn get_rgba(self, display: usize) -> Option<Seq<u8>> {
        if self.rgbas.dom().contains(display) && self.rgbas[display].valid {
            Some(self.rgbas[display].data)
        } else {
            None
        }
    }
}

/// The UI side of one peer connection: its attachments and its frame buffers.
pub struct FlutterHandler {
    session_handlers: OrderedMap<SessionID, SessionHandler>,
    display_rgbas: OrderedMap<usize, RgbaData>,
    texture_render: bool,
    on_rgba_func: bool,
    peer_multi_display: bool,
    peer_info: PeerInfo,
    hooks: OrderedMap<String, SessionHook>,
}

impl View for FlutterHandler {
    type V = FlutterHandlerView;

    closed spec fn view(&self) -> FlutterHandlerView {
        FlutterHandlerView {
            texture_render: self.texture_render,
            has_callback: self.on_rgba_func,
            peer_multi_display: self.peer_multi_display,
            ids: self.session_handlers.keys(),
            handlers: self.session_handlers@.map_values(|h: SessionHandler| h@),
            rgba_displays: self.display_rgbas.keys(),
            rgbas: self.display_rgbas@.map_values(|r: RgbaData| r@),
            peer_info: self.peer_info@,
            hooks: self.hooks.keys(),
            hook_kinds: self.hooks@,
        }
    }
}

impl FlutterHandler {
    /// What holds of every handler that was made by [`Self::new`] and changed by its
    /// methods: no attachment, display or hook occurs twice, and every attachment is
    /// well-formed.
    pub closed spec fn wf(&self) -> bool {
        &&& self.session_handlers.wf()
        &&& self.display_rgbas.wf()
        &&& self.hooks.wf()
        &&& forall|id: SessionID|
            self.session_handlers@.dom().contains(id) ==> (
            #[trigger] self.session_handlers@[id]).wf()
    }

    /// A well-formed handler has a well-formed view.
    pub proof fn lemma_view_wf(&self)
        requires
            self.wf(),
        ensures
            self@.wf(),
    {
        self.session_handlers.lemma_dom();
        self.session_handlers.lemma_keys();
        self.display_rgbas.lemma_dom();
        self.display_rgbas.lemma_keys();
        self.hooks.lemma_keys();
        self.hooks.lemma_dom();
        assert forall|id: SessionID| self@.handlers.dom().contains(id) implies (
        #[trigger] self@.handlers[id]).renderer.wf() by {
            self.session_handlers@[id].renderer.lemma_view_wf();
        }
    }

    /// A handler without attachments. `texture_render` chooses between render targets
    /// and owned buffers; `on_rgba_func` says whether the write callback of the render
    /// targets could be resolved.
    pub fn new(texture_render: bool, on_rgba_func: bool) -> (h: Self)
        ensures
            h.wf(),
            h@ == FlutterHandlerView::empty(texture_render, on_rgba_func),
    {
        let h = FlutterHandler {
            session_handlers: OrderedMap::new(),
            display_rgbas: OrderedMap::new(),
            texture_render,
            on_rgba_func,
            peer_multi_display: false,
            peer_info: PeerInfo::new(),
            hooks: OrderedMap::new(),
        };
        assert(h@.handlers =~= Map::empty());
        assert(h@.rgbas =~= Map::empty());
        h
    }

    /// The number of attachments.
    pub fn handler_count(&self) -> (n: usize)
        ensures
            n == self@.ids.len(),
    {
        self.session_handlers.len()
    }

    /// Whether `id` is among the attachments.
    pub fn has_handler(&self, id: SessionID) -> (b: bool)
        requires
            self.wf(),
        ensures
            b == self@.handlers.dom().contains(id),
    {
        self.session_handlers.contains_key(&id)
    }

    /// Puts a fresh attachment under `id`, in the place of the one that stood there, if
    /// any. `multi_display` says whether the peer addresses displays one by one.
    pub fn insert_handler(&mut self, id: SessionID, multi_display: bool)
        requires
            old(self).wf(),
        ensures
            final(self).wf(),
            final(self)@ == old(self)@.insert_handler(id, multi_display),
    {
        proof {
            self.session_handlers.lemma_dom();
        }
        let mut h = SessionHandler::new(self.on_rgba_func);
        h.renderer.set_support_multi_ui_session(multi_display);
        self.session_handlers.insert(id, h);
        proof {
            assert(self@.handlers =~= old(self)@.insert_handler(id, multi_display).handlers);
        }
    }

    /// Takes the attachment `id` away, and says whether it was there.
    pub fn remove_handler(&mut self, id: SessionID) -> (found: bool)
        requires
            old(self).wf(),
        ensures
            final(self).wf(),
            found == old(self)@.handlers.dom().contains(id),
            final(self)@ == old(self)@.remove_handler(id),
    {
        proof {
            self.session_handlers.lemma_dom();
        }
        let r = self.session_handlers.remove(&id);
        proof {
            assert(self@.handlers =~= old(self)@.remove_handler(id).handlers);
        }
        r.is_some()
    }
}

/// What the start of a stream found at its attachment.
#[derive(Debug, PartialEq, Eq)]
pub struct StreamStart {
    /// Whether the attachment had a sink before.
    pub was_connected: bool,
    /// The terminal notice for the sink that was replaced.
    pub closed: Option<Delivery>,
}

/// The view of a delivery that may be absent.
pub open spec fn delivery_view(d: Option<Delivery>) -> Option<DeliveryView> {
    match d {
        Some(d) => Some(d@),
        None => None,
    }
}

/// A copy of `event`.
pub fn clone_event(event: &EventToUI) -> (r: EventToUI)
    ensures
        r@ == event@,
{
    match event {
        EventToUI::Event(text) => EventToUI::Event(text.clone()),
        EventToUI::Rgba(display) => EventToUI::Rgba(*display),
    }
}

/// The terminal notice that a sink receives before it is given up.
pub fn close_notice(sink: SinkId) -> (d: Delivery)
    ensures
        d@ == (DeliveryView { sink, event: close_event() }),
{
    Delivery { sink, event: EventToUI::Event("close".to_owned()) }
}

impl FlutterHandler {
    /// Gives the attachment `id` the sink `sink`. The sink that it replaces, if any, is
    /// owed the terminal notice, which is returned for the caller to send. Without such
    /// an attachment nothing changes.
    pub fn start_stream(&mut self, id: SessionID, sink: SinkId) -> (r: Option<StreamStart>)
        requires
            old(self).wf(),
        ensures
            final(self).wf(),
            r is Some == old(self)@.handlers.dom().contains(id),
            r is None ==> final(self)@ == old(self)@,
            r is Some ==> {
                let h = old(self)@.handlers[id];
                &&& r->0.was_connected == (h.event_stream is Some)
                &&& delivery_view(r->0.closed) == h.notice(close_event())
                &&& final(self)@ == old(self)@.with_handler(
                    id,
                    HandlerView { event_stream: Some(sink), ..h },
                )
            },
    {
        proof {
            self.session_handlers.lemma_dom();
        }
        match self.session_handlers.position(&id) {
            Some(i) => {
                let h = self.session_handlers.value_at_mut(i);
                let was_connected = h.event_stream.is_some();
                let closed = match h.event_stream {
                    Some(old_sink) => Some(close_notice(old_sink)),
                    None => None,
                };
                h.event_stream = Some(sink);
                proof {
                    assert(self@.handlers =~= old(self)@.with_handler(
                        id,
                        HandlerView { event_stream: Some(sink), ..old(self)@.handlers[id] },
                    ).handlers);
                }
                Some(StreamStart { was_connected, closed })
            },
            None => None,
        }
    }

    /// The terminal notice for the sink of the attachment `id`, if it has one.
    pub fn close_event_stream(&self, session_id: SessionID) -> (r: Option<Delivery>)
        requires
            self.wf(),
        ensures
            delivery_view(r) == if self@.handlers.dom().contains(session_id) {
                self@.handlers[session_id].notice(close_event())
            } else {
                None
            },
    {
        proof {
            self.session_handlers.lemma_dom();
        }
        match self.session_handlers.get(&session_id) {
            Some(h) => match h.event_stream {
                Some(sink) => Some(close_notice(sink)),
                None => None,
            },
            None => None,
        }
    }

    /// Hands `event` to every attachment that has a sink: the deliveries, in the
    /// attachments' order, for the caller to send.
    pub fn fan_out(&self, event: &EventToUI) -> (out: Vec<Delivery>)
        requires
            self.wf(),
        ensures
            deliveries_view(out@) == self@.notices(event@),
    {
        let mut out: Vec<Delivery> = Vec::new();
        let n = self.session_handlers.len();
        let ghost f = |id: SessionID| self@.handlers[id].notice(event@);
        let mut i: usize = 0;
        proof {
            self.session_handlers.lemma_dom();
            assert(deliveries_view(out@) =~= self@.ids.take(0).filter_map(f));
        }
        while i < n
            invariant
                self.wf(),
                n == self@.ids.len(),
                i <= n,
                f == |id: SessionID| self@.handlers[id].notice(event@),
                deliveries_view(out@) == self@.ids.take(i as int).filter_map(f),
            decreases n - i,
        {
            let h = self.session_handlers.value_at(i);
            proof {
                self.session_handlers.lemma_dom();
                crate::seq_util::lemma_filter_map_step(self@.ids, f, i as int);
            }
            let ghost before = out@;
            if let Some(sink) = h.event_stream {
                out.push(Delivery { sink, event: clone_event(event) });
                assert(deliveries_view(out@) =~= deliveries_view(
                    before,
                ).push(out@.last()@));
            }
            i += 1;
        }
        proof {
            crate::seq_util::lemma_take_all(self@.ids);
        }
        out
    }
}

impl FlutterHandler {
    /// Whether frames go to render targets.
    pub fn is_texture_render(&self) -> (b: bool)
        ensures
            b == self@.texture_render,
    {
        self.texture_render
    }

    /// Whether the peer addresses displays one by one, as far as it has said.
    pub fn is_support_multi_ui_session(&self) -> (b: bool)
        ensures
            b == self@.peer_multi_display,
    {
        self.peer_multi_display
    }

    fn on_rgba_texture(&mut self, display: usize, frame: FrameShape) -> (r: FrameDelivery)
        requires
            old(self).wf(),
        ensures
            final(self).wf(),
            final(self)@ == old(self)@.after_texture_frame(),
            r.outcomes@ == old(self)@.texture_outcomes(display, frame),
            !r.retained,
            deliveries_view(r.events@) == old(self)@.texture_events(display),
    {
        let mut outcomes: Vec<FrameOutcome> = Vec::new();
        let mut events: Vec<Delivery> = Vec::new();
        let n = self.session_handlers.len();
        let ghost v0 = self@;
        let ghost m0 = self.session_handlers@;
        let ghost ids = self.session_handlers.keys();
        let ghost g = |id: SessionID| v0.handlers[id].first_frame_event(display);
        let mut i: usize = 0;
        proof {
            self.session_handlers.lemma_dom();
            self.session_handlers.lemma_keys();
            assert(deliveries_view(events@) =~= ids.take(0).filter_map(g));
        }
        while i < n
            invariant
                self.session_handlers.wf(),
                self.display_rgbas == old(self).display_rgbas,
                self.texture_render == old(self).texture_render,
                self.on_rgba_func == old(self).on_rgba_func,
                self.peer_multi_display == old(self).peer_multi_display,
                self.peer_info == old(self).peer_info,
                self.hooks == old(self).hooks,
                old(self).wf(),
                v0 == old(self)@,
                m0 == old(self).session_handlers@,
                ids == old(self).session_handlers.keys(),
                ids == self.session_handlers.keys(),
                ids.no_duplicates(),
                n == ids.len(),
                i <= n,
                g == |id: SessionID| v0.handlers[id].first_frame_event(display),
                self.session_handlers@.dom() == m0.dom(),
                forall|id: SessionID| m0.dom().contains(id) <==> ids.contains(id),
                forall|id: SessionID|
                    m0.dom().contains(id) ==> (#[trigger] self.session_handlers@[id]).wf(),
                forall|j: int|
                    0 <= j < i ==> (#[trigger] self.session_handlers@[ids[j]])@ == m0[ids[j]]@.after_frame(),
                forall|j: int|
                    i <= j < n ==> (#[trigger] self.session_handlers@[ids[j]]) == m0[ids[j]],
                outcomes@.len() == i,
                forall|j: int|
                    0 <= j < i ==> #[trigger] outcomes@[j] == m0[ids[j]]@.renderer.outcome(
                        display,
                        frame,
                    ),
                deliveries_view(events@) == ids.take(i as int).filter_map(g),
            decreases n - i,
        {
            let ghost cur = self.session_handlers@;
            let ghost id = ids[i as int];
            proof {
                self.session_handlers.lemma_dom();
                crate::seq_util::lemma_filter_map_step(ids, g, i as int);
                assert(ids.contains(id));
                assert(cur[id] == m0[id]);
                assert(cur[id].wf());
            }
            let ghost before = events@;
            let h = self.session_handlers.value_at_mut(i);
            let outcome = h.renderer.on_rgba(display, frame);
            outcomes.push(outcome);
            if !h.notify_rendered {
                if let Some(sink) = h.event_stream {
                    events.push(Delivery { sink, event: EventToUI::Rgba(display) });
                    h.notify_rendered = true;
                    assert(deliveries_view(events@) =~= deliveries_view(before).push(
                        events@.last()@,
                    ));
                }
            }
            proof {
                assert forall|j: int| 0 <= j < n && j != i implies ids[j] != id by {}
                assert(self.session_handlers@[id]@ == m0[id]@.after_frame());
            }
            i += 1;
        }
        proof {
            crate::seq_util::lemma_take_all(ids);
            assert(outcomes@ =~= v0.texture_outcomes(display, frame));
            assert(self@.handlers =~= v0.after_texture_frame().handlers) by {
                assert forall|id: SessionID| m0.dom().contains(id) implies (
                #[trigger] self.session_handlers@[id])@ == m0[id]@.after_frame() by {
                    let j = ids.index_of(id);
                    assert(ids[j] == id);
                }
            }
        }
        FrameDelivery { outcomes, retained: false, events }
    }

    fn on_rgba_buffer(&mut self, display: usize, rgba: &mut ImageRgb) -> (r: FrameDelivery)
        requires
            old(self).wf(),
        ensures
            final(self).wf(),
            r.outcomes@ == Seq::<FrameOutcome>::empty(),
            r.retained == old(self)@.buffer_accepts(display),
            final(rgba).w == old(rgba).w,
            final(rgba).h == old(rgba).h,
            final(rgba).stride == old(rgba).stride,
            r.retained ==> {
                &&& final(self)@ == old(self)@.after_buffer_frame(display, old(rgba).raw@)
                &&& final(rgba).raw@ == old(self)@.returned_buffer(display)
                &&& deliveries_view(r.events@) == old(self)@.notices(EventView::Rgba(display))
            },
            !r.retained ==> {
                &&& final(self)@ == old(self)@
                &&& final(rgba).raw@ == old(rgba).raw@
                &&& r.events@ == Seq::<Delivery>::empty()
            },
    {
        proof {
            self.display_rgbas.lemma_dom();
        }
        match self.display_rgbas.position(&display) {
            Some(i) => {
                let slot = self.display_rgbas.value_at_mut(i);
                if slot.valid {
                    proof {
                        assert(self@.rgbas =~= old(self)@.rgbas);
                    }
                    return FrameDelivery {
                        outcomes: Vec::new(),
                        retained: false,
                        events: Vec::new(),
                    };
                }
                slot.valid = true;
                std::mem::swap(&mut rgba.raw, &mut slot.data);
            },
            None => {
                let mut data: Vec<u8> = Vec::new();
                std::mem::swap(&mut rgba.raw, &mut data);
                self.display_rgbas.insert(display, RgbaData { data, valid: true });
            },
        }
        proof {
            assert(self@.rgbas =~= old(self)@.after_buffer_frame(display, old(rgba).raw@).rgbas);
            assert(self@.handlers =~= old(self)@.handlers);
        }
        let event = EventToUI::Rgba(display);
        let events = self.fan_out(&event);
        FrameDelivery { outcomes: Vec::new(), retained: true, events }
    }

    /// Takes a decoded frame for `display`.
    ///
    /// With render targets, the frame is offered to every attachment's target, and each
    /// attachment that has a sink and was not notified since it was armed gets the one
    /// notice that a frame is ready. With owned buffers, the frame is dropped while the
    /// slot of `display` holds one that the consumer has not released; else it goes into
    /// the slot, `rgba` gets the slot's former buffer in exchange, and every attachment
    /// that has a sink is notified.
    pub fn on_rgba(&mut self, display: usize, rgba: &mut ImageRgb) -> (r: FrameDelivery)
        requires
            old(self).wf(),
        ensures
            final(self).wf(),
            final(rgba).w == old(rgba).w,
            final(rgba).h == old(rgba).h,
            final(rgba).stride == old(rgba).stride,
            old(self)@.texture_render ==> {
                &&& final(self)@ == old(self)@.after_texture_frame()
                &&& final(rgba).raw@ == old(rgba).raw@
                &&& r.outcomes@ == old(self)@.texture_outcomes(display, old(rgba).shape())
                &&& !r.retained
                &&& deliveries_view(r.events@) == old(self)@.texture_events(display)
            },
            !old(self)@.texture_render ==> {
                &&& r.outcomes@ == Seq::<FrameOutcome>::empty()
                &&& r.retained == old(self)@.buffer_accepts(display)
            },
            !old(self)@.texture_render && r.retained ==> {
                &&& final(self)@ == old(self)@.after_buffer_frame(display, old(rgba).raw@)
                &&& final(rgba).raw@ == old(self)@.returned_buffer(display)
                &&& deliveries_view(r.events@) == old(self)@.notices(EventView::Rgba(display))
            },
            !old(self)@.texture_render && !r.retained ==> {
                &&& final(self)@ == old(self)@
                &&& final(rgba).raw@ == old(rgba).raw@
                &&& r.events@ == Seq::<Delivery>::empty()
            },
    {
        if self.texture_render {
            let frame = FrameShape {
                len: rgba.raw.len(),
                w: rgba.w,
                h: rgba.h,
                stride: rgba.stride,
            };
            self.on_rgba_texture(display, frame)
        } else {
            self.on_rgba_buffer(display, rgba)
        }
    }

    /// The frame of `display`, while the slot holds one that was not yet released.
    pub fn get_rgba(&self, display: usize) -> (r: Option<&Vec<u8>>)
        requires
            self.wf(),
        ensures
            match r {
                Some(data) => self@.get_rgba(display) == Some(data@),
                None => self@.get_rgba(display) is None,
            },
    {
        proof {
            self.display_rgbas.lemma_dom();
        }
        match self.display_rgbas.get(&display) {
            Some(slot) => if slot.valid {
                Some(&slot.data)
            } else {
                None
            },
            None => None,
        }
    }

    /// The length of the buffer in the slot of `display`, 0 without a slot.
    pub fn rgba_size(&self, display: usize) -> (n: usize)
        requires
            self.wf(),
        ensures
            n == if self@.rgbas.dom().contains(display) {
                self@.rgbas[display].data.len()
            } else {
                0
            },
    {
        proof {
            self.display_rgbas.lemma_dom();
        }
        match self.display_rgbas.get(&display) {
            Some(slot) => slot.data.len(),
            None => 0,
        }
    }

    /// Releases the frame of `display`: the slot takes the next one.
    pub fn next_rgba(&mut self, display: usize)
        requires
            old(self).wf(),
        ensures
            final(self).wf(),
            final(self)@ == old(self)@.next_rgba(display),
    {
        proof {
            self.display_rgbas.lemma_dom();
        }
        match self.display_rgbas.position(&display) {
            Some(i) => {
                let slot = self.display_rgbas.value_at_mut(i);
                slot.valid = false;
                proof {
                    assert(self@.rgbas =~= old(self)@.next_rgba(display).rgbas);
                    assert(self@.handlers =~= old(self)@.handlers);
                }
            },
            None => {},
        }
    }
}

impl FlutterHandler {
    /// Sets the size of `display` at the attachment `id` and arms one more notice that
    /// a frame is ready. Says whether there is such an attachment; without one nothing
    /// changes.
    pub fn set_size(&mut self, id: SessionID, display: usize, width: usize, height: usize) -> (found:
        bool)
        requires
            old(self).wf(),
        ensures
            final(self).wf(),
            found == old(self)@.handlers.dom().contains(id),
            found ==> final(self)@ == old(self)@.with_handler(
                id,
                old(self)@.handlers[id].set_size(display, width, height),
            ),
            !found ==> final(self)@ == old(self)@,
    {
        proof {
            self.session_handlers.lemma_dom();
        }
        match self.session_handlers.position(&id) {
            Some(i) => {
                let h = self.session_handlers.value_at_mut(i);
                h.notify_rendered = false;
                h.renderer.set_size(display, width, height);
                proof {
                    assert(self@.handlers =~= old(self)@.with_handler(
                        id,
                        old(self)@.handlers[id].set_size(display, width, height),
                    ).handlers);
                }
                true
            },
            None => false,
        }
    }

    /// Registers `ptr` as the render target of `display` at the attachment `id`, and
    /// arms one more notice that a frame is ready, unless `ptr` is 0, which takes the
    /// target away. Returns nothing without such an attachment, else whether another
    /// target, not 0, was replaced.
    pub fn register_texture(&mut self, id: SessionID, display: usize, ptr: usize) -> (r: Option<
        bool,
    >)
        requires
            old(self).wf(),
        ensures
            final(self).wf(),
            r is Some == old(self)@.handlers.dom().contains(id),
            r is Some ==> r->0 == old(self)@.handlers[id].renderer.registers_over(display, ptr)
                && final(self)@ == old(self)@.with_handler(
                id,
                old(self)@.handlers[id].register_texture(display, ptr),
            ),
            r is None ==> final(self)@ == old(self)@,
    {
        proof {
            self.session_handlers.lemma_dom();
        }
        match self.session_handlers.position(&id) {
            Some(i) => {
                let h = self.session_handlers.value_at_mut(i);
                let violation = h.renderer.register_texture(display, ptr);
                if ptr != 0 {
                    h.notify_rendered = false;
                }
                proof {
                    assert(self@.handlers =~= old(self)@.with_handler(
                        id,
                        old(self)@.handlers[id].register_texture(display, ptr),
                    ).handlers);
                }
                Some(violation)
            },
            None => None,
        }
    }

    /// Arms one more notice that a frame is ready at the attachment `id`, and says
    /// whether there is such an attachment.
    pub fn on_waiting_for_image_dialog_show(&mut self, id: SessionID) -> (found: bool)
        requires
            old(self).wf(),
        ensures
            final(self).wf(),
            found == old(self)@.handlers.dom().contains(id),
            found ==> final(self)@ == old(self)@.with_handler(
                id,
                HandlerView { notify_rendered: false, ..old(self)@.handlers[id] },
            ),
            !found ==> final(self)@ == old(self)@,
    {
        proof {
            self.session_handlers.lemma_dom();
        }
        match self.session_handlers.position(&id) {
            Some(i) => {
                let h = self.session_handlers.value_at_mut(i);
                h.on_waiting_for_image_dialog_show();
                proof {
                    assert(self@.handlers =~= old(self)@.with_handler(
                        id,
                        HandlerView { notify_rendered: false, ..old(self)@.handlers[id] },
                    ).handlers);
                }
                true
            },
            None => false,
        }
    }

    /// Tells every attachment's renderer whether the peer addresses displays one by one.
    pub fn set_support_multi_ui_session(&mut self, value: bool)
        requires
            old(self).wf(),
        ensures
            final(self).wf(),
            final(self)@ == old(self)@.with_multi_display(value),
    {
        self.peer_multi_display = value;
        let n = self.session_handlers.len();
        let ghost m0 = self.session_handlers@;
        let ghost ids = self.session_handlers.keys();
        let mut i: usize = 0;
        proof {
            self.session_handlers.lemma_dom();
            self.session_handlers.lemma_keys();
        }
        while i < n
            invariant
                self.session_handlers.wf(),
                self.display_rgbas == old(self).display_rgbas,
                self.texture_render == old(self).texture_render,
                self.on_rgba_func == old(self).on_rgba_func,
                self.peer_multi_display == value,
                self.peer_info == old(self).peer_info,
                self.hooks == old(self).hooks,
                old(self).wf(),
                m0 == old(self).session_handlers@,
                ids == self.session_handlers.keys(),
                ids == old(self).session_handlers.keys(),
                ids.no_duplicates(),
                n == ids.len(),
                i <= n,
                self.session_handlers@.dom() == m0.dom(),
                forall|id: SessionID| m0.dom().contains(id) <==> ids.contains(id),
                forall|id: SessionID|
                    m0.dom().contains(id) ==> (#[trigger] self.session_handlers@[id]).wf(),
                forall|j: int|
                    0 <= j < i ==> (#[trigger] self.session_handlers@[ids[j]])@
                        == m0[ids[j]]@.with_multi_display(value),
                forall|j: int|
                    i <= j < n ==> (#[trigger] self.session_handlers@[ids[j]]) == m0[ids[j]],
            decreases n - i,
        {
            let ghost id = ids[i as int];
            proof {
                self.session_handlers.lemma_dom();
                assert(ids.contains(id));
                assert(self.session_handlers@[id] == m0[id]);
            }
            let h = self.session_handlers.value_at_mut(i);
            h.renderer.set_support_multi_ui_session(value);
            proof {
                assert forall|j: int| 0 <= j < n && j != i implies ids[j] != id by {}
            }
            i += 1;
        }
        proof {
            assert(self@.handlers =~= old(self)@.with_multi_display(value).handlers) by {
                assert forall|id: SessionID| m0.dom().contains(id) implies (
                #[trigger] self.session_handlers@[id])@ == m0[id]@.with_multi_display(value) by {
                    let j = ids.index_of(id);
                    assert(ids[j] == id);
                }
            }
        }
    }
}

/// Whether `x` occurs in `v`.
pub fn vec_contains(v: &Vec<usize>, x: usize) -> (b: bool)
    ensures
        b == v@.contains(x),
{
    let mut i: usize = 0;
    while i < v.len()
        invariant
            i <= v.len(),
            forall|j: int| 0 <= j < i ==> v@[j] != x,
        decreases v.len() - i,
    {
        if v[i] == x {
            return true;
        }
        i += 1;
    }
    false
}

/// The display indices as the transport takes them.
pub fn displays_as_i32(v: &Vec<usize>) -> (r: Vec<i32>)
    ensures
        r@ == v@.map_values(|d: usize| d as i32),
{
    let mut out: Vec<i32> = Vec::new();
    let mut i: usize = 0;
    while i < v.len()
        invariant
            i <= v.len(),
            out@ == v@.take(i as int).map_values(|d: usize| d as i32),
        decreases v.len() - i,
    {
        let d: usize = v[i];
        out.push(#[verifier::truncate] (d as i32));
        assert(out@ =~= v@.take(i + 1).map_values(|d: usize| d as i32));
        i += 1;
    }
    proof {
        crate::seq_util::lemma_take_all(v@);
    }
    out
}

/// The displays to capture from now on, once the attachment `session_id` no longer
/// counts: `current`, if there is one, and every display for which another attachment
/// has an entry. Nothing is returned where no display is left: then the capture stays
/// as it is.
pub fn check_remove_unused_displays(
    current: Option<usize>,
    session_id: &SessionID,
    handler: &FlutterHandler,
) -> (r: Option<Vec<i32>>)
    requires
        handler.wf(),
    ensures
        r is Some == (handler@.remaining_displays(current, *session_id).len() > 0),
        r is Some ==> r->0@ == handler@.remaining_displays(current, *session_id).map_values(
            |d: usize| d as i32,
        ),
{
    let remains = handler.remaining_displays(current, *session_id);
    if remains.len() > 0 {
        Some(displays_as_i32(&remains))
    } else {
        None
    }
}

impl FlutterHandler {
    /// The displays that are still in use once the attachment `except` is left out.
    pub fn remaining_displays(&self, current: Option<usize>, except: SessionID) -> (out: Vec<usize>)
        requires
            self.wf(),
        ensures
            out@ == self@.remaining_displays(current, except),
    {
        let mut out: Vec<usize> = Vec::new();
        if let Some(c) = current {
            out.push(c);
        }
        let ghost start = out@;
        let ghost v = self@;
        let n = self.session_handlers.len();
        let mut i: usize = 0;
        proof {
            self.session_handlers.lemma_dom();
            assert(start =~= match current {
                Some(c) => seq![c],
                None => Seq::empty(),
            });
            assert(v.ids.take(0) =~= Seq::<SessionID>::empty());
        }
        while i < n
            invariant
                self.wf(),
                v == self@,
                n == v.ids.len(),
                i <= n,
                out@ == v.viewed_displays(v.ids.take(i as int), except, start),
            decreases n - i,
        {
            proof {
                self.session_handlers.lemma_dom();
                assert(v.ids.take(i + 1).drop_last() =~= v.ids.take(i as int));
                assert(v.ids.take(i + 1).last() == v.ids[i as int]);
            }
            let id = *self.session_handlers.key_at(i);
            if id != except {
                let h = self.session_handlers.value_at(i);
                let ds = h.renderer.display_keys();
                let ghost acc = out@;
                let mut j: usize = 0;
                proof {
                    assert(ds@.take(0) =~= Seq::<usize>::empty());
                }
                while j < ds.len()
                    invariant
                        j <= ds.len(),
                        out@ == FlutterHandlerView::add_displays(acc, ds@.take(j as int)),
                    decreases ds.len() - j,
                {
                    proof {
                        assert(ds@.take(j + 1).drop_last() =~= ds@.take(j as int));
                        assert(ds@.take(j + 1).last() == ds@[j as int]);
                    }
                    if !vec_contains(&out, ds[j]) {
                        out.push(ds[j]);
                    }
                    j += 1;
                }
                proof {
                    crate::seq_util::lemma_take_all(ds@);
                }
            }
            i += 1;
        }
        proof {
            crate::seq_util::lemma_take_all(v.ids);
        }
        out
    }
}

impl FlutterHandler {
    /// What the peer has said of itself.
    pub fn peer_info(&self) -> (pi: &PeerInfo)
        ensures
            pi@ == self@.peer_info,
    {
        &self.peer_info
    }

    /// Notes what the peer has said of itself.
    pub fn store_peer_info(&mut self, pi: PeerInfo)
        ensures
            final(self)@ == (FlutterHandlerView { peer_info: pi@, ..old(self)@ }),
            final(self).wf() == old(self).wf(),
    {
        self.peer_info = pi;
    }

    /// Notes the displays that the peer has now.
    pub fn store_displays(&mut self, displays: Vec<crate::peer::DisplayInfo>)
        ensures
            final(self)@ == (FlutterHandlerView {
                peer_info: PeerInfoView { displays: displays@, ..old(self)@.peer_info },
                ..old(self)@
            }),
            final(self).wf() == old(self).wf(),
    {
        self.peer_info.displays = displays;
    }
}

impl FlutterHandler {
    /// Adds a hook under the name `key`, unless the name is taken; says whether it was
    /// added.
    pub fn add_session_hook(&mut self, key: String, hook: SessionHook) -> (added: bool)
        requires
            old(self).wf(),
        ensures
            final(self).wf(),
            added == !old(self)@.hooks.contains(key@),
            final(self)@ == (FlutterHandlerView {
                hooks: if added {
                    old(self)@.hooks.push(key@)
                } else {
                    old(self)@.hooks
                },
                hook_kinds: if added {
                    old(self)@.hook_kinds.insert(key@, hook)
                } else {
                    old(self)@.hook_kinds
                },
                ..old(self)@
            }),
    {
        proof {
            self.hooks.lemma_dom();
        }
        if self.hooks.contains_key(&key) {
            return false;
        }
        let _ = self.hooks.insert(key, hook);
        true
    }

    /// Takes the hook of the name `key` away; says whether there was one.
    pub fn remove_session_hook(&mut self, key: &String) -> (removed: bool)
        requires
            old(self).wf(),
        ensures
            final(self).wf(),
            removed == old(self)@.hooks.contains(key@),
            final(self)@ == (FlutterHandlerView {
                hooks: old(self)@.hooks.remove_value(key@),
                hook_kinds: old(self)@.hook_kinds.remove(key@),
                ..old(self)@
            }),
    {
        proof {
            self.hooks.lemma_dom();
        }
        if !self.hooks.contains_key(key) {
            proof {
                old(self)@.hooks.index_of_first_ensures(key@);
                assert(self@.hook_kinds =~= old(self)@.hook_kinds.remove(key@));
            }
            return false;
        }
        let _ = self.hooks.remove(key);
        true
    }

    /// The names of the hooks, in the order in which they were added. With owned
    /// buffers the caller hands each frame to each of them before it hands it to
    /// [`Self::on_rgba`].
    pub fn session_hook_keys(&self) -> (keys: Vec<String>)
        ensures
            keys@.map_values(|k: String| k@) == self@.hooks,
    {
        let stored = self.hooks.keys_vec();
        let mut out: Vec<String> = Vec::new();
        let mut i: usize = 0;
        while i < stored.len()
            invariant
                i <= stored.len(),
                out@.map_values(|k: String| k@) == stored@.map_values(|k: String| k@).take(
                    i as int,
                ),
            decreases stored.len() - i,
        {
            let ghost before = out@;
            let k = stored[i].clone();
            out.push(k);
            assert(out@.map_values(|k: String| k@) =~= before.map_values(|k: String| k@).push(k@));
            assert(out@.map_values(|k: String| k@) =~= stored@.map_values(|k: String| k@).take(
                i + 1,
            ));
            i += 1;
        }
        proof {
            crate::seq_util::lemma_take_all(stored@.map_values(|k: String| k@));
        }
        out
    }
}

impl FlutterHandler {
    /// What the hook of the name `key` is called for, if there is such a hook.
    pub fn session_hook(&self, key: &String) -> (r: Option<SessionHook>)
        requires
            self.wf(),
        ensures
            r is Some == self@.hook_kinds.dom().contains(key@),
            r is Some ==> r->0 == self@.hook_kinds[key@],
    {
        match self.hooks.get(key) {
            Some(hook) => Some(*hook),
            None => None,
        }
    }
}

} // verus!
