use vstd::prelude::*;
use vstd::string::StrSliceExecFns;
use crate::events::{event_text, make_event, pairs_view};
use crate::ordered_map::OrderedMap;
use crate::text::{join, joined};
use crate::types::{Delivery, DeliveryView, EventToUI, EventView, SinkId};

verus! {

/// The channel of the main page, and of the one event stream of a mobile app.
pub const APP_TYPE_MAIN: &'static str = "main";

/// The channel of the connection manager's page on a desktop.
pub const APP_TYPE_DESKTOP_CM: &'static str = "cm";

/// The text before the first comma of `s`; all of `s` where it has no comma.
pub open spec fn before_comma(s: Seq<char>) -> Seq<char> {
    match s.index_of_first(',') {
        Some(i) => s.take(i),
        None => s,
    }
}

/// The text before the first comma of `s`.
pub fn first_app_type(s: &str) -> (r: String)
    ensures
        r@ == before_comma(s@),
{
    let n = s.unicode_len();
    let mut i: usize = 0;
    proof {
        s@.index_of_first_ensures(',');
    }
    while i < n
        invariant
            n == s@.len(),
            i <= n,
            forall|j: int| 0 <= j < i ==> s@[j] != ',',
        decreases n - i,
    {
        if s.get_char(i) == ',' {
            proof {
                s@.index_of_first_ensures(',');
                let k = s@.index_of_first(',');
                assert(k is Some);
                assert(k->0 == i) by {
                    if k->0 < i {
                        assert(s@[k->0] != ',');
                    }
                }
                assert(s@.subrange(0, i as int) =~= s@.take(i as int));
            }
            return s.substring_char(0, i).to_owned();
        }
        i += 1;
    }
    proof {
        s@.index_of_first_ensures(',');
        if s@.index_of_first(',') is Some {
            let k = s@.index_of_first(',')->0;
            assert(s@[k] == ',');
        }
    }
    s.to_owned()
}

/// The mathematical value of a [`GlobalEventStreams`] registry.
pub struct GlobalView {
    /// Whether the app is a mobile one, which has one event stream for all its pages.
    pub mobile: bool,
    /// The channels, in the order in which they were started.
    pub channels: Seq<Seq<char>>,
    /// The sink of each channel.
    pub sinks: Map<Seq<char>, SinkId>,
}

impl GlobalView {
    /// The registry without channels.
    pub open spec fn empty(mobile: bool) -> GlobalView {
        GlobalView { mobile, channels: Seq::empty(), sinks: Map::empty() }
    }

    /// No channel occurs twice, and each has its sink.
    pub open spec fn wf(self) -> bool {
        &&& self.channels.no_duplicates()
        &&& forall|c: Seq<char>| self.sinks.dom().contains(c) <==> self.channels.contains(c)
    }

    /// The registry with the sink `sink` under the channel `channel`.
    pub open spec fn with_channel(self, channel: Seq<char>, sink: SinkId) -> GlobalView {
        GlobalView {
            channels: if self.sinks.dom().contains(channel) {
                self.channels
            } else {
                self.channels.push(channel)
            },
            sinks: self.sinks.insert(channel, sink),
            ..self
        }
    }

    /// The channel under which a stream of the type `app_type` goes: the part before
    /// the first comma, or, where a channel of that name is started already, all of
    /// `app_type`.
    pub open spec fn channel_for(self, app_type: Seq<char>) -> Seq<char> {
        if self.sinks.dom().contains(before_comma(app_type)) {
            app_type
        } else {
            before_comma(app_type)
        }
    }

    /// The registry after a stream of the type `app_type` was started with `sink`.
    pub open spec fn start(self, sink: SinkId, app_type: Seq<char>) -> GlobalView {
        self.with_channel(self.channel_for(app_type), sink)
    }

    /// The sink that the start of a stream of the type `app_type` replaces.
    pub open spec fn replaced_by_start(self, app_type: Seq<char>) -> Option<SinkId> {
        if self.sinks.dom().contains(before_comma(app_type)) && self.sinks.dom().contains(
            app_type,
        ) {
            Some(self.sinks[app_type])
        } else {
            None
        }
    }

    /// The registry after the channel `app_type` was stopped.
    pub open spec fn stop(self, app_type: Seq<char>) -> GlobalView {
        GlobalView {
            channels: self.channels.remove_value(app_type),
            sinks: self.sinks.remove(app_type),
            ..self
        }
    }

    /// The delivery of `event` on the channel `channel`, if that channel is started.
    pub open spec fn push(self, channel: Seq<char>, event: Seq<char>) -> Option<DeliveryView> {
        if self.sinks.dom().contains(channel) {
            Some(DeliveryView { sink: self.sinks[channel], event: EventView::Event(event) })
        } else {
            None
        }
    }

    /// The channel of the connection manager: its own on a desktop, the main one in a
    /// mobile app.
    pub open spec fn cm_channel(self) -> Seq<char> {
        if self.mobile {
            APP_TYPE_MAIN@
        } else {
            APP_TYPE_DESKTOP_CM@
        }
    }
}

/// The named broadcast channels of the process, each with its sink. They live
/// apart from any connection.
pub struct GlobalEventStreams {
    map: OrderedMap<String, SinkId>,
    mobile: bool,
}

impl View for GlobalEventStreams {
    type V = GlobalView;

    closed spec fn view(&self) -> GlobalView {
        GlobalView { mobile: self.mobile, channels: self.map.keys(), sinks: self.map@ }
    }
}

impl GlobalEventStreams {
    /// What holds of every registry that was made by [`Self::new`] and changed by the
    /// functions of this module: no channel occurs twice.
    pub closed spec fn wf(&self) -> bool {
        self.map.wf()
    }

    /// A well-formed registry has a well-formed view.
    pub proof fn lemma_view_wf(&self)
        requires
            self.wf(),
        ensures
            self@.wf(),
    {
        self.map.lemma_dom();
        self.map.lemma_keys();
    }

    /// A registry without channels. `mobile` says whether the app is a mobile one.
    pub fn new(mobile: bool) -> (r: Self)
        ensures
            r.wf(),
            r@ == GlobalView::empty(mobile),
    {
        GlobalEventStreams { map: OrderedMap::new(), mobile }
    }

    /// The channel of the connection manager.
    pub fn app_type_cm(&self) -> (r: &'static str)
        ensures
            r@ == self@.cm_channel(),
    {
        if self.mobile {
            APP_TYPE_MAIN
        } else {
            APP_TYPE_DESKTOP_CM
        }
    }
}

/// The view of a delivery that may be absent.
pub open spec fn opt_delivery_view(d: Option<Delivery>) -> Option<DeliveryView> {
    match d {
        Some(d) => Some(d@),
        None => None,
    }
}

/// Delivers `event` on the channel `channel`: the delivery for the caller to send, or
/// nothing where no such channel is started.
pub fn push_global_event(streams: &GlobalEventStreams, channel: &str, event: String) -> (r:
    Option<Delivery>)
    requires
        streams.wf(),
    ensures
        opt_delivery_view(r) == streams@.push(channel@, event@),
{
    let key = channel.to_owned();
    match streams.map.get(&key) {
        Some(sink) => Some(Delivery { sink: *sink, event: EventToUI::Event(event) }),
        None => None,
    }
}

/// The channels that are started, in the order in which they were.
pub fn get_global_event_channels(streams: &GlobalEventStreams) -> (r: Vec<String>)
    ensures
        r@.map_values(|c: String| c@) == streams@.channels,
{
    let keys = streams.map.keys_vec();
    let mut out: Vec<String> = Vec::new();
    let mut i: usize = 0;
    while i < keys.len()
        invariant
            i <= keys.len(),
            out@.map_values(|c: String| c@) == keys@.map_values(|c: String| c@).take(i as int),
        decreases keys.len() - i,
    {
        let ghost before = out@;
        let c = keys[i].clone();
        out.push(c);
        assert(out@.map_values(|c: String| c@) =~= before.map_values(|c: String| c@).push(c@));
        assert(out@.map_values(|c: String| c@) =~= keys@.map_values(|c: String| c@).take(i + 1));
        i += 1;
    }
    proof {
        crate::seq_util::lemma_take_all(keys@.map_values(|c: String| c@));
    }
    out
}

/// Starts a stream of the type `app_type` with the sink `s`: under the part of
/// `app_type` before the first comma, or, where a channel of that name is started
/// already, under all of `app_type`. Returns the sink that was thereby replaced, which
/// the caller reports and gives up.
pub fn start_global_event_stream(streams: &mut GlobalEventStreams, s: SinkId, app_type: String) -> (r:
    Option<SinkId>)
    requires
        old(streams).wf(),
    ensures
        final(streams).wf(),
        final(streams)@ == old(streams)@.start(s, app_type@),
        r == old(streams)@.replaced_by_start(app_type@),
{
    proof {
        streams.map.lemma_dom();
    }
    let first = first_app_type(app_type.as_str());
    if !streams.map.contains_key(&first) {
        streams.map.insert(first, s);
        None
    } else {
        streams.map.insert(app_type, s)
    }
}

/// Stops the channel `app_type`, and returns its sink for the caller to give up.
pub fn stop_global_event_stream(streams: &mut GlobalEventStreams, app_type: String) -> (r: Option<
    SinkId,
>)
    requires
        old(streams).wf(),
    ensures
        final(streams).wf(),
        final(streams)@ == old(streams)@.stop(app_type@),
        r == if old(streams)@.sinks.dom().contains(app_type@) {
            Some(old(streams)@.sinks[app_type@])
        } else {
            None
        },
{
    proof {
        streams.map.lemma_dom();
    }
    streams.map.remove(&app_type)
}

/// Pushes the event `name` with the fields `event` on the channel of the connection
/// manager: the delivery for the caller to send, or nothing where that channel is not
/// started.
pub fn cm_push_event(streams: &GlobalEventStreams, name: &str, event: Vec<(&str, &str)>) -> (r:
    Option<Delivery>)
    requires
        streams.wf(),
    ensures
        opt_delivery_view(r) == streams@.push(
            streams@.cm_channel(),
            event_text(name@, pairs_view(event@)),
        ),
{
    let text = make_event(name, &event);
    push_global_event(streams, streams.app_type_cm(), text)
}

/// Reports on the main channel which of the peers asked about are online and which are
/// not, each list joined by commas: the delivery for the caller to send.
pub fn handle_query_onlines(
    streams: &GlobalEventStreams,
    onlines: Vec<String>,
    offlines: Vec<String>,
) -> (r: Option<Delivery>)
    requires
        streams.wf(),
    ensures
        opt_delivery_view(r) == streams@.push(
            APP_TYPE_MAIN@,
            event_text(
                "callback_query_onlines"@,
                seq![
                    ("onlines"@, joined(onlines@.map_values(|p: String| p@), ","@)),
                    ("offlines"@, joined(offlines@.map_values(|p: String| p@), ","@)),
                ],
            ),
        ),
{
    let on = join(&onlines, ",");
    let off = join(&offlines, ",");
    let mut fields: Vec<(&str, &str)> = Vec::new();
    fields.push(("onlines", on.as_str()));
    fields.push(("offlines", off.as_str()));
    assert(pairs_view(fields@) =~= seq![
        ("onlines"@, joined(onlines@.map_values(|p: String| p@), ","@)),
        ("offlines"@, joined(offlines@.map_values(|p: String| p@), ","@)),
    ]);
    let text = make_event("callback_query_onlines", &fields);
    push_global_event(streams, APP_TYPE_MAIN, text)
}

} // verus!
