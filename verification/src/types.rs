use vstd::prelude::*;

verus! {

/// Identifies one UI attachment. It is unique per attachment, not per connection.
pub type SessionID = u128;

/// A handle of an event sink. The library never sends: it names the sink to which
/// the caller delivers.
pub type SinkId = u64;

/// The kind of a peer connection.
#[allow(non_camel_case_types)]
#[derive(Clone, Copy, Debug, PartialEq, Eq, Structural)]
pub enum ConnType {
    DEFAULT_CONN,
    FILE_TRANSFER,
    PORT_FORWARD,
    RDP,
}

/// What a sink carries to its UI attachment.
#[derive(Debug, PartialEq, Eq)]
pub enum EventToUI {
    /// A named event, as the text of one flat record.
    Event(String),
    /// A frame is ready for the display of this index.
    Rgba(usize),
}

/// The mathematical value of an [`EventToUI`].
pub enum EventView {
    Event(Seq<char>),
    Rgba(usize),
}

impl View for EventToUI {
    type V = EventView;

    open spec fn view(&self) -> EventView {
        match self {
            EventToUI::Event(text) => EventView::Event(text@),
            EventToUI::Rgba(display) => EventView::Rgba(*display),
        }
    }
}

/// One message that the caller has to hand to one sink.
#[derive(Debug, PartialEq, Eq)]
pub struct Delivery {
    pub sink: SinkId,
    pub event: EventToUI,
}

/// The mathematical value of a [`Delivery`].
pub struct DeliveryView {
    pub sink: SinkId,
    pub event: EventView,
}

impl View for Delivery {
    type V = DeliveryView;

    open spec fn view(&self) -> DeliveryView {
        DeliveryView { sink: self.sink, event: self.event@ }
    }
}

/// The views of a sequence of deliveries.
pub open spec fn deliveries_view(s: Seq<Delivery>) -> Seq<DeliveryView> {
    s.map_values(|d: Delivery| d@)
}

/// The terminal notice that a sink receives before it is replaced.
pub open spec fn close_event() -> EventView {
    EventView::Event("close"@)
}

} // verus!
