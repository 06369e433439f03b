use vstd::prelude::*;
use crate::ordered_map::OrderedMap;

verus! {

/// What one UI attachment has registered for one display: its native render target
/// and the size negotiated last.
#[derive(Clone, Copy, Debug, PartialEq, Eq)]
pub struct DisplaySessionInfo {
    /// The handle of the render target; 0 while none is registered.
    pub texture_rgba_ptr: usize,
    /// Width and height.
    pub size: (usize, usize),
}

/// The shape of a decoded frame, as far as delivery reads it.
#[derive(Clone, Copy, Debug, PartialEq, Eq, Structural)]
pub struct FrameShape {
    /// Length of the pixel data in bytes.
    pub len: usize,
    pub w: usize,
    pub h: usize,
    /// Bytes per row.
    pub stride: usize,
}

/// One write into a native render target, for the caller to perform.
#[derive(Clone, Copy, Debug, PartialEq, Eq, Structural)]
pub struct TextureWrite {
    pub texture_rgba_ptr: usize,
    pub frame: FrameShape,
}

/// What became of one frame at one attachment's renderer.
#[derive(Clone, Copy, Debug, PartialEq, Eq)]
pub enum FrameOutcome {
    /// No target stands for the display, or its handle is 0.
    NoTarget,
    /// The registered size differs from the frame's.
    SizeMismatch { registered: (usize, usize), frame: (usize, usize) },
    /// The write callback was never resolved: the frame is dropped.
    NoCallback,
    /// The frame goes to the target.
    Write(TextureWrite),
}

/// The mathematical value of a [`VideoRenderer`].
pub struct RendererView {
    /// Whether the peer addresses displays one by one.
    pub multi_display: bool,
    /// Whether the write callback was resolved when the renderer was made.
    pub has_callback: bool,
    /// The displays that have an entry, in the order in which they got one.
    pub displays: Seq<usize>,
    /// The entry of each of them.
    pub infos: Map<usize, DisplaySessionInfo>,
}

impl RendererView {
    /// No display occurs twice, and the entries are those of the displays.
    pub open spec fn wf(self) -> bool {
        &&& self.displays.no_duplicates()
        &&& forall|d: usize| self.infos.dom().contains(d) <==> self.displays.contains(d)
    }

    /// The renderer without targets.
    pub open spec fn empty(has_callback: bool) -> RendererView {
        RendererView {
            multi_display: false,
            has_callback,
            displays: Seq::empty(),
            infos: Map::empty(),
        }
    }

    /// The entry to which a frame for `display` is routed: the display's own where the
    /// peer addresses displays one by one, else the entry that was made first.
    pub open spec fn target(self, display: usize) -> Option<DisplaySessionInfo> {
        if !self.multi_display {
            if self.displays.len() > 0 {
                Some(self.infos[self.displays[0]])
            } else {
                None
            }
        } else if self.infos.dom().contains(display) {
            Some(self.infos[display])
        } else {
            None
        }
    }

    /// What becomes of a frame of shape `frame` for `display`.
    pub open spec fn outcome(self, display: usize, frame: FrameShape) -> FrameOutcome {
        match self.target(display) {
            None => FrameOutcome::NoTarget,
            Some(info) => if info.texture_rgba_ptr == 0 {
                FrameOutcome::NoTarget
            } else if info.size.0 != frame.w || info.size.1 != frame.h {
                FrameOutcome::SizeMismatch { registered: info.size, frame: (frame.w, frame.h) }
            } else if !self.has_callback {
                FrameOutcome::NoCallback
            } else {
                FrameOutcome::Write(TextureWrite { texture_rgba_ptr: info.texture_rgba_ptr, frame })
            },
        }
    }

    /// The displays after `display` got an entry, if it had none.
    pub open spec fn displays_with(self, display: usize) -> Seq<usize> {
        if self.infos.dom().contains(display) {
            self.displays
        } else {
            self.displays.push(display)
        }
    }

    /// The renderer after the size of `display` was set: a display without an entry
    /// gets one with target 0.
    pub open spec fn set_size(self, display: usize, width: usize, height: usize) -> RendererView {
        RendererView {
            displays: self.displays_with(display),
            infos: self.infos.insert(
                display,
                DisplaySessionInfo {
                    texture_rgba_ptr: if self.infos.dom().contains(display) {
                        self.infos[display].texture_rgba_ptr
                    } else {
                        0
                    },
                    size: (width, height),
                },
            ),
            ..self
        }
    }

    /// The renderer after `ptr` was registered for `display`: 0 takes the entry away,
    /// another handle is recorded, with size (0, 0) where the display had no entry.
    pub open spec fn register_texture(self, display: usize, ptr: usize) -> RendererView {
        if ptr == 0 {
            RendererView {
                displays: self.displays.remove_value(display),
                infos: self.infos.remove(display),
                ..self
            }
        } else {
            RendererView {
                displays: self.displays_with(display),
                infos: self.infos.insert(
                    display,
                    DisplaySessionInfo {
                        texture_rgba_ptr: ptr,
                        size: if self.infos.dom().contains(display) {
                            self.infos[display].size
                        } else {
                            (0, 0)
                        },
                    },
                ),
                ..self
            }
        }
    }

    /// Whether registering `ptr` for `display` replaces another target that is not 0.
    pub open spec fn registers_over(self, display: usize, ptr: usize) -> bool {
        ptr != 0 && self.infos.dom().contains(display) && self.infos[display].texture_rgba_ptr != 0
            && self.infos[display].texture_rgba_ptr != ptr
    }
}

/// The render targets of one UI attachment, by display index.
pub struct VideoRenderer {
    is_support_multi_ui_session: bool,
    map_display_sessions: OrderedMap<usize, DisplaySessionInfo>,
    on_rgba_func: bool,
}

impl View for VideoRenderer {
    type V = RendererView;

    closed spec fn view(&self) -> RendererView {
        RendererView {
            multi_display: self.is_support_multi_ui_session,
            has_callback: self.on_rgba_func,
            displays: self.map_display_sessions.keys(),
            infos: self.map_display_sessions@,
        }
    }
}

impl VideoRenderer {
    /// What holds of every renderer that was made by [`Self::new`] and changed by its
    /// methods: no display occurs twice.
    pub closed spec fn wf(&self) -> bool {
        self.map_display_sessions.wf()
    }

    /// A well-formed renderer has a well-formed view.
    pub proof fn lemma_view_wf(&self)
        requires
            self.wf(),
        ensures
            self@.wf(),
    {
        self.map_display_sessions.lemma_dom();
        self.map_display_sessions.lemma_keys();
    }

    /// A renderer without targets. `on_rgba_func` says whether the write callback could
    /// be resolved.
    pub fn new(on_rgba_func: bool) -> (r: Self)
        ensures
            r.wf(),
            r@ == RendererView::empty(on_rgba_func),
    {
        VideoRenderer {
            map_display_sessions: OrderedMap::new(),
            is_support_multi_ui_session: false,
            on_rgba_func,
        }
    }

    /// Says whether the peer addresses displays one by one.
    pub fn set_support_multi_ui_session(&mut self, value: bool)
        ensures
            final(self)@ == (RendererView { multi_display: value, ..old(self)@ }),
            final(self).wf() == old(self).wf(),
    {
        self.is_support_multi_ui_session = value;
    }

    /// Records the size of `display`, with target 0 where the display had no entry.
    pub fn set_size(&mut self, display: usize, width: usize, height: usize)
        requires
            old(self).wf(),
        ensures
            final(self).wf(),
            final(self)@ == old(self)@.set_size(display, width, height),
    {
        proof {
            self.map_display_sessions.lemma_dom();
        }
        match self.map_display_sessions.position(&display) {
            Some(i) => {
                let info = self.map_display_sessions.value_at_mut(i);
                info.size = (width, height);
            },
            None => {
                self.map_display_sessions.insert(
                    display,
                    DisplaySessionInfo { texture_rgba_ptr: 0, size: (width, height) },
                );
            },
        }
    }

    /// Registers `ptr` as the target of `display`; 0 takes the display's entry away.
    /// Returns whether another target, not 0, stood there: a violation of the protocol
    /// that the caller reports, while the new target still takes its place.
    pub fn register_texture(&mut self, display: usize, ptr: usize) -> (violation: bool)
        requires
            old(self).wf(),
        ensures
            final(self).wf(),
            final(self)@ == old(self)@.register_texture(display, ptr),
            violation == old(self)@.registers_over(display, ptr),
    {
        proof {
            self.map_display_sessions.lemma_dom();
        }
        if ptr == 0 {
            self.map_display_sessions.remove(&display);
            false
        } else {
            match self.map_display_sessions.position(&display) {
                Some(i) => {
                    let info = self.map_display_sessions.value_at_mut(i);
                    let violation = info.texture_rgba_ptr != 0 && info.texture_rgba_ptr != ptr;
                    info.texture_rgba_ptr = ptr;
                    violation
                },
                None => {
                    self.map_display_sessions.insert(
                        display,
                        DisplaySessionInfo { texture_rgba_ptr: ptr, size: (0, 0) },
                    );
                    false
                },
            }
        }
    }

    /// Decides what becomes of a frame for `display`. The write, where there is one, is
    /// the caller's to perform.
    pub fn on_rgba(&self, display: usize, frame: FrameShape) -> (r: FrameOutcome)
        requires
            self.wf(),
        ensures
            r == self@.outcome(display, frame),
    {
        proof {
            self.map_display_sessions.lemma_dom();
        }
        let opt_info = if !self.is_support_multi_ui_session {
            if self.map_display_sessions.len() > 0 {
                Some(self.map_display_sessions.value_at(0))
            } else {
                None
            }
        } else {
            self.map_display_sessions.get(&display)
        };
        let info = match opt_info {
            Some(info) => info,
            None => {
                return FrameOutcome::NoTarget;
            },
        };
        if info.texture_rgba_ptr == 0 {
            return FrameOutcome::NoTarget;
        }
        if info.size.0 != frame.w || info.size.1 != frame.h {
            return FrameOutcome::SizeMismatch { registered: info.size, frame: (frame.w, frame.h) };
        }
        if self.on_rgba_func {
            FrameOutcome::Write(TextureWrite { texture_rgba_ptr: info.texture_rgba_ptr, frame })
        } else {
            FrameOutcome::NoCallback
        }
    }

    /// The displays that have an entry, in the order in which they got one.
    pub fn display_keys(&self) -> (r: Vec<usize>)
        ensures
            r@ == self@.displays,
    {
        let mut out: Vec<usize> = Vec::new();
        let mut i: usize = 0;
        while i < self.map_display_sessions.len()
            invariant
                i <= self.map_display_sessions.keys().len(),
                out@ == self.map_display_sessions.keys().subrange(0, i as int),
            decreases self.map_display_sessions.keys().len() - i,
        {
            out.push(*self.map_display_sessions.key_at(i));
            assert(out@ =~= self.map_display_sessions.keys().subrange(0, i + 1));
            i += 1;
        }
        assert(self.map_display_sessions.keys().subrange(0, i as int)
            =~= self.map_display_sessions.keys());
        out
    }
}

/// A frame is written only to a target that is registered with the frame's own size:
/// where the sizes differ, or no handle but 0 is registered, there is no write.
pub proof fn lemma_write_needs_matching_size(r: RendererView, display: usize, frame: FrameShape)
    ensures
        r.outcome(display, frame) is Write ==> {
            &&& r.target(display) is Some
            &&& r.target(display)->0.texture_rgba_ptr != 0
            &&& r.target(display)->0.size == (frame.w, frame.h)
            &&& r.has_callback
            &&& r.outcome(display, frame)->Write_0 == (TextureWrite {
                texture_rgba_ptr: r.target(display)->0.texture_rgba_ptr,
                frame,
            })
        },
        r.target(display) is Some && r.target(display)->0.size != (frame.w, frame.h)
            ==> !(r.outcome(display, frame) is Write),
{
}

/// After a handle that is not 0 was registered for a display and the display's size was
/// set, a frame of that size for that display is written to that handle, where the peer
/// addresses displays one by one and the callback was resolved; a frame of another size
/// is reported as a mismatch and not written.
pub proof fn lemma_registered_and_sized_is_written(
    r: RendererView,
    display: usize,
    ptr: usize,
    width: usize,
    height: usize,
    frame: FrameShape,
)
    requires
        r.wf(),
        r.multi_display,
        r.has_callback,
        ptr != 0,
    ensures
        frame.w == width && frame.h == height ==> r.register_texture(display, ptr).set_size(
            display,
            width,
            height,
        ).outcome(display, frame) == FrameOutcome::Write(
            TextureWrite { texture_rgba_ptr: ptr, frame },
        ),
        frame.w != width || frame.h != height ==> r.register_texture(display, ptr).set_size(
            display,
            width,
            height,
        ).outcome(display, frame) == (FrameOutcome::SizeMismatch {
            registered: (width, height),
            frame: (frame.w, frame.h),
        }),
        frame.w == width && frame.h == height ==> r.set_size(display, width, height).register_texture(
            display,
            ptr,
        ).outcome(display, frame) == FrameOutcome::Write(
            TextureWrite { texture_rgba_ptr: ptr, frame },
        ),
{
}

/// Setting a size and registering a target leave a well-formed renderer well-formed.
pub proof fn lemma_transitions_keep_wf(
    r: RendererView,
    display: usize,
    ptr: usize,
    width: usize,
    height: usize,
)
    requires
        r.wf(),
    ensures
        r.set_size(display, width, height).wf(),
        r.register_texture(display, ptr).wf(),
{
    let with = r.displays_with(display);
    if !r.infos.dom().contains(display) {
        assert(with.last() == display);
        assert forall|d: usize| with.contains(d) <==> (r.displays.contains(d) || d == display) by {
            if r.displays.contains(d) {
                let j = r.displays.index_of(d);
                assert(with[j] == d);
            }
        }
    }
    r.displays.index_of_first_ensures(display);
    if ptr == 0 && r.displays.contains(display) {
        let i = r.displays.index_of_first(display)->0;
        let without = r.displays.remove(i);
        assert forall|d: usize| without.contains(d) <==> (r.displays.contains(d) && d != display) by {
            if without.contains(d) {
                let j = without.index_of(d);
                let jj = if j < i { j } else { j + 1 };
                assert(r.displays[jj] == d);
            }
            if r.displays.contains(d) && d != display {
                let j = r.displays.index_of(d);
                let jj = if j < i { j } else { j - 1 };
                assert(without[jj] == d);
            }
        }
        assert(without.no_duplicates());
    }
}

} // verus!
