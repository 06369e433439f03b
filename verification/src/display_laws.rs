use vstd::prelude::*;
use crate::handler::FlutterHandlerView;
use crate::seq_util::{lemma_push_no_duplicates, lemma_remove_value_no_duplicates};
use crate::types::SessionID;

verus! {

impl FlutterHandlerView {
    /// Whether an attachment other than `except` has an entry for `display`.
    pub open spec fn viewed_by_other(self, display: usize, except: SessionID) -> bool {
        exists|i: int|
            0 <= i < self.ids.len() && #[trigger] self.ids[i] != except
                && self.handlers[self.ids[i]].renderer.displays.contains(display)
    }
}

/// Adding displays adds exactly those that were missing, each once.
pub proof fn lemma_add_displays(acc: Seq<usize>, ds: Seq<usize>)
    requires
        acc.no_duplicates(),
    ensures
        FlutterHandlerView::add_displays(acc, ds).no_duplicates(),
        forall|d: usize| #[trigger]
            FlutterHandlerView::add_displays(acc, ds).contains(d) <==> (acc.contains(d)
                || ds.contains(d)),
    decreases ds.len(),
{
    if ds.len() > 0 {
        let rest = ds.drop_last();
        lemma_add_displays(acc, rest);
        let a = FlutterHandlerView::add_displays(acc, rest);
        let r = FlutterHandlerView::add_displays(acc, ds);
        if !a.contains(ds.last()) {
            lemma_push_no_duplicates(a, ds.last());
        }
        assert forall|d: usize| #[trigger] r.contains(d) <==> (acc.contains(d) || ds.contains(d)) by {
            assert(a.contains(d) <==> (acc.contains(d) || rest.contains(d)));
            if !a.contains(ds.last()) {
                assert(a.push(ds.last()).contains(d) <==> (a.contains(d) || d == ds.last()));
            }
            if rest.contains(d) {
                let j = rest.index_of(d);
                assert(ds[j] == d);
            }
            if ds.contains(d) && d != ds.last() {
                let j = ds.index_of(d);
                assert(rest[j] == d);
            }
            assert(ds[ds.len() - 1] == ds.last());
        }
    } else {
        assert forall|d: usize| !ds.contains(d) by {}
    }
}

/// The displays gathered from the attachments `ids` but `except` are those of `start`
/// and those for which one of these attachments has an entry, each once.
pub proof fn lemma_viewed_displays(
    v: FlutterHandlerView,
    ids: Seq<SessionID>,
    except: SessionID,
    start: Seq<usize>,
)
    requires
        start.no_duplicates(),
    ensures
        v.viewed_displays(ids, except, start).no_duplicates(),
        forall|d: usize| #[trigger]
            v.viewed_displays(ids, except, start).contains(d) <==> (start.contains(d) || exists|
                i: int,
            |
                0 <= i < ids.len() && #[trigger] ids[i] != except
                    && v.handlers[ids[i]].renderer.displays.contains(d)),
    decreases ids.len(),
{
    if ids.len() > 0 {
        let rest = ids.drop_last();
        let last = ids.last();
        lemma_viewed_displays(v, rest, except, start);
        let a = v.viewed_displays(rest, except, start);
        let r = v.viewed_displays(ids, except, start);
        if last != except {
            lemma_add_displays(a, v.handlers[last].renderer.displays);
        }
        assert forall|d: usize| #[trigger] r.contains(d) <==> (start.contains(d) || exists|i: int|
            0 <= i < ids.len() && #[trigger] ids[i] != except
                && v.handlers[ids[i]].renderer.displays.contains(d)) by {
            let in_rest = exists|i: int|
                0 <= i < rest.len() && #[trigger] rest[i] != except
                    && v.handlers[rest[i]].renderer.displays.contains(d);
            let in_ids = exists|i: int|
                0 <= i < ids.len() && #[trigger] ids[i] != except
                    && v.handlers[ids[i]].renderer.displays.contains(d);
            assert(a.contains(d) <==> (start.contains(d) || in_rest));
            let in_last = last != except && v.handlers[last].renderer.displays.contains(d);
            assert(r.contains(d) <==> (a.contains(d) || in_last));
            if in_rest {
                let i = choose|i: int|
                    0 <= i < rest.len() && #[trigger] rest[i] != except
                        && v.handlers[rest[i]].renderer.displays.contains(d);
                assert(ids[i] == rest[i]);
            }
            if in_last {
                assert(ids[ids.len() - 1] == last);
            }
            if in_ids {
                let i = choose|i: int|
                    0 <= i < ids.len() && #[trigger] ids[i] != except
                        && v.handlers[ids[i]].renderer.displays.contains(d);
                if i < rest.len() {
                    assert(rest[i] == ids[i]);
                } else {
                    assert(ids[i] == last);
                }
            }
        }
    }
}

/// The displays that are still in use, once an attachment is left out, are exactly the
/// current one, if there is one, and those for which another attachment has an entry;
/// none occurs twice.
pub proof fn lemma_remaining_displays(
    v: FlutterHandlerView,
    current: Option<usize>,
    except: SessionID,
)
    ensures
        v.remaining_displays(current, except).no_duplicates(),
        forall|d: usize| #[trigger]
            v.remaining_displays(current, except).contains(d) <==> (current == Some(d)
                || v.viewed_by_other(d, except)),
{
    let start: Seq<usize> = match current {
        Some(c) => seq![c],
        None => Seq::empty(),
    };
    lemma_viewed_displays(v, v.ids, except, start);
    assert forall|d: usize| start.contains(d) <==> current == Some(d) by {
        if current is Some {
            assert(start[0] == current->0);
        }
    }
}

/// After an attachment was detached, the displays to capture are exactly those for
/// which one of the other attachments has an entry: a display that only the detached
/// attachment used is not among them.
pub proof fn lemma_capture_after_detach(v: FlutterHandlerView, id: SessionID)
    requires
        v.wf(),
    ensures
        v.remove_handler(id).remaining_displays(None, id).no_duplicates(),
        forall|d: usize| #[trigger]
            v.remove_handler(id).remaining_displays(None, id).contains(d) <==> v.viewed_by_other(
                d,
                id,
            ),
{
    let r = v.remove_handler(id);
    lemma_remaining_displays(r, None, id);
    lemma_remove_value_no_duplicates(v.ids, id);
    assert forall|d: usize| r.viewed_by_other(d, id) <==> v.viewed_by_other(d, id) by {
        if r.viewed_by_other(d, id) {
            let i = choose|i: int|
                0 <= i < r.ids.len() && #[trigger] r.ids[i] != id
                    && r.handlers[r.ids[i]].renderer.displays.contains(d);
            let x = r.ids[i];
            assert(r.ids.contains(x));
            assert(v.ids.contains(x));
            let j = v.ids.index_of(x);
            assert(v.ids[j] == x);
            assert(r.handlers[x] == v.handlers[x]);
        }
        if v.viewed_by_other(d, id) {
            let j = choose|j: int|
                0 <= j < v.ids.len() && #[trigger] v.ids[j] != id
                    && v.handlers[v.ids[j]].renderer.displays.contains(d);
            let x = v.ids[j];
            assert(v.ids.contains(x));
            assert(r.ids.contains(x));
            let i = r.ids.index_of(x);
            assert(r.ids[i] == x);
            assert(r.handlers[x] == v.handlers[x]);
        }
    }
}

} // verus!
