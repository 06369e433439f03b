use vstd::prelude::*;
use crate::privacy_mode::{
    ActionView, PlatformSupport, PrivacyErrorView, PrivacyModeState, ServiceView,
    INVALID_PRIVACY_MODE_CONN_ID,
};

verus! {

/// An implementation that can be offered can be made.
pub proof fn lemma_supported_has_creator(p: PlatformSupport, key: Seq<char>)
    requires
        p.supported(key),
    ensures
        p.has_creator(key),
        p.resolve(key, ""@) == key,
{
    let i = choose|i: int|
        0 <= i < p.supported_list().len() && (#[trigger] p.supported_list()[i]).0 == key;
    assert(p.supported_list()[i].0 == key);
}

/// A connection holds the privacy mode only where an implementation is installed, and
/// then it is the holder of exactly that implementation.
pub proof fn lemma_owner_needs_implementation(s: ServiceView)
    ensures
        s.owner() != INVALID_PRIVACY_MODE_CONN_ID ==> s.current is Some && s.current->0.conn_id
            == s.owner(),
        s.current is None ==> s.owner() == INVALID_PRIVACY_MODE_CONN_ID,
{
}

/// Once a connection was granted the privacy mode, it holds it, and the request of
/// another connection is refused as occupied and changes nothing, whichever
/// implementation it asks for.
pub proof fn lemma_second_connection_is_refused(
    s: ServiceView,
    k1: Seq<char>,
    k2: Seq<char>,
    a: i32,
    b: i32,
)
    requires
        a != INVALID_PRIVACY_MODE_CONN_ID,
        b != a,
        s.turn_on(k1, a).result is Some,
        s.turn_on(k1, a).result->0 is Ok,
    ensures
        s.turn_on(k1, a).state.owner() == a,
        s.turn_on(k1, a).state.turn_on(k2, b).result == Some(
            Err::<bool, PrivacyErrorView>(PrivacyErrorView::Occupied),
        ),
        s.turn_on(k1, a).state.turn_on(k2, b).state == s.turn_on(k1, a).state,
{
}

/// A connection that does not hold the privacy mode changes nothing by giving it up:
/// where nobody holds it the request succeeds, where another connection holds it the
/// request fails.
pub proof fn lemma_release_by_other_changes_nothing(
    s: ServiceView,
    b: i32,
    state: Option<PrivacyModeState>,
)
    requires
        b != INVALID_PRIVACY_MODE_CONN_ID,
        s.owner() != b,
    ensures
        s.turn_off(b, state).state == s,
        s.current is Some && s.owner() == INVALID_PRIVACY_MODE_CONN_ID ==> s.turn_off(
            b,
            state,
        ).result == Some(Ok::<(), PrivacyErrorView>(())),
        s.owner() != INVALID_PRIVACY_MODE_CONN_ID ==> s.turn_off(b, state).result == Some(
            Err::<(), PrivacyErrorView>(PrivacyErrorView::TurnOffOtherId),
        ),
{
}

/// The holder of the privacy mode gives it up: nobody holds it afterwards, and the
/// platform is asked to turn it off once, with the reason given.
pub proof fn lemma_release_by_owner(s: ServiceView, a: i32, state: Option<PrivacyModeState>)
    requires
        a != INVALID_PRIVACY_MODE_CONN_ID,
        s.owner() == a,
    ensures
        s.turn_off(a, state).result == Some(Ok::<(), PrivacyErrorView>(())),
        s.turn_off(a, state).state.owner() == INVALID_PRIVACY_MODE_CONN_ID,
        s.turn_off(a, state).state.cur_impl_key() == s.cur_impl_key(),
        s.turn_off(a, state).state.actions == s.actions.push(
            ActionView::TurnOff { impl_key: s.cur_impl_key(), conn_id: a, state },
        ),
{
}

/// A connection that holds the privacy mode with one implementation and asks for
/// another one that can be offered keeps the privacy mode, now with the other
/// implementation: the platform is asked to force the first one off once, to make the
/// other one once, and to turn it on.
pub proof fn lemma_same_owner_swaps_implementation(
    s: ServiceView,
    k1: Seq<char>,
    k2: Seq<char>,
    a: i32,
)
    requires
        a != INVALID_PRIVACY_MODE_CONN_ID,
        s.owner() == INVALID_PRIVACY_MODE_CONN_ID || s.owner() == a,
        s.platform.supported(k1),
        s.platform.supported(k2),
        k1 != k2,
    ensures
        ({
            let s1 = s.turn_on(k1, a).state;
            let t = s1.turn_on(k2, a);
            &&& s.turn_on(k1, a).result is Some
            &&& s.turn_on(k1, a).result->0 is Ok
            &&& s1.owner() == a
            &&& s1.cur_impl_key() == k1
            &&& t.result == Some(Ok::<bool, PrivacyErrorView>(false))
            &&& t.state.owner() == a
            &&& t.state.cur_impl_key() == k2
            &&& t.state.actions == s1.actions.push(ActionView::Clear { impl_key: k1 }).push(
                ActionView::Construct { impl_key: k2 },
            ).push(ActionView::TurnOn { impl_key: k2, conn_id: a })
        }),
{
    lemma_supported_has_creator(s.platform, k1);
    lemma_supported_has_creator(s.platform, k2);
    lemma_empty_name_is_not_supported(s.platform);
}

/// No implementation has the empty name.
pub proof fn lemma_empty_name_is_not_supported(p: PlatformSupport)
    ensures
        !p.supported(""@),
        !p.has_creator(""@),
{
    reveal_strlit("");
    reveal_strlit("privacy_mode_impl_mag");
    reveal_strlit("privacy_mode_impl_exclude_from_capture");
    reveal_strlit("privacy_mode_impl_virtual_display");
    assert(""@.len() == 0);
    if p.supported(""@) {
        let i = choose|i: int|
            0 <= i < p.supported_list().len() && (#[trigger] p.supported_list()[i]).0 == ""@;
        assert(p.supported_list()[i].0.len() > 0);
    }
}

/// Asking twice for what one holds changes nothing the second time: the answer is
/// that the privacy mode was on already.
pub proof fn lemma_acquire_is_idempotent(s: ServiceView, k: Seq<char>, a: i32)
    requires
        a != INVALID_PRIVACY_MODE_CONN_ID,
        s.turn_on(k, a).result is Some,
        s.turn_on(k, a).result->0 is Ok,
    ensures
        s.turn_on(k, a).state.turn_on(k, a).result == Some(Ok::<bool, PrivacyErrorView>(true)),
        s.turn_on(k, a).state.turn_on(k, a).state == s.turn_on(k, a).state,
{
}

/// A switch of the implementation leaves the holder as it is.
pub proof fn lemma_switch_keeps_owner(s: ServiceView, key: Seq<char>)
    ensures
        s.switch(key).owner() == s.owner(),
        s.platform.has_creator(key) ==> s.switch(key).cur_impl_key() == key,
        !s.platform.has_creator(key) && !(s.current is Some && s.current->0.impl_key == key)
            ==> s.switch(key) == s,
{
}

/// Where the platform refuses what the service granted, the privacy mode is free
/// again: another connection may ask for it.
pub proof fn lemma_refusal_frees_the_privacy_mode(s: ServiceView, a: i32, b: i32)
    requires
        a != INVALID_PRIVACY_MODE_CONN_ID,
        s.owner() == a,
    ensures
        s.turn_on_refused(a).owner() == INVALID_PRIVACY_MODE_CONN_ID,
        s.turn_on_refused(a).cur_impl_key() == s.cur_impl_key(),
        s.turn_on_refused(a).actions == s.actions,
        b != a ==> s.turn_on_refused(b) == s,
{
}

/// A switch to another implementation that can be made asks the platform to force the
/// installed one off first and then to make the new one, once each; where none is
/// installed, only to make the new one. Where nothing is switched, nothing is asked.
pub proof fn lemma_switch_clears_then_constructs(s: ServiceView, key: Seq<char>)
    requires
        s.platform.has_creator(key),
    ensures
        s.current is Some && s.current->0.impl_key != key ==> s.switch(key).actions
            == s.actions.push(ActionView::Clear { impl_key: s.current->0.impl_key }).push(
            ActionView::Construct { impl_key: key },
        ),
        s.current is None ==> s.switch(key).actions == s.actions.push(
            ActionView::Construct { impl_key: key },
        ),
        s.current is Some && s.current->0.impl_key == key ==> s.switch(key) == s,
        s.switch(key).owner() == s.owner(),
        s.switch(key).cur_impl_key() == key,
{
}

} // verus!
