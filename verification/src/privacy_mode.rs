use vstd::prelude::*;
use vstd::string::StringExecFns;
use crate::error::ErrorKind;
use crate::text::str_eq;

verus! {

/// The connection id that stands for "nobody".
pub const INVALID_PRIVACY_MODE_CONN_ID: i32 = 0;

/// The words for a privacy mode that another connection holds.
pub const OCCUPIED: &'static str = "Privacy occupied by another one";

/// The words for a connection that gives up what another one holds.
pub const TURN_OFF_OTHER_ID: &'static str =
    "Failed to turn off privacy mode that belongs to someone else";

/// The words for a platform that shows no display.
pub const NO_DISPLAYS: &'static str = "No displays";

/// The name of the implementation that uses the magnifier.
pub const PRIVACY_MODE_IMPL_WIN_MAG: &'static str = "privacy_mode_impl_mag";

/// The name of the implementation that excludes windows from capture.
pub const PRIVACY_MODE_IMPL_WIN_EXCLUDE_FROM_CAPTURE: &'static str =
    "privacy_mode_impl_exclude_from_capture";

/// The name of the implementation that uses a virtual display.
pub const PRIVACY_MODE_IMPL_WIN_VIRTUAL_DISPLAY: &'static str = "privacy_mode_impl_virtual_display";

/// Why the privacy mode went off.
#[derive(Clone, Copy, Debug, PartialEq, Eq, Structural)]
pub enum PrivacyModeState {
    OffSucceeded,
    OffByPeer,
    OffUnknown,
}

/// Why the privacy mode could not be turned on or off.
#[derive(Debug, PartialEq, Eq)]
pub enum PrivacyError {
    /// Another connection holds the privacy mode.
    Occupied,
    /// The privacy mode belongs to another connection than the one that gives it up.
    TurnOffOtherId,
    /// No implementation of this name can be made here.
    Unsupported(String),
}

/// The mathematical value of a [`PrivacyError`].
pub enum PrivacyErrorView {
    Occupied,
    TurnOffOtherId,
    Unsupported(Seq<char>),
}

impl View for PrivacyError {
    type V = PrivacyErrorView;

    open spec fn view(&self) -> PrivacyErrorView {
        match self {
            PrivacyError::Occupied => PrivacyErrorView::Occupied,
            PrivacyError::TurnOffOtherId => PrivacyErrorView::TurnOffOtherId,
            PrivacyError::Unsupported(key) => PrivacyErrorView::Unsupported(key@),
        }
    }
}

impl PrivacyErrorView {
    /// The kind of the failure.
    pub open spec fn kind(self) -> ErrorKind {
        match self {
            PrivacyErrorView::Unsupported(_) => ErrorKind::UnsupportedCapability,
            _ => ErrorKind::Conflict,
        }
    }

    /// The words of the failure.
    pub open spec fn message(self) -> Seq<char> {
        match self {
            PrivacyErrorView::Occupied => OCCUPIED@,
            PrivacyErrorView::TurnOffOtherId => TURN_OFF_OTHER_ID@,
            PrivacyErrorView::Unsupported(key) => "Unsupported privacy mode: "@ + key,
        }
    }
}

impl PrivacyError {
    /// The kind of the failure.
    pub fn kind(&self) -> (k: ErrorKind)
        ensures
            k == self@.kind(),
    {
        match self {
            PrivacyError::Unsupported(_) => ErrorKind::UnsupportedCapability,
            _ => ErrorKind::Conflict,
        }
    }

    /// The words of the failure.
    pub fn message(&self) -> (m: String)
        ensures
            m@ == self@.message(),
    {
        match self {
            PrivacyError::Occupied => OCCUPIED.to_owned(),
            PrivacyError::TurnOffOtherId => TURN_OFF_OTHER_ID.to_owned(),
            PrivacyError::Unsupported(key) => String::from_str("Unsupported privacy mode: ").concat(
                key.as_str(),
            ),
        }
    }
}

/// What the library reads of an implementation of the privacy mode: its name and the
/// connection that holds it.
#[derive(Debug)]
pub struct PrivacyMode {
    impl_key: String,
    conn_id: i32,
}

/// The mathematical value of a [`PrivacyMode`].
pub struct PrivacyModeView {
    pub impl_key: Seq<char>,
    /// The connection that holds the privacy mode, or the id that stands for nobody.
    pub conn_id: i32,
}

impl View for PrivacyMode {
    type V = PrivacyModeView;

    closed spec fn view(&self) -> PrivacyModeView {
        PrivacyModeView { impl_key: self.impl_key@, conn_id: self.conn_id }
    }
}

impl PrivacyModeView {
    /// What a connection that asks for the privacy mode is told: that it holds it
    /// already, that another holds it, or that nobody does.
    pub open spec fn check_on_conn_id(self, conn_id: i32) -> Result<bool, PrivacyErrorView> {
        if self.conn_id == conn_id {
            Ok(true)
        } else if self.conn_id != INVALID_PRIVACY_MODE_CONN_ID {
            Err(PrivacyErrorView::Occupied)
        } else {
            Ok(false)
        }
    }

    /// Whether a connection may give the privacy mode up: it may not where another
    /// connection holds it, unless it speaks as nobody.
    pub open spec fn check_off_conn_id(self, conn_id: i32) -> Result<(), PrivacyErrorView> {
        if self.conn_id != INVALID_PRIVACY_MODE_CONN_ID && conn_id != INVALID_PRIVACY_MODE_CONN_ID
            && self.conn_id != conn_id {
            Err(PrivacyErrorView::TurnOffOtherId)
        } else {
            Ok(())
        }
    }
}

impl PrivacyMode {
    /// The implementation of the name `impl_key`, held by nobody.
    pub fn new(impl_key: &str) -> (p: Self)
        ensures
            p@ == (PrivacyModeView { impl_key: impl_key@, conn_id: INVALID_PRIVACY_MODE_CONN_ID }),
    {
        PrivacyMode { impl_key: impl_key.to_owned(), conn_id: INVALID_PRIVACY_MODE_CONN_ID }
    }

    /// The connection that holds the privacy mode.
    pub fn pre_conn_id(&self) -> (id: i32)
        ensures
            id == self@.conn_id,
    {
        self.conn_id
    }

    /// The name of the implementation.
    pub fn get_impl_key(&self) -> (key: &str)
        ensures
            key@ == self@.impl_key,
    {
        self.impl_key.as_str()
    }

    /// Tells a connection that asks for the privacy mode whether it holds it already;
    /// fails where another connection holds it.
    pub fn check_on_conn_id(&self, conn_id: i32) -> (r: Result<bool, PrivacyError>)
        ensures
            match r {
                Ok(b) => self@.check_on_conn_id(conn_id) == Ok::<bool, PrivacyErrorView>(b),
                Err(e) => self@.check_on_conn_id(conn_id) == Err::<bool, PrivacyErrorView>(e@),
            },
    {
        let pre_conn_id = self.pre_conn_id();
        if pre_conn_id == conn_id {
            return Ok(true);
        }
        if pre_conn_id != INVALID_PRIVACY_MODE_CONN_ID {
            return Err(PrivacyError::Occupied);
        }
        Ok(false)
    }

    /// Fails where a connection gives up a privacy mode that another connection holds.
    pub fn check_off_conn_id(&self, conn_id: i32) -> (r: Result<(), PrivacyError>)
        ensures
            match r {
                Ok(_) => self@.check_off_conn_id(conn_id) is Ok,
                Err(e) => self@.check_off_conn_id(conn_id) == Err::<(), PrivacyErrorView>(e@),
            },
    {
        let pre_conn_id = self.pre_conn_id();
        if pre_conn_id != INVALID_PRIVACY_MODE_CONN_ID && conn_id != INVALID_PRIVACY_MODE_CONN_ID
            && pre_conn_id != conn_id {
            return Err(PrivacyError::TurnOffOtherId);
        }
        Ok(())
    }
}

/// What the platform offers, as it was probed when the service was made.
#[derive(Clone, Copy, Debug, PartialEq, Eq, Structural)]
pub struct PlatformSupport {
    /// Whether this is a platform that has implementations at all.
    pub windows: bool,
    /// Whether windows can be excluded from capture.
    pub exclude_from_capture: bool,
    /// Whether the magnifier can be used.
    pub magnifier: bool,
    /// Whether the virtual display driver was built in.
    pub virtual_display_driver: bool,
    /// Whether the virtual display driver is installed.
    pub virtual_display_installed: bool,
}

impl PlatformSupport {
    /// The implementations that can be offered, each with the name of its hint: the
    /// exclusion from capture or else the magnifier, then the virtual display.
    pub open spec fn supported_list(self) -> Seq<(Seq<char>, Seq<char>)> {
        let first: Seq<(Seq<char>, Seq<char>)> = if !self.windows {
            Seq::empty()
        } else if self.exclude_from_capture {
            seq![(PRIVACY_MODE_IMPL_WIN_EXCLUDE_FROM_CAPTURE@, "privacy_mode_impl_mag_tip"@)]
        } else if self.magnifier {
            seq![(PRIVACY_MODE_IMPL_WIN_MAG@, "privacy_mode_impl_mag_tip"@)]
        } else {
            Seq::empty()
        };
        if self.windows && self.virtual_display_driver && self.virtual_display_installed {
            first.push(
                (PRIVACY_MODE_IMPL_WIN_VIRTUAL_DISPLAY@, "privacy_mode_impl_virtual_display_tip"@),
            )
        } else {
            first
        }
    }

    /// Whether the implementation `key` can be offered.
    pub open spec fn supported(self, key: Seq<char>) -> bool {
        exists|i: int|
            0 <= i < self.supported_list().len() && (#[trigger] self.supported_list()[i]).0 == key
    }

    /// The implementation that is taken where none is asked for: the first that can be
    /// offered, the empty name where there is none.
    pub open spec fn default_impl(self) -> Seq<char> {
        if !self.windows {
            ""@
        } else if self.exclude_from_capture {
            PRIVACY_MODE_IMPL_WIN_EXCLUDE_FROM_CAPTURE@
        } else if self.magnifier {
            PRIVACY_MODE_IMPL_WIN_MAG@
        } else if self.virtual_display_driver && self.virtual_display_installed {
            PRIVACY_MODE_IMPL_WIN_VIRTUAL_DISPLAY@
        } else {
            ""@
        }
    }

    /// Whether the implementation `key` can be made: the exclusion from capture where
    /// the platform has it, else the magnifier, and the virtual display where its
    /// driver was built in.
    pub open spec fn has_creator(self, key: Seq<char>) -> bool {
        self.windows && (if self.exclude_from_capture {
            key == PRIVACY_MODE_IMPL_WIN_EXCLUDE_FROM_CAPTURE@
        } else {
            key == PRIVACY_MODE_IMPL_WIN_MAG@
        } || (self.virtual_display_driver && key == PRIVACY_MODE_IMPL_WIN_VIRTUAL_DISPLAY@))
    }

    /// The implementation that a request for `key` leads to: `key` where it can be
    /// offered, else the configured one where that can be offered, else the default.
    pub open spec fn resolve(self, key: Seq<char>, configured: Seq<char>) -> Seq<char> {
        if self.supported(key) {
            key
        } else if self.supported(configured) {
            configured
        } else {
            self.default_impl()
        }
    }
}

/// What the caller has to do on the platform, in this order, for what the service
/// decided.
#[derive(Debug, PartialEq, Eq)]
pub enum PlatformAction {
    /// Prepare the implementation.
    Init { impl_key: String },
    /// Force the implementation off, whoever holds the privacy mode.
    Clear { impl_key: String },
    /// Make the implementation.
    Construct { impl_key: String },
    /// Turn the privacy mode on for the connection.
    TurnOn { impl_key: String, conn_id: i32 },
    /// Turn the privacy mode off, for the reason given.
    TurnOff { impl_key: String, conn_id: i32, state: Option<PrivacyModeState> },
}

/// The mathematical value of a [`PlatformAction`].
pub enum ActionView {
    Init { impl_key: Seq<char> },
    Clear { impl_key: Seq<char> },
    Construct { impl_key: Seq<char> },
    TurnOn { impl_key: Seq<char>, conn_id: i32 },
    TurnOff { impl_key: Seq<char>, conn_id: i32, state: Option<PrivacyModeState> },
}

impl View for PlatformAction {
    type V = ActionView;

    open spec fn view(&self) -> ActionView {
        match self {
            PlatformAction::Init { impl_key } => ActionView::Init { impl_key: impl_key@ },
            PlatformAction::Clear { impl_key } => ActionView::Clear { impl_key: impl_key@ },
            PlatformAction::Construct { impl_key } => ActionView::Construct { impl_key: impl_key@ },
            PlatformAction::TurnOn { impl_key, conn_id } => ActionView::TurnOn {
                impl_key: impl_key@,
                conn_id: *conn_id,
            },
            PlatformAction::TurnOff { impl_key, conn_id, state } => ActionView::TurnOff {
                impl_key: impl_key@,
                conn_id: *conn_id,
                state: *state,
            },
        }
    }
}

/// The views of a sequence of actions.
pub open spec fn actions_view(s: Seq<PlatformAction>) -> Seq<ActionView> {
    s.map_values(|a: PlatformAction| a@)
}

/// The mathematical value of a [`PrivacyModeService`].
pub struct ServiceView {
    pub platform: PlatformSupport,
    /// The implementation that the configuration names.
    pub configured: Seq<char>,
    /// The implementation that is installed, with its holder.
    pub current: Option<PrivacyModeView>,
    /// What the caller has still to do on the platform.
    pub actions: Seq<ActionView>,
}

/// What a request to turn the privacy mode on leads to.
pub struct TurnOnView {
    pub state: ServiceView,
    pub result: Option<Result<bool, PrivacyErrorView>>,
}

/// What a request to turn the privacy mode off leads to.
pub struct TurnOffView {
    pub state: ServiceView,
    pub result: Option<Result<(), PrivacyErrorView>>,
}

impl ServiceView {
    /// The service as it is made: with the configured implementation where that can be
    /// offered, else the default one, installed if it can be made, and held by nobody.
    pub open spec fn initial(platform: PlatformSupport, configured: Seq<char>) -> ServiceView {
        let key = if platform.supported(configured) {
            configured
        } else {
            platform.default_impl()
        };
        if platform.has_creator(key) {
            ServiceView {
                platform,
                configured,
                current: Some(
                    PrivacyModeView { impl_key: key, conn_id: INVALID_PRIVACY_MODE_CONN_ID },
                ),
                actions: seq![ActionView::Construct { impl_key: key }],
            }
        } else {
            ServiceView { platform, configured, current: None, actions: Seq::empty() }
        }
    }

    /// The connection that holds the privacy mode, or the id that stands for nobody.
    pub open spec fn owner(self) -> i32 {
        match self.current {
            Some(pm) => pm.conn_id,
            None => INVALID_PRIVACY_MODE_CONN_ID,
        }
    }

    /// The name of the installed implementation, the empty name where there is none.
    pub open spec fn cur_impl_key(self) -> Seq<char> {
        match self.current {
            Some(pm) => pm.impl_key,
            None => ""@,
        }
    }

    /// The service with `action` added to what the caller has to do.
    pub open spec fn with_action(self, action: ActionView) -> ServiceView {
        ServiceView { actions: self.actions.push(action), ..self }
    }

    /// The service after the installed implementation was prepared.
    pub open spec fn init(self) -> ServiceView {
        match self.current {
            Some(pm) => self.with_action(ActionView::Init { impl_key: pm.impl_key }),
            None => self,
        }
    }

    /// The service after the installed implementation was forced off: nobody holds it.
    pub open spec fn clear(self) -> ServiceView {
        match self.current {
            Some(pm) => ServiceView {
                current: Some(
                    PrivacyModeView { conn_id: INVALID_PRIVACY_MODE_CONN_ID, ..pm },
                ),
                ..self
            }.with_action(ActionView::Clear { impl_key: pm.impl_key }),
            None => self,
        }
    }

    /// The service after a switch to the implementation `key`: it takes the place of
    /// the installed one where it is another one and can be made. The installed one is
    /// forced off first, then the new one is made, and the holder stays.
    pub open spec fn switch(self, key: Seq<char>) -> ServiceView {
        if self.current is Some && self.current->0.impl_key == key {
            self
        } else if self.platform.has_creator(key) {
            let cleared = match self.current {
                Some(pm) => self.with_action(ActionView::Clear { impl_key: pm.impl_key }),
                None => self,
            };
            ServiceView {
                current: Some(PrivacyModeView { impl_key: key, conn_id: self.owner() }),
                ..cleared
            }.with_action(ActionView::Construct { impl_key: key })
        } else {
            self
        }
    }

    /// What a request of the connection `conn_id` to turn the privacy mode on with the
    /// implementation `impl_key` leads to.
    pub open spec fn turn_on(self, impl_key: Seq<char>, conn_id: i32) -> TurnOnView {
        let key = self.platform.resolve(impl_key, self.configured);
        let check: Result<bool, PrivacyErrorView> = match self.current {
            Some(pm) => pm.check_on_conn_id(conn_id),
            None => Ok(false),
        };
        if check is Err {
            TurnOnView { state: self, result: Some(Err(check->Err_0)) }
        } else if self.current is Some && check == Ok::<bool, PrivacyErrorView>(true)
            && self.cur_impl_key() == key {
            TurnOnView { state: self, result: Some(Ok(true)) }
        } else if self.cur_impl_key() != key {
            if self.platform.has_creator(key) {
                let cleared = match self.current {
                    Some(pm) => self.actions.push(ActionView::Clear { impl_key: pm.impl_key }),
                    None => self.actions,
                };
                TurnOnView {
                    state: ServiceView {
                        current: Some(PrivacyModeView { impl_key: key, conn_id }),
                        actions: cleared.push(ActionView::Construct { impl_key: key }).push(
                            ActionView::TurnOn { impl_key: key, conn_id },
                        ),
                        ..self
                    },
                    result: Some(Ok(false)),
                }
            } else {
                TurnOnView { state: self, result: Some(Err(PrivacyErrorView::Unsupported(key))) }
            }
        } else if self.current is Some {
            TurnOnView {
                state: ServiceView {
                    current: Some(PrivacyModeView { impl_key: key, conn_id }),
                    ..self
                }.with_action(ActionView::TurnOn { impl_key: key, conn_id }),
                result: Some(Ok(false)),
            }
        } else {
            TurnOnView { state: self, result: None }
        }
    }

    /// The service after the platform refused to turn the privacy mode on for the
    /// connection `conn_id`: the connection does not hold it after all.
    pub open spec fn turn_on_refused(self, conn_id: i32) -> ServiceView {
        match self.current {
            Some(pm) => if pm.conn_id == conn_id {
                ServiceView {
                    current: Some(
                        PrivacyModeView { conn_id: INVALID_PRIVACY_MODE_CONN_ID, ..pm },
                    ),
                    ..self
                }
            } else {
                self
            },
            None => self,
        }
    }

    /// What a request of the connection `conn_id` to turn the privacy mode off leads
    /// to.
    pub open spec fn turn_off(self, conn_id: i32, state: Option<PrivacyModeState>) -> TurnOffView {
        match self.current {
            None => TurnOffView { state: self, result: None },
            Some(pm) => if pm.conn_id == INVALID_PRIVACY_MODE_CONN_ID {
                TurnOffView { state: self, result: Some(Ok(())) }
            } else if pm.check_off_conn_id(conn_id) is Err {
                TurnOffView { state: self, result: Some(Err(PrivacyErrorView::TurnOffOtherId)) }
            } else {
                TurnOffView {
                    state: ServiceView {
                        current: Some(
                            PrivacyModeView { conn_id: INVALID_PRIVACY_MODE_CONN_ID, ..pm },
                        ),
                        ..self
                    }.with_action(
                        ActionView::TurnOff { impl_key: pm.impl_key, conn_id: pm.conn_id, state },
                    ),
                    result: Some(Ok(())),
                }
            },
        }
    }
}

/// The arbiter of the privacy mode: it holds at most one implementation, knows the
/// connection that holds the privacy mode, and decides who may turn it on and off.
///
/// It decides and records; what is to be done on the platform it lists in
/// [`Self::take_actions`], for the caller to do in that order.
pub struct PrivacyModeService {
    platform: PlatformSupport,
    option_impl_key: String,
    current: Option<PrivacyMode>,
    actions: Vec<PlatformAction>,
}

/// The view of an implementation that may be absent.
pub open spec fn opt_mode_view(p: Option<PrivacyMode>) -> Option<PrivacyModeView> {
    match p {
        Some(p) => Some(p@),
        None => None,
    }
}

impl View for PrivacyModeService {
    type V = ServiceView;

    closed spec fn view(&self) -> ServiceView {
        ServiceView {
            platform: self.platform,
            configured: self.option_impl_key@,
            current: opt_mode_view(self.current),
            actions: actions_view(self.actions@),
        }
    }
}

/// The implementations that the platform of `svc` can offer, each with the name of its
/// hint.
pub fn get_supported_privacy_mode_impl(svc: &PrivacyModeService) -> (r: Vec<
    (&'static str, &'static str),
>)
    ensures
        crate::events::pairs_view(r@) == svc@.platform.supported_list(),
{
    let r = supported_impls(&svc.platform);
    r
}

fn supported_impls(platform: &PlatformSupport) -> (r: Vec<(&'static str, &'static str)>)
    ensures
        crate::events::pairs_view(r@) == platform.supported_list(),
{
    let mut vec_impls: Vec<(&'static str, &'static str)> = Vec::new();
    if platform.windows {
        if platform.exclude_from_capture {
            vec_impls.push((PRIVACY_MODE_IMPL_WIN_EXCLUDE_FROM_CAPTURE, "privacy_mode_impl_mag_tip"));
        } else {
            if platform.magnifier {
                vec_impls.push((PRIVACY_MODE_IMPL_WIN_MAG, "privacy_mode_impl_mag_tip"));
            }
        }
        if platform.virtual_display_driver && platform.virtual_display_installed {
            vec_impls.push(
                (PRIVACY_MODE_IMPL_WIN_VIRTUAL_DISPLAY, "privacy_mode_impl_virtual_display_tip"),
            );
        }
    }
    assert(crate::events::pairs_view(vec_impls@) =~= platform.supported_list());
    vec_impls
}

fn is_supported(platform: &PlatformSupport, key: &str) -> (b: bool)
    ensures
        b == platform.supported(key@),
{
    let impls = supported_impls(platform);
    let mut i: usize = 0;
    while i < impls.len()
        invariant
            i <= impls.len(),
            crate::events::pairs_view(impls@) == platform.supported_list(),
            forall|j: int| 0 <= j < i ==> (#[trigger] platform.supported_list()[j]).0 != key@,
        decreases impls.len() - i,
    {
        assert(platform.supported_list()[i as int].0 == impls@[i as int].0@);
        if str_eq(impls[i].0, key) {
            return true;
        }
        i += 1;
    }
    false
}

/// The implementation that is taken where none is asked for; the empty name where the
/// platform has none.
pub fn default_privacy_mode_impl(platform: &PlatformSupport) -> (key: &'static str)
    ensures
        key@ == platform.default_impl(),
{
    if !platform.windows {
        ""
    } else if platform.exclude_from_capture {
        PRIVACY_MODE_IMPL_WIN_EXCLUDE_FROM_CAPTURE
    } else if platform.magnifier {
        PRIVACY_MODE_IMPL_WIN_MAG
    } else if platform.virtual_display_driver && platform.virtual_display_installed {
        PRIVACY_MODE_IMPL_WIN_VIRTUAL_DISPLAY
    } else {
        ""
    }
}

fn has_creator(platform: &PlatformSupport, key: &str) -> (b: bool)
    ensures
        b == platform.has_creator(key@),
{
    if !platform.windows {
        return false;
    }
    let first = if platform.exclude_from_capture {
        str_eq(key, PRIVACY_MODE_IMPL_WIN_EXCLUDE_FROM_CAPTURE)
    } else {
        str_eq(key, PRIVACY_MODE_IMPL_WIN_MAG)
    };
    first || (platform.virtual_display_driver && str_eq(key, PRIVACY_MODE_IMPL_WIN_VIRTUAL_DISPLAY))
}

/// The implementation that a request for `impl_key` leads to: `impl_key` where it can
/// be offered, else the configured one where that can be offered, else the default.
pub fn get_supported_impl(svc: &PrivacyModeService, impl_key: &str) -> (key: String)
    ensures
        key@ == svc@.platform.resolve(impl_key@, svc@.configured),
{
    if is_supported(&svc.platform, impl_key) {
        return impl_key.to_owned();
    }
    if is_supported(&svc.platform, svc.option_impl_key.as_str()) {
        svc.option_impl_key.clone()
    } else {
        default_privacy_mode_impl(&svc.platform).to_owned()
    }
}

impl PrivacyModeService {
    /// The service for a platform and for the implementation that the configuration
    /// names: that one where it can be offered, else the default one, is installed if it
    /// can be made.
    pub fn new(platform: PlatformSupport, option_impl_key: String) -> (svc: Self)
        ensures
            svc@ == ServiceView::initial(platform, option_impl_key@),
    {
        let cur_impl = if is_supported(&platform, option_impl_key.as_str()) {
            option_impl_key.clone()
        } else {
            default_privacy_mode_impl(&platform).to_owned()
        };
        let mut actions: Vec<PlatformAction> = Vec::new();
        let current = if has_creator(&platform, cur_impl.as_str()) {
            actions.push(PlatformAction::Construct { impl_key: cur_impl.clone() });
            Some(PrivacyMode::new(cur_impl.as_str()))
        } else {
            None
        };
        let svc = PrivacyModeService { platform, option_impl_key, current, actions };
        assert(svc@.actions =~= ServiceView::initial(platform, option_impl_key@).actions);
        svc
    }

    /// Tells the service which implementation the configuration names from now on.
    pub fn set_option_impl_key(&mut self, option_impl_key: String)
        ensures
            final(self)@ == (ServiceView { configured: option_impl_key@, ..old(self)@ }),
    {
        self.option_impl_key = option_impl_key;
    }

    /// Hands out what is to be done on the platform, in order, and forgets it.
    pub fn take_actions(&mut self) -> (actions: Vec<PlatformAction>)
        ensures
            actions_view(actions@) == old(self)@.actions,
            final(self)@ == (ServiceView { actions: Seq::empty(), ..old(self)@ }),
    {
        let mut actions: Vec<PlatformAction> = Vec::new();
        std::mem::swap(&mut actions, &mut self.actions);
        assert(self@.actions =~= Seq::empty());
        actions
    }

    fn push_action(&mut self, action: PlatformAction)
        ensures
            final(self)@ == old(self)@.with_action(action@),
            final(self).current == old(self).current,
    {
        self.actions.push(action);
        assert(self@.actions =~= old(self)@.actions.push(action@));
    }
}

/// Prepares the installed implementation. Without one, nothing is returned.
pub fn init(svc: &mut PrivacyModeService) -> (r: Option<Result<(), PrivacyError>>)
    ensures
        final(svc)@ == old(svc)@.init(),
        match r {
            Some(res) => old(svc)@.current is Some && res is Ok,
            None => old(svc)@.current is None,
        },
{
    let key = match &svc.current {
        Some(pm) => pm.get_impl_key().to_owned(),
        None => {
            return None;
        },
    };
    svc.push_action(PlatformAction::Init { impl_key: key });
    Some(Ok(()))
}

/// Forces the installed implementation off: nobody holds the privacy mode afterwards.
/// Without an implementation, nothing is returned.
pub fn clear(svc: &mut PrivacyModeService) -> (r: Option<()>)
    ensures
        final(svc)@ == old(svc)@.clear(),
        r is Some == old(svc)@.current is Some,
{
    let key = match &svc.current {
        Some(pm) => pm.get_impl_key().to_owned(),
        None => {
            return None;
        },
    };
    svc.current = Some(PrivacyMode::new(key.as_str()));
    svc.push_action(PlatformAction::Clear { impl_key: key });
    Some(())
}

/// Switches to the implementation `impl_key`: it takes the place of the installed one
/// where it is another one and can be made. The platform is asked to force the
/// installed one off first and then to make the new one. The connection that holds the
/// privacy mode keeps it.
pub fn switch(svc: &mut PrivacyModeService, impl_key: &str)
    ensures
        final(svc)@ == old(svc)@.switch(impl_key@),
{
    let mut owner = INVALID_PRIVACY_MODE_CONN_ID;
    let mut installed: Option<String> = None;
    if let Some(pm) = &svc.current {
        if str_eq(pm.get_impl_key(), impl_key) {
            return ;
        }
        owner = pm.pre_conn_id();
        installed = Some(pm.get_impl_key().to_owned());
    }
    if has_creator(&svc.platform, impl_key) {
        if let Some(old_key) = installed {
            svc.push_action(PlatformAction::Clear { impl_key: old_key });
        }
        let mut pm = PrivacyMode::new(impl_key);
        pm.conn_id = owner;
        svc.current = Some(pm);
        svc.push_action(PlatformAction::Construct { impl_key: impl_key.to_owned() });
    }
}

/// Asks for the privacy mode on behalf of the connection `conn_id`, with the
/// implementation `impl_key` or the one that stands in for it.
///
/// Where another connection holds the privacy mode, the request fails and nothing
/// changes. Where this connection holds it with the implementation asked for, the
/// answer is `true` and nothing changes. Else the implementation asked for is installed
/// if it is not: the installed one is forced off first, and where the new one cannot be
/// made the request fails and nothing changes. The connection then holds the privacy
/// mode, and the answer is `false`: it was not on before. Nothing is returned where no
/// implementation is installed and none is asked for.
pub fn turn_on_privacy(svc: &mut PrivacyModeService, impl_key: &str, conn_id: i32) -> (r: Option<
    Result<bool, PrivacyError>,
>)
    ensures
        final(svc)@ == old(svc)@.turn_on(impl_key@, conn_id).state,
        result_view(r) == old(svc)@.turn_on(impl_key@, conn_id).result,
{
    let impl_key = get_supported_impl(svc, impl_key);
    let mut cur_impl_key = "".to_owned();
    let mut had_impl = false;
    if let Some(privacy_mode) = &svc.current {
        had_impl = true;
        cur_impl_key = privacy_mode.get_impl_key().to_owned();
        match privacy_mode.check_on_conn_id(conn_id) {
            Ok(true) => {
                if cur_impl_key == impl_key {
                    return Some(Ok(true));
                }
            },
            Err(e) => {
                return Some(Err(e));
            },
            _ => {},
        }
    }
    if cur_impl_key != impl_key {
        if has_creator(&svc.platform, impl_key.as_str()) {
            if had_impl {
                svc.push_action(PlatformAction::Clear { impl_key: cur_impl_key });
            }
            svc.current = Some(PrivacyMode::new(impl_key.as_str()));
            svc.push_action(PlatformAction::Construct { impl_key: impl_key.clone() });
        } else {
            return Some(Err(PrivacyError::Unsupported(impl_key)));
        }
    }
    if svc.current.is_none() {
        return None;
    }
    let mut pm = PrivacyMode::new(impl_key.as_str());
    pm.conn_id = conn_id;
    svc.current = Some(pm);
    svc.push_action(PlatformAction::TurnOn { impl_key, conn_id });
    Some(Ok(false))
}

/// The view of what a request to turn the privacy mode on returned.
pub open spec fn result_view(r: Option<Result<bool, PrivacyError>>) -> Option<
    Result<bool, PrivacyErrorView>,
> {
    match r {
        Some(Ok(b)) => Some(Ok(b)),
        Some(Err(e)) => Some(Err(e@)),
        None => None,
    }
}

/// The view of what a request to turn the privacy mode off returned.
pub open spec fn unit_result_view(r: Option<Result<(), PrivacyError>>) -> Option<
    Result<(), PrivacyErrorView>,
> {
    match r {
        Some(Ok(_)) => Some(Ok(())),
        Some(Err(e)) => Some(Err(e@)),
        None => None,
    }
}

/// Gives the privacy mode up on behalf of the connection `conn_id`, for the reason
/// `state`.
///
/// Where nobody holds the privacy mode, nothing changes. Where another connection
/// holds it, the request fails and nothing changes, unless `conn_id` is the id that
/// stands for nobody. Else nobody holds the privacy mode afterwards. Without an
/// implementation, nothing is returned.
pub fn turn_off_privacy(
    svc: &mut PrivacyModeService,
    conn_id: i32,
    state: Option<PrivacyModeState>,
) -> (r: Option<Result<(), PrivacyError>>)
    ensures
        final(svc)@ == old(svc)@.turn_off(conn_id, state).state,
        unit_result_view(r) == old(svc)@.turn_off(conn_id, state).result,
{
    let (key, owner) = match &svc.current {
        Some(pm) => {
            if pm.pre_conn_id() == INVALID_PRIVACY_MODE_CONN_ID {
                return Some(Ok(()));
            }
            if let Err(e) = pm.check_off_conn_id(conn_id) {
                return Some(Err(e));
            }
            (pm.get_impl_key().to_owned(), pm.pre_conn_id())
        },
        None => {
            return None;
        },
    };
    svc.current = Some(PrivacyMode::new(key.as_str()));
    svc.push_action(PlatformAction::TurnOff { impl_key: key, conn_id: owner, state });
    Some(Ok(()))
}

/// Tells the connection `conn_id` whether it holds the privacy mode already; fails
/// where another connection holds it. Without an implementation, nothing is returned.
pub fn check_on_conn_id(svc: &PrivacyModeService, conn_id: i32) -> (r: Option<
    Result<bool, PrivacyError>,
>)
    ensures
        result_view(r) == match svc@.current {
            Some(pm) => Some(pm.check_on_conn_id(conn_id)),
            None => None,
        },
{
    match &svc.current {
        Some(pm) => Some(pm.check_on_conn_id(conn_id)),
        None => None,
    }
}

/// The name of the installed implementation.
pub fn get_cur_impl_key(svc: &PrivacyModeService) -> (r: Option<String>)
    ensures
        r is Some == svc@.current is Some,
        r is Some ==> r->0@ == svc@.current->0.impl_key,
{
    match &svc.current {
        Some(pm) => Some(pm.get_impl_key().to_owned()),
        None => None,
    }
}

/// Whether the installed implementation has the name `impl_key`.
pub fn is_current_privacy_mode_impl(svc: &PrivacyModeService, impl_key: &str) -> (b: bool)
    ensures
        b == (svc@.current is Some && svc@.current->0.impl_key == impl_key@),
{
    match &svc.current {
        Some(pm) => str_eq(pm.get_impl_key(), impl_key),
        None => false,
    }
}

/// The words of what stands against the privacy mode on a display. Only the magnifier
/// needs the probe of a capturer: where it is the installed implementation, the words
/// of the probe, `capturer_err`, are returned; else there is nothing to say.
pub fn check_privacy_mode_err(
    svc: &PrivacyModeService,
    privacy_mode_id: i32,
    display_idx: usize,
    timeout_millis: u64,
    capturer_err: &str,
) -> (r: String)
    ensures
        r@ == if svc@.platform.windows && svc@.current is Some && svc@.current->0.impl_key
            == PRIVACY_MODE_IMPL_WIN_MAG@ {
            capturer_err@
        } else {
            ""@
        },
{
    if svc.platform.windows && is_current_privacy_mode_impl(svc, PRIVACY_MODE_IMPL_WIN_MAG) {
        capturer_err.to_owned()
    } else {
        "".to_owned()
    }
}

/// Whether the platform has an implementation at all.
pub fn is_privacy_mode_supported(svc: &PrivacyModeService) -> (b: bool)
    ensures
        b == (svc@.platform.default_impl().len() != 0),
{
    !default_privacy_mode_impl(&svc.platform).is_empty()
}

/// The connection that holds the privacy mode, or the id that stands for nobody.
/// Without an implementation, nothing is returned.
pub fn get_privacy_mode_conn_id(svc: &PrivacyModeService) -> (r: Option<i32>)
    ensures
        r == match svc@.current {
            Some(pm) => Some(pm.conn_id),
            None => None,
        },
{
    match &svc.current {
        Some(pm) => Some(pm.pre_conn_id()),
        None => None,
    }
}

/// Whether a connection holds the privacy mode.
pub fn is_in_privacy_mode(svc: &PrivacyModeService) -> (b: bool)
    ensures
        b == (svc@.owner() != INVALID_PRIVACY_MODE_CONN_ID),
{
    match &svc.current {
        Some(pm) => pm.pre_conn_id() != INVALID_PRIVACY_MODE_CONN_ID,
        None => false,
    }
}

/// Takes note that the platform refused to turn the privacy mode on for the connection
/// `conn_id`: where the service had granted it to that connection, nobody holds it
/// afterwards. Nothing is asked of the platform.
pub fn turn_on_refused(svc: &mut PrivacyModeService, conn_id: i32)
    ensures
        final(svc)@ == old(svc)@.turn_on_refused(conn_id),
{
    let key = match &svc.current {
        Some(pm) => {
            if pm.pre_conn_id() != conn_id {
                return ;
            }
            pm.get_impl_key().to_owned()
        },
        None => {
            return ;
        },
    };
    svc.current = Some(PrivacyMode::new(key.as_str()));
}

} // verus!
