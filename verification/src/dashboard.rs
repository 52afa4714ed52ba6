//! Dashboard: the state behind a front end that lists every HID device and
//! lets the operator lock and unlock the controllable ones.
//!
//! The dashboard draws nothing and opens nothing. It says what each row
//! shows, and it answers each event of the front end with the action that
//! the front end is to carry out.

use vstd::prelude::*;
use vstd::string::StringExecFns;

use crate::catalog::device_views;
use crate::catalog::identity_of;
use crate::catalog::DeviceIdentity;
use crate::catalog::DeviceInfo;
use crate::catalog::DeviceInfoView;
use crate::codec::Command;
use crate::controller::begin_spec;
use crate::controller::next_action;
use crate::controller::next_phase;
use crate::controller::session_after;
use crate::controller::Action;
use crate::controller::ActionView;
use crate::controller::Event;
use crate::controller::EventView;
use crate::controller::Phase;
use crate::controller::Toggle;
use crate::controller::ToggleView;
use crate::error::describe_spec;
use crate::matcher::is_available_spec;
use crate::matcher::is_device_available;
use crate::session::state_in;
use crate::session::unknown_entry;
use crate::session::LockState;
use crate::session::SessionEntry;
use crate::session::SessionEntryView;
use crate::session::SessionState;
use crate::text::hex4;
use crate::text::hex4_spec;
use crate::text::push_hex4;
use crate::text::trim;
use crate::text::trimmed;
use crate::Opts;

verus! {

/// The label of a device: vendor and product name, then the four identity
/// fields in lower-case hexadecimal.
pub open spec fn label_spec(device: DeviceInfoView) -> Seq<char> {
    trimmed(device.vendor_name) + "/"@ + trimmed(device.product_name) + " ("@ + hex4_spec(
        device.vendor_id,
        false,
    ) + "/"@ + hex4_spec(device.product_id, false) + ", "@ + hex4_spec(device.usage, false) + ", "@
        + hex4_spec(device.usage_page, false) + ")"@
}

/// What the state cell of a row shows for the entry of its device: nothing
/// while nothing has been asked of the device, the commanded state after a
/// request that went through, and the failure after one that did not.
pub open spec fn state_text(entry: Option<SessionEntryView>) -> Seq<char> {
    match entry {
        None => Seq::empty(),
        Some(entry) => match entry.last_requested_state {
            None => Seq::empty(),
            Some(command) => match entry.last_result {
                Err(error) => "Failed("@ + describe_spec(error) + ")"@,
                Ok(_) => match command {
                    Command::Lock => "Locked"@,
                    Command::Unlock => "Unlocked"@,
                },
            },
        },
    }
}

/// The label of `device`.
pub fn label(device: &DeviceInfo) -> (text: String)
    ensures
        text@ == label_spec(device@),
{
    let mut text = String::from_str(trim(device.vendor_name()));
    text.append("/");
    text.append(trim(device.product_name()));
    text.append(" (");
    push_hex4(&mut text, device.vendor_id(), false);
    text.append("/");
    push_hex4(&mut text, device.product_id(), false);
    text.append(", ");
    push_hex4(&mut text, device.usage(), false);
    text.append(", ");
    push_hex4(&mut text, device.usage_page(), false);
    text.append(")");
    text
}

/// What the state cell shows for `entry`.
pub fn state_cell(entry: Option<&SessionEntry>) -> (text: String)
    ensures
        text@ == state_text(
            match entry {
                Some(entry) => Some(entry@),
                None => None,
            },
        ),
{
    match entry {
        None => String::new(),
        Some(entry) => match entry.last_requested_state {
            None => String::new(),
            Some(command) => match &entry.last_result {
                Err(error) => {
                    let mut text = String::from_str("Failed(");
                    text.append(error.describe().as_str());
                    text.append(")");
                    text
                },
                Ok(_) => match command {
                    Command::Lock => String::from_str("Locked"),
                    Command::Unlock => String::from_str("Unlocked"),
                },
            },
        },
    }
}

/// What one row of the dashboard shows.
#[derive(Debug)]
pub struct Row {
    pub vendor_name: String,
    pub product_name: String,
    /// The vendor id as four upper-case hexadecimal digits.
    pub vendor_id: String,
    /// The product id as four upper-case hexadecimal digits.
    pub product_id: String,
    /// The usage as four upper-case hexadecimal digits.
    pub usage: String,
    /// The usage page as four upper-case hexadecimal digits.
    pub usage_page: String,
    /// The last commanded state, which the device itself cannot confirm.
    pub state: String,
    /// Whether the row has controls: the device is a target.
    pub controllable: bool,
    /// Whether a press on `Lock` would begin a toggle that is not redundant.
    pub lock_enabled: bool,
    /// Whether a press on `Unlock` would begin a toggle that is not redundant.
    pub unlock_enabled: bool,
}

/// A [`Row`] as contracts see it.
pub struct RowView {
    pub vendor_name: Seq<char>,
    pub product_name: Seq<char>,
    pub vendor_id: Seq<char>,
    pub product_id: Seq<char>,
    pub usage: Seq<char>,
    pub usage_page: Seq<char>,
    pub state: Seq<char>,
    pub controllable: bool,
    pub lock_enabled: bool,
    pub unlock_enabled: bool,
}

impl View for Row {
    type V = RowView;

    open spec fn view(&self) -> RowView {
        RowView {
            vendor_name: self.vendor_name@,
            product_name: self.product_name@,
            vendor_id: self.vendor_id@,
            product_id: self.product_id@,
            usage: self.usage@,
            usage_page: self.usage_page@,
            state: self.state@,
            controllable: self.controllable,
            lock_enabled: self.lock_enabled,
            unlock_enabled: self.unlock_enabled,
        }
    }
}

/// What the front end reports to the dashboard.
#[derive(Debug)]
pub enum UiEvent {
    /// The operator pressed `Lock` or `Unlock` in row `row`.
    Press { row: usize, command: Command },
    /// The operator chose to quit.
    Quit,
    /// The last action on a device has ended.
    Device(Event),
}

/// A [`UiEvent`] as contracts see it.
pub enum UiEventView {
    Press { row: usize, command: Command },
    Quit,
    Device(EventView),
}

impl View for UiEvent {
    type V = UiEventView;

    open spec fn view(&self) -> UiEventView {
        match self {
            UiEvent::Press { row, command } => UiEventView::Press { row: *row, command: *command },
            UiEvent::Quit => UiEventView::Quit,
            UiEvent::Device(event) => UiEventView::Device(event@),
        }
    }
}

/// `identity` is that of a controllable device among the first `bound` of
/// `devices`.
pub open spec fn is_target_below(
    devices: Seq<DeviceInfoView>,
    identity: DeviceIdentity,
    bound: int,
) -> bool {
    &&& identity.position < bound <= devices.len()
    &&& identity == identity_of(devices[identity.position as int], identity.position)
    &&& is_available_spec(devices[identity.position as int])
}

/// The session for the enumeration `devices`, after the session `before`:
/// one entry for each controllable device, which is the entry that `before`
/// held for its identity, and a fresh one where it held none.
pub open spec fn resumed_session(
    before: Map<DeviceIdentity, SessionEntryView>,
    devices: Seq<DeviceInfoView>,
) -> Map<DeviceIdentity, SessionEntryView> {
    Map::new(
        |identity: DeviceIdentity| is_target_below(devices, identity, devices.len() as int),
        |identity: DeviceIdentity|
            if before.contains_key(identity) {
                before[identity]
            } else {
                unknown_entry(identity)
            },
    )
}

/// The state of the dashboard, as contracts see it.
#[verifier::ext_equal]
pub struct FnlockGuiAppView {
    pub cmd_opts: Opts,
    pub names: Seq<Seq<char>>,
    pub devices: Seq<DeviceInfoView>,
    pub to_be_lock: bool,
    pub session: Map<DeviceIdentity, SessionEntryView>,
    pub pending: Option<ToggleView>,
}

/// The labels of `devices`.
pub open spec fn labels(devices: Seq<DeviceInfoView>) -> Seq<Seq<char>> {
    devices.map_values(|device: DeviceInfoView| label_spec(device))
}

/// The dashboard as it starts on the enumeration `devices`.
pub open spec fn default_spec(cmd_opts: Opts, devices: Seq<DeviceInfoView>) -> FnlockGuiAppView {
    FnlockGuiAppView {
        cmd_opts,
        names: labels(devices),
        devices,
        to_be_lock: !cmd_opts.unlock,
        session: resumed_session(Map::empty(), devices),
        pending: None,
    }
}

/// The dashboard after a later enumeration gave `devices`. While a toggle is
/// under way the dashboard stays as it is.
pub open spec fn refresh_spec(app: FnlockGuiAppView, devices: Seq<DeviceInfoView>) -> FnlockGuiAppView {
    if app.pending is Some {
        app
    } else {
        FnlockGuiAppView {
            names: labels(devices),
            devices,
            session: resumed_session(app.session, devices),
            ..app
        }
    }
}

/// A press in row `row` begins a toggle: no toggle is under way, and the row
/// is that of a controllable device.
pub open spec fn can_begin(app: FnlockGuiAppView, row: usize) -> bool {
    &&& app.pending is None
    &&& row < app.devices.len()
    &&& is_available_spec(app.devices[row as int])
}

/// The dashboard after `event`.
pub open spec fn update_state(app: FnlockGuiAppView, event: UiEventView) -> FnlockGuiAppView {
    match event {
        UiEventView::Quit => app,
        UiEventView::Press { row, command } => if can_begin(app, row) {
            FnlockGuiAppView {
                pending: Some(begin_spec(app.devices[row as int], row, command)),
                ..app
            }
        } else {
            app
        },
        UiEventView::Device(event) => match app.pending {
            None => app,
            Some(toggle) => FnlockGuiAppView {
                session: session_after(toggle, event, app.session),
                pending: if next_phase(toggle.phase, event) == Phase::Done {
                    None
                } else {
                    Some(ToggleView { phase: next_phase(toggle.phase, event), ..toggle })
                },
                ..app
            },
        },
    }
}

/// What the dashboard asks for on `event`.
pub open spec fn update_action(app: FnlockGuiAppView, event: UiEventView) -> ActionView {
    match event {
        UiEventView::Quit => ActionView::Quit,
        UiEventView::Press { row, command } => if can_begin(app, row) {
            ActionView::Open { handle: app.devices[row as int].handle }
        } else {
            ActionView::Nothing
        },
        UiEventView::Device(event) => match app.pending {
            None => ActionView::Nothing,
            Some(toggle) => next_action(toggle, event),
        },
    }
}

/// What row `index` of the dashboard shows.
pub open spec fn row_spec(app: FnlockGuiAppView, index: int) -> RowView {
    let device = app.devices[index];
    let identity = identity_of(device, index as usize);
    let controllable = is_available_spec(device);
    RowView {
        vendor_name: device.vendor_name,
        product_name: device.product_name,
        vendor_id: hex4_spec(device.vendor_id, true),
        product_id: hex4_spec(device.product_id, true),
        usage: hex4_spec(device.usage, true),
        usage_page: hex4_spec(device.usage_page, true),
        state: state_text(
            if app.session.contains_key(identity) {
                Some(app.session[identity])
            } else {
                None
            },
        ),
        controllable,
        lock_enabled: controllable && app.pending is None && state_in(app.session, identity)
            != LockState::Locked,
        unlock_enabled: controllable && app.pending is None && state_in(app.session, identity)
            != LockState::Unlocked,
    }
}

/// The session while the first `bound` of `devices` have been looked at:
/// the entries of `before`, and a fresh one for each controllable device
/// that `before` did not know.
spec fn growing_session(
    before: Map<DeviceIdentity, SessionEntryView>,
    devices: Seq<DeviceInfoView>,
    bound: int,
) -> Map<DeviceIdentity, SessionEntryView> {
    Map::new(
        |identity: DeviceIdentity|
            before.contains_key(identity) || is_target_below(devices, identity, bound),
        |identity: DeviceIdentity|
            if before.contains_key(identity) {
                before[identity]
            } else {
                unknown_entry(identity)
            },
    )
}

/// `present` lists the identities of the controllable devices among the
/// first `bound` of `devices`.
spec fn lists_present(present: Seq<DeviceIdentity>, devices: Seq<DeviceInfoView>, bound: int) -> bool {
    forall|identity: DeviceIdentity| #[trigger]
        present.contains(identity) <==> is_target_below(devices, identity, bound)
}

/// The session for the enumeration `devices` after the session `session`.
fn resume_session(session: SessionState, devices: &Vec<DeviceInfo>) -> (resumed: SessionState)
    ensures
        resumed@ == resumed_session(session@, device_views(devices@)),
{
    let ghost before = session@;
    let ghost views = device_views(devices@);
    let mut session = session;
    let mut present: Vec<DeviceIdentity> = Vec::new();
    let mut i: usize = 0;
    assert(session@ =~= growing_session(before, views, 0));
    while i < devices.len()
        invariant
            i <= devices.len(),
            views == device_views(devices@),
            lists_present(present@, views, i as int),
            session@ == growing_session(before, views, i as int),
        decreases devices.len() - i,
    {
        assert(views[i as int] == devices[i as int]@);
        let ghost listed = present@;
        if is_device_available(&devices[i]) {
            let identity = devices[i].identity(i);
            session.track(identity);
            present.push(identity);
            assert forall|other: DeviceIdentity| #[trigger]
                present@.contains(other) <==> is_target_below(views, other, i + 1) by {
                if present@.contains(other) {
                    let k = choose|k: int| 0 <= k < present.len() && present[k] == other;
                    if k < listed.len() {
                        assert(listed[k] == other);
                        assert(listed.contains(other));
                    }
                }
                if is_target_below(views, other, i + 1) {
                    if other.position < i {
                        assert(is_target_below(views, other, i as int));
                        assert(listed.contains(other));
                        let k = choose|k: int| 0 <= k < listed.len() && listed[k] == other;
                        assert(present[k] == other);
                    } else {
                        assert(present[present.len() - 1] == other);
                    }
                }
            }
            assert(is_target_below(views, identity, i + 1));
        } else {
            assert forall|other: DeviceIdentity| #[trigger]
                present@.contains(other) <==> is_target_below(views, other, i + 1) by {
                assert(is_target_below(views, other, i + 1) <==> is_target_below(
                    views,
                    other,
                    i as int,
                ));
            }
        }
        assert(session@ =~= growing_session(before, views, i + 1));
        i = i + 1;
    }
    session.retain(present.as_slice());
    assert(session@ =~= resumed_session(before, views));
    session
}

/// The labels of `devices`, in their order.
fn label_all(devices: &Vec<DeviceInfo>) -> (names: Vec<String>)
    ensures
        names.len() == devices.len(),
        forall|i: int| 0 <= i < names.len() ==> (#[trigger] names[i])@ == label_spec(devices[i]@),
{
    let mut names: Vec<String> = Vec::new();
    let mut i: usize = 0;
    while i < devices.len()
        invariant
            i <= devices.len(),
            names.len() == i,
            forall|j: int| 0 <= j < i ==> (#[trigger] names[j])@ == label_spec(devices[j]@),
        decreases devices.len() - i,
    {
        names.push(label(&devices[i]));
        i = i + 1;
    }
    names
}

/// The state behind the dashboard: the devices of the last enumeration, what
/// was last asked of each controllable one, and the toggle under way.
#[derive(Debug)]
pub struct FnlockGuiApp {
    cmd_opts: Opts,
    names: Vec<String>,
    devices: Vec<DeviceInfo>,
    n_devices: usize,
    to_be_lock: bool,
    session: SessionState,
    pending: Option<Toggle>,
}

impl View for FnlockGuiApp {
    type V = FnlockGuiAppView;

    closed spec fn view(&self) -> FnlockGuiAppView {
        FnlockGuiAppView {
            cmd_opts: self.cmd_opts,
            names: self.names@.map_values(|name: String| name@),
            devices: device_views(self.devices@),
            to_be_lock: self.to_be_lock,
            session: self.session@,
            pending: match self.pending {
                Some(toggle) => Some(toggle@),
                None => None,
            },
        }
    }
}

impl FnlockGuiAppView {
    /// Each device has its label. The session holds one entry for each
    /// controllable device, under its identity, and none besides. A toggle
    /// under way is that of a controllable device and has not ended.
    pub open spec fn is_consistent(self) -> bool {
        &&& self.names == labels(self.devices)
        &&& forall|identity: DeviceIdentity| #[trigger]
            self.session.contains_key(identity) <==> is_target_below(
                self.devices,
                identity,
                self.devices.len() as int,
            )
        &&& self.pending matches Some(toggle) ==> {
            &&& toggle.phase != Phase::Done
            &&& is_target_below(self.devices, toggle.identity, self.devices.len() as int)
            &&& toggle.handle == self.devices[toggle.identity.position as int].handle
        }
    }
}

/// The dashboard is consistent as it starts.
pub proof fn lemma_default_is_consistent(cmd_opts: Opts, devices: Seq<DeviceInfoView>)
    ensures
        default_spec(cmd_opts, devices).is_consistent(),
{
}

/// A later enumeration leaves the dashboard consistent.
pub proof fn lemma_refresh_keeps_consistent(app: FnlockGuiAppView, devices: Seq<DeviceInfoView>)
    requires
        app.is_consistent(),
    ensures
        refresh_spec(app, devices).is_consistent(),
{
}

/// No event makes the dashboard inconsistent: the session gains and loses no
/// entry, and a failure on one device leaves the entries of the others alone.
pub proof fn lemma_update_keeps_consistent(app: FnlockGuiAppView, event: UiEventView)
    requires
        app.is_consistent(),
    ensures
        update_state(app, event).is_consistent(),
        update_state(app, event).devices == app.devices,
        update_state(app, event).names == app.names,
        forall|other: DeviceIdentity|
            (app.pending matches Some(toggle) ==> other != toggle.identity)
                && app.session.contains_key(other) ==> update_state(app, event).session[other]
                == app.session[other],
{
}

impl FnlockGuiApp {
    #[verifier::type_invariant]
    spec fn is_consistent(self) -> bool {
        &&& self.n_devices == self.devices.len()
        &&& self.names.len() == self.devices.len()
        &&& forall|i: int|
            0 <= i < self.names.len() ==> (#[trigger] self.names[i])@ == label_spec(
                self.devices[i]@,
            )
        &&& self.pending matches Some(toggle) ==> toggle@.phase != Phase::Done
    }

    /// The dashboard for the enumeration `devices`: every device is listed,
    /// and each controllable one gets a session entry of which nothing has
    /// been asked yet.
    pub fn default_with_opts(cmd_opts: Opts, devices: Vec<DeviceInfo>) -> (app: FnlockGuiApp)
        ensures
            app@ == default_spec(cmd_opts, device_views(devices@)),
    {
        let names = label_all(&devices);
        let session = resume_session(SessionState::new(), &devices);
        let to_be_lock = !cmd_opts.unlock;
        let app = FnlockGuiApp {
            cmd_opts,
            n_devices: devices.len(),
            names,
            devices,
            to_be_lock,
            session,
            pending: None,
        };
        assert(app@.names =~= labels(app@.devices));
        app
    }

    /// Takes the devices of a later enumeration. The entry of a device that
    /// is still there stays, the entry of one that has gone is dropped, and a
    /// new controllable device gets a fresh entry. While a toggle is under
    /// way nothing changes, and the answer is `false`.
    pub fn refresh(&mut self, devices: Vec<DeviceInfo>) -> (refreshed: bool)
        ensures
            final(self)@ == refresh_spec(old(self)@, device_views(devices@)),
            refreshed == (old(self)@.pending is None),
    {
        proof {
            use_type_invariant(&*self);
        }
        if self.pending.is_some() {
            return false;
        }
        let mut session = SessionState::new();
        core::mem::swap(&mut self.session, &mut session);
        let names = label_all(&devices);
        let session = resume_session(session, &devices);
        let ghost expected = refresh_spec(old(self)@, device_views(devices@));
        let app = FnlockGuiApp {
            cmd_opts: self.cmd_opts,
            n_devices: devices.len(),
            names,
            devices,
            to_be_lock: self.to_be_lock,
            session,
            pending: None,
        };
        assert(app@.names =~= expected.names);
        assert(app@ == expected);
        *self = app;
        true
    }

    /// Answers an event of the front end with the action to carry out.
    ///
    /// A press on a controllable row begins a toggle, unless one is under
    /// way: the device is to be opened. What the front end reports of a
    /// device goes to the toggle under way, which asks for the write, has the
    /// outcome recorded and the handle released. A press that repeats the
    /// commanded state is carried out like any other.
    pub fn update(&mut self, event: UiEvent) -> (action: Action)
        ensures
            final(self)@ == update_state(old(self)@, event@),
            action@ == update_action(old(self)@, event@),
    {
        proof {
            use_type_invariant(&*self);
        }
        match event {
            UiEvent::Quit => Action::Quit,
            UiEvent::Press { row, command } => {
                if self.pending.is_none() && row < self.n_devices && is_device_available(
                    &self.devices[row],
                ) {
                    let (toggle, action) = Toggle::begin(&self.devices[row], row, command);
                    self.pending = Some(toggle);
                    action
                } else {
                    Action::Nothing
                }
            },
            UiEvent::Device(event) => {
                let mut pending: Option<Toggle> = None;
                core::mem::swap(&mut self.pending, &mut pending);
                match pending {
                    None => Action::Nothing,
                    Some(toggle) => {
                        let mut toggle = toggle;
                        let mut session = SessionState::new();
                        core::mem::swap(&mut self.session, &mut session);
                        let action = toggle.step(event, &mut session);
                        self.session = session;
                        if toggle.phase() != Phase::Done {
                            self.pending = Some(toggle);
                        }
                        action
                    },
                }
            },
        }
    }

    /// What row `index` shows, if there is such a row.
    pub fn row(&self, index: usize) -> (row: Option<Row>)
        ensures
            match row {
                Some(row) => index < self@.devices.len() && row@ == row_spec(self@, index as int),
                None => index >= self@.devices.len(),
            },
    {
        proof {
            use_type_invariant(self);
        }
        if index >= self.n_devices {
            return None;
        }
        let device = &self.devices[index];
        let entry = self.session.get(device.identity(index));
        let controllable = is_device_available(device);
        let idle = self.pending.is_none();
        let state = match entry {
            Some(entry) => entry.state(),
            None => LockState::Unknown,
        };
        Some(
            Row {
                vendor_name: device.vendor_name().to_owned(),
                product_name: device.product_name().to_owned(),
                vendor_id: hex4(device.vendor_id(), true),
                product_id: hex4(device.product_id(), true),
                usage: hex4(device.usage(), true),
                usage_page: hex4(device.usage_page(), true),
                state: state_cell(entry),
                controllable,
                lock_enabled: controllable && idle && state != LockState::Locked,
                unlock_enabled: controllable && idle && state != LockState::Unlocked,
            },
        )
    }

    /// The number of rows.
    pub fn n_devices(&self) -> (n: usize)
        ensures
            n == self@.devices.len(),
    {
        proof {
            use_type_invariant(self);
        }
        self.n_devices
    }

    /// The devices of the last enumeration.
    pub fn devices(&self) -> (devices: &Vec<DeviceInfo>)
        ensures
            device_views(devices@) == self@.devices,
    {
        &self.devices
    }

    /// The label of each device.
    pub fn names(&self) -> (names: &Vec<String>)
        ensures
            names@.map_values(|name: String| name@) == self@.names,
            self@.names == labels(self@.devices),
    {
        proof {
            use_type_invariant(self);
            assert(self@.names =~= labels(self@.devices));
        }
        &self.names
    }

    /// What was last asked of each controllable device.
    pub fn session(&self) -> (session: &SessionState)
        ensures
            session@ == self@.session,
    {
        &self.session
    }

    /// The options that the program was started with.
    pub fn cmd_opts(&self) -> (opts: Opts)
        ensures
            opts == self@.cmd_opts,
    {
        self.cmd_opts
    }

    /// Whether the program was started to lock.
    pub fn to_be_lock(&self) -> (lock: bool)
        ensures
            lock == self@.to_be_lock,
    {
        self.to_be_lock
    }

    /// Whether a toggle is under way.
    pub fn is_busy(&self) -> (busy: bool)
        ensures
            busy == (self@.pending is Some),
    {
        self.pending.is_some()
    }
}

} // verus!
