//! Application-wide state, and how events change it.
//!
//! This is the functional core: every event turns one state into the next,
//! time is always given as an argument, and what the panel should show is
//! derived from the state on demand.
use vstd::prelude::*;
use crate::animation::{
    opt_name_view, same_contents, Contents, Timestamp, HIDING_TIMEOUT,
};
use crate::animation;
use crate::commands::{Commands, SetLayout};
use crate::debug;
use crate::imservice::{ContentHint, ContentPurpose};
use crate::layout::ArrangementKind;
use crate::outputs::{
    find_output, first_output, lowest_output, output_map, outputs_wf, physical_size, pixel_size,
    remove_output, upsert_output, ChangeType, OutputId, OutputState, SizePixels,
};
use crate::outputs;
use crate::panel;
use crate::panel::PixelSize;
use crate::popover::LayoutId;

pub mod visibility;

verus! {

/// Whether a physical keyboard is attached.
#[derive(Clone, Copy, Debug, PartialEq, Eq, Structural)]
pub enum Presence {
    Present,
    Missing,
}

/// What the input method says of the text field in focus.
#[derive(Clone, Copy, Debug, PartialEq, Eq, Structural)]
pub struct InputMethodDetails {
    pub hint: ContentHint,
    pub purpose: ContentPurpose,
}

/// Whether a text field wants input, or since when none has.
#[derive(Clone, Copy, Debug, PartialEq, Eq, Structural)]
pub enum InputMethod {
    Active(InputMethodDetails),
    InactiveSince(Timestamp),
}

/// Where the user's layout preference comes from.
#[derive(Clone, Debug, PartialEq)]
pub enum LayoutSource {
    Xkb,
    Other(String),
}

impl From<String> for LayoutSource {
    fn from(v: String) -> Self {
        let xkb = String::from_str("xkb");
        if v == xkb {
            LayoutSource::Xkb
        } else {
            LayoutSource::Other(v)
        }
    }
}

impl vstd::std_specs::convert::FromSpecImpl<String> for LayoutSource {
    open spec fn obeys_from_spec() -> bool {
        true
    }

    open spec fn from_spec(v: String) -> LayoutSource {
        if v@ == "xkb"@ {
            LayoutSource::Xkb
        } else {
            LayoutSource::Other(v)
        }
    }
}

/// The user's preferred system layout.
#[derive(Clone, Debug, PartialEq)]
pub struct LayoutChoice {
    pub name: String,
    pub source: LayoutSource,
}

/// Incoming events: everything that changes the state.
#[derive(Clone, Debug, PartialEq)]
pub enum Event {
    InputMethod(InputMethod),
    Visibility(visibility::Event),
    PhysicalKeyboard(Presence),
    Output(outputs::Event),
    LayoutChoice(LayoutChoice),
    OverlayChanged(LayoutId),
    Debug(debug::Event),
    /// A moment in time passed; the value is the ideal arrival time.
    /// It changes nothing, and only asks for the outcome to be derived again.
    TimeoutReached(Timestamp),
}

impl Event {
    /// The event that a timer sends when it fires.
    pub fn new_timeout_reached(when: Timestamp) -> (r: Event)
        ensures
            r == Event::TimeoutReached(when),
    {
        Event::TimeoutReached(when)
    }

    /// When a timer event was due, if this is one.
    pub fn get_timeout_reached(&self) -> (r: Option<Timestamp>)
        ensures
            r == match *self {
                Event::TimeoutReached(when) => Some(when),
                _ => None,
            },
    {
        match self {
            Event::TimeoutReached(when) => Some(*when),
            _ => None,
        }
    }
}

impl From<InputMethod> for Event {
    fn from(im: InputMethod) -> Self {
        Event::InputMethod(im)
    }
}

impl vstd::std_specs::convert::FromSpecImpl<InputMethod> for Event {
    open spec fn obeys_from_spec() -> bool {
        true
    }

    open spec fn from_spec(im: InputMethod) -> Event {
        Event::InputMethod(im)
    }
}

impl From<outputs::Event> for Event {
    fn from(ev: outputs::Event) -> Self {
        Event::Output(ev)
    }
}

impl vstd::std_specs::convert::FromSpecImpl<outputs::Event> for Event {
    open spec fn obeys_from_spec() -> bool {
        true
    }

    open spec fn from_spec(ev: outputs::Event) -> Event {
        Event::Output(ev)
    }
}


/// The outwardly visible state.
#[derive(Clone, Debug, PartialEq)]
pub struct Outcome {
    pub panel: animation::Outcome,
    pub im: InputMethod,
}

/// The state of the whole application.
///
/// It keeps the panel visible for a short while after each hide request, so
/// that quick successive enable and disable events do not make it flicker.
#[derive(Clone, Debug, PartialEq)]
pub struct Application {
    pub im: InputMethod,
    pub visibility_override: visibility::State,
    pub physical_keyboard: Presence,
    pub debug_mode_enabled: bool,
    /// The output on which the panel should appear.
    pub preferred_output: Option<OutputId>,
    /// The known outputs, in ascending order of identity.
    pub outputs: Vec<(OutputId, OutputState)>,
    /// The user's system layout preference; a default until one arrives.
    pub layout_choice: LayoutChoice,
    /// A layout picked by hand over the system's.
    pub overlay_layout: Option<LayoutId>,
}

/// The override that a user request sets.
pub open spec fn forced(v: visibility::Event) -> visibility::State {
    match v {
        visibility::Event::ForceHidden => visibility::State::ForcedHidden,
        visibility::Event::ForceVisible => visibility::State::ForcedVisible,
    }
}

/// The moment twice the hiding timeout before `now`.
pub open spec fn backdated(now: Timestamp) -> Timestamp {
    Timestamp((now.0 - 2 * HIDING_TIMEOUT) as i64)
}

/// `now` leaves room on the clock for back-dating by twice the hiding timeout.
pub open spec fn room_to_backdate(now: Timestamp) -> bool {
    now.0 >= i64::MIN + 2 * HIDING_TIMEOUT
}

/// The earlier of two moments.
pub open spec fn earlier(a: Timestamp, b: Timestamp) -> Timestamp {
    if a.0 <= b.0 {
        a
    } else {
        b
    }
}

/// The input method state and override after the input method reports `new`.
pub open spec fn next_input_method(
    old: InputMethod,
    new: InputMethod,
    over: visibility::State,
    now: Timestamp,
) -> (InputMethod, visibility::State) {
    match (old, new) {
        (InputMethod::Active(_), InputMethod::Active(d)) => (InputMethod::Active(d), over),
        (InputMethod::InactiveSince(_), InputMethod::Active(d)) => (
            InputMethod::Active(d),
            visibility::State::NotForced,
        ),
        (InputMethod::Active(_), InputMethod::InactiveSince(since)) => if over
            == visibility::State::ForcedHidden {
            (InputMethod::InactiveSince(backdated(now)), visibility::State::NotForced)
        } else {
            (InputMethod::InactiveSince(since), visibility::State::NotForced)
        },
        (InputMethod::InactiveSince(o), InputMethod::InactiveSince(n)) => (
            InputMethod::InactiveSince(earlier(o, n)),
            over,
        ),
    }
}

/// The preferred output after a change to the outputs.
pub open spec fn next_preferred(
    preferred: Option<OutputId>,
    ev: outputs::Event,
    remaining: Map<OutputId, OutputState>,
) -> Option<OutputId> {
    match ev.change {
        ChangeType::Altered(_) => match preferred {
            Some(p) => Some(p),
            None => Some(ev.output),
        },
        ChangeType::Removed => if preferred == Some(ev.output) {
            lowest_output(remaining)
        } else {
            preferred
        },
    }
}

/// The outputs after a change.
pub open spec fn next_outputs(m: Map<OutputId, OutputState>, ev: outputs::Event) -> Map<
    OutputId,
    OutputState,
> {
    match ev.change {
        ChangeType::Altered(st) => m.insert(ev.output, st),
        ChangeType::Removed => m.remove(ev.output),
    }
}

/// `new` is the state after `event` arrived at `now` in state `old`.
pub open spec fn transition(old: Application, event: Event, now: Timestamp, new: Application) -> bool {
    match event {
        Event::Debug(d) => new == Application { debug_mode_enabled: d == debug::Event::Enable, ..old },
        Event::TimeoutReached(_) => new == old,
        Event::Visibility(v) => new == Application { visibility_override: forced(v), ..old },
        Event::PhysicalKeyboard(p) => new == Application { physical_keyboard: p, ..old },
        Event::Output(ev) => new == Application {
            outputs: new.outputs,
            preferred_output: new.preferred_output,
            ..old
        } && output_map(new.outputs@) == next_outputs(output_map(old.outputs@), ev)
            && new.preferred_output == next_preferred(
            old.preferred_output,
            ev,
            output_map(new.outputs@),
        ),
        Event::InputMethod(im) => {
            let (next_im, next_over) = next_input_method(old.im, im, old.visibility_override, now);
            new == Application { im: next_im, visibility_override: next_over, ..old }
        },
        Event::LayoutChoice(c) => new == Application { layout_choice: c, overlay_layout: None, ..old },
        Event::OverlayChanged(id) => new == Application { overlay_layout: Some(id), ..old },
    }
}

impl Application {
    /// The outputs are in order, and the preferred one is among them.
    pub open spec fn wf(&self) -> bool {
        &&& outputs_wf(self.outputs@)
        &&& match self.preferred_output {
            Some(p) => output_map(self.outputs@).contains_key(p),
            None => true,
        }
    }

    /// A conservative start, ignoring the actual state of things: no outputs,
    /// no physical keyboard, the input method inactive since `now`, and the
    /// layout "us" of XKB.
    pub fn new(now: Timestamp) -> (r: Application)
        ensures
            r.wf(),
            r.im == InputMethod::InactiveSince(now),
            r.visibility_override == visibility::State::NotForced,
            r.physical_keyboard == Presence::Missing,
            !r.debug_mode_enabled,
            r.preferred_output.is_none(),
            r.outputs@.len() == 0,
            r.layout_choice.name@ == "us"@,
            r.layout_choice.source == LayoutSource::Xkb,
            r.overlay_layout.is_none(),
    {
        Application {
            im: InputMethod::InactiveSince(now),
            visibility_override: visibility::State::NotForced,
            physical_keyboard: Presence::Missing,
            debug_mode_enabled: false,
            preferred_output: None,
            outputs: Vec::new(),
            layout_choice: LayoutChoice { name: String::from_str("us"), source: LayoutSource::Xkb },
            overlay_layout: None,
        }
    }

    /// The state after a change to the outputs; the moment plays no part.
    fn apply_output_event(self, ev: outputs::Event) -> (r: Application)
        requires
            self.wf(),
        ensures
            r.wf(),
            transition(self, Event::Output(ev), Timestamp(0), r),
    {
        let mut app = self;
        match ev.change {
            ChangeType::Altered(st) => {
                upsert_output(&mut app.outputs, ev.output, st);
                app.preferred_output = match app.preferred_output {
                    Some(p) => Some(p),
                    None => Some(ev.output),
                };
            },
            ChangeType::Removed => {
                remove_output(&mut app.outputs, ev.output);
                let was_preferred = match app.preferred_output {
                    Some(p) => p.0 == ev.output.0,
                    None => false,
                };
                if was_preferred {
                    app.preferred_output = first_output(&app.outputs);
                }
            },
        }
        app
    }

    /// The state after `event` arrives at `now`. Every event is handled.
    /// An input method event may back-date the inactivity by twice the hiding
    /// timeout, which must fit on the clock.
    pub fn apply_event(self, event: Event, now: Timestamp) -> (r: Application)
        requires
            self.wf(),
            event is InputMethod ==> room_to_backdate(now),
        ensures
            r.wf(),
            transition(self, event, now, r),
    {
        match event {
            Event::Debug(dbg) => Application {
                debug_mode_enabled: match dbg {
                    debug::Event::Enable => true,
                    debug::Event::Disable => false,
                },
                ..self
            },
            Event::TimeoutReached(_) => self,
            Event::Visibility(v) => Application {
                visibility_override: match v {
                    visibility::Event::ForceHidden => visibility::State::ForcedHidden,
                    visibility::Event::ForceVisible => visibility::State::ForcedVisible,
                },
                ..self
            },
            Event::PhysicalKeyboard(presence) => Application { physical_keyboard: presence, ..self },
            Event::Output(ev) => self.apply_output_event(ev),
            Event::InputMethod(new_im) => match (self.im, new_im) {
                (InputMethod::Active(_), InputMethod::Active(d)) => Application {
                    im: InputMethod::Active(d),
                    ..self
                },
                (InputMethod::InactiveSince(_), InputMethod::Active(d)) => Application {
                    im: InputMethod::Active(d),
                    visibility_override: visibility::State::NotForced,
                    ..self
                },
                (InputMethod::Active(_), InputMethod::InactiveSince(since)) => {
                    let forced_hidden = match self.visibility_override {
                        visibility::State::ForcedHidden => true,
                        _ => false,
                    };
                    if forced_hidden {
                        // Avoid the hiding animation when the panel was already forced down.
                        let back = now.0 - 2 * HIDING_TIMEOUT;
                        Application {
                            im: InputMethod::InactiveSince(Timestamp(back)),
                            visibility_override: visibility::State::NotForced,
                            ..self
                        }
                    } else {
                        Application {
                            im: InputMethod::InactiveSince(since),
                            visibility_override: visibility::State::NotForced,
                            ..self
                        }
                    }
                },
                (InputMethod::InactiveSince(old), InputMethod::InactiveSince(new)) => {
                    // It was already inactive at the earlier moment.
                    let since = if old.0 <= new.0 {
                        old
                    } else {
                        new
                    };
                    Application { im: InputMethod::InactiveSince(since), ..self }
                },
            },
            Event::LayoutChoice(layout_choice) => Application {
                layout_choice,
                overlay_layout: None,
                ..self
            },
            Event::OverlayChanged(overlay_layout) => Application {
                overlay_layout: Some(overlay_layout),
                ..self
            },
        }
    }
}


/// The height of one button row, as the ratio `IDEAL_BUTTON_SIZE_NUM / IDEAL_BUTTON_SIZE_DEN`
/// in millimeters: 9.48 mm, what works well on a phone of about 281 DPI.
pub const IDEAL_BUTTON_SIZE_NUM: u64 = 948;

/// See `IDEAL_BUTTON_SIZE_NUM`.
pub const IDEAL_BUTTON_SIZE_DEN: u64 = 100;

/// The number of button rows the panel is sized for.
pub const ROW_COUNT: u64 = 4;

/// The pixel density assumed where the physical width is not known, in
/// pixels per millimeter: `DEFAULT_DENSITY_NUM / DEFAULT_DENSITY_DEN`.
pub const DEFAULT_DENSITY_NUM: u64 = 720;

/// See `DEFAULT_DENSITY_NUM`.
pub const DEFAULT_DENSITY_DEN: u64 = 65;

/// The height to width ratio at which the wide shape is chosen,
/// `WIDE_RATIO_NUM / WIDE_RATIO_DEN`; it also caps the wide shape's height.
pub const WIDE_RATIO_NUM: u64 = 188;

/// See `WIDE_RATIO_NUM`.
pub const WIDE_RATIO_DEN: u64 = 540;

/// The height to width ratio that caps the base shape's height,
/// `BASE_RATIO_NUM / BASE_RATIO_DEN`.
pub const BASE_RATIO_NUM: u64 = 210;

/// See `BASE_RATIO_NUM`.
pub const BASE_RATIO_DEN: u64 = 360;

/// `a / b`, rounded up.
pub open spec fn ceil_div(a: nat, b: nat) -> nat
    recommends
        b > 0,
{
    ((a + b - 1) as nat / b) as nat
}

/// The pixel density, as pixels over millimeters: from the physical width
/// where it is known, else the default.
pub open spec fn density(o: OutputState, px: SizePixels) -> (nat, nat) {
    let default = (DEFAULT_DENSITY_NUM as nat, DEFAULT_DENSITY_DEN as nat);
    match physical_size(o) {
        Some(size) => match size.width {
            Some(w) => if w > 0 {
                (px.width as nat, w as nat)
            } else {
                default
            },
            None => default,
        },
        None => default,
    }
}

/// The height in pixels that `ROW_COUNT` rows of ideal buttons take, rounded up.
pub open spec fn ideal_height(num: nat, den: nat) -> nat {
    ceil_div((IDEAL_BUTTON_SIZE_NUM * ROW_COUNT * num) as nat, (IDEAL_BUTTON_SIZE_DEN * den) as nat)
}

/// The shape chosen for a panel of ideal height `ideal` on a picture `width`
/// pixels wide: the base shape where the ideal height is more than the wide
/// ratio of the width.
pub open spec fn arrangement_for(ideal: nat, width: nat) -> ArrangementKind {
    if WIDE_RATIO_NUM * width < ideal * WIDE_RATIO_DEN {
        ArrangementKind::Base
    } else {
        ArrangementKind::Wide
    }
}

/// The height cap of the shape on a picture `width` pixels wide, rounded up.
pub open spec fn shape_cap(kind: ArrangementKind, width: nat) -> nat {
    match kind {
        ArrangementKind::Base => ceil_div((BASE_RATIO_NUM * width) as nat, BASE_RATIO_DEN as nat),
        ArrangementKind::Wide => ceil_div((WIDE_RATIO_NUM * width) as nat, WIDE_RATIO_DEN as nat),
    }
}

/// The smaller of two numbers.
pub open spec fn min_nat(a: nat, b: nat) -> nat {
    if a <= b {
        a
    } else {
        b
    }
}

/// The panel's height and shape on an output, where its pixel size is known:
/// the ideal height, capped by the shape's ratio of the width and by half the
/// picture's height.
pub open spec fn preferred_height(o: OutputState) -> Option<(PixelSize, ArrangementKind)> {
    match pixel_size(o) {
        None => None,
        Some(px) => {
            let (num, den) = density(o, px);
            let ideal = ideal_height(num, den);
            let kind = arrangement_for(ideal, px.width as nat);
            let pixels = min_nat(min_nat(ideal, shape_cap(kind, px.width as nat)), (px.height / 2) as nat);
            Some((PixelSize { scale_factor: o.scale, pixels: pixels as u32 }, kind))
        },
    }
}

fn ceil_div_exec(a: u64, b: u64) -> (r: u64)
    requires
        b > 0,
        a + b <= u64::MAX,
    ensures
        r == ceil_div(a as nat, b as nat),
{
    (a + b - 1) / b
}

impl Application {
    /// The panel's height and shape on an output; none where the output's
    /// pixel size is not known. All of it is exact integer arithmetic.
    pub fn get_preferred_height_and_arrangement(output: &OutputState) -> (r: Option<(PixelSize, ArrangementKind)>)
        ensures
            r == preferred_height(*output),
    {
        let px = match output.get_pixel_size() {
            None => return None,
            Some(px) => px,
        };
        let (num, den): (u64, u64) = match output.get_physical_size() {
            Some(size) => match size.width {
                Some(w) => if w > 0 {
                    (px.width as u64, w as u64)
                } else {
                    (DEFAULT_DENSITY_NUM, DEFAULT_DENSITY_DEN)
                },
                None => (DEFAULT_DENSITY_NUM, DEFAULT_DENSITY_DEN),
            },
            None => (DEFAULT_DENSITY_NUM, DEFAULT_DENSITY_DEN),
        };
        assert(num <= u32::MAX && 1 <= den <= u32::MAX);
        assert(IDEAL_BUTTON_SIZE_NUM * ROW_COUNT * num <= 3792 * (u32::MAX as u64)) by (nonlinear_arith)
            requires
                num <= u32::MAX;
        assert(IDEAL_BUTTON_SIZE_DEN * den <= 100 * (u32::MAX as u64)) by (nonlinear_arith)
            requires
                den <= u32::MAX;
        let ideal = ceil_div_exec(IDEAL_BUTTON_SIZE_NUM * ROW_COUNT * num, IDEAL_BUTTON_SIZE_DEN * den);
        assert(ideal <= 3892 * (u32::MAX as u64)) by {
            let a = IDEAL_BUTTON_SIZE_NUM * ROW_COUNT * num;
            let b = IDEAL_BUTTON_SIZE_DEN * den;
            let x: int = a + b - 1;
            assert(x / (b as int) <= x) by (nonlinear_arith)
                requires
                    b >= 1,
                    x >= 0;
        }
        let width = px.width as u64;
        let base = WIDE_RATIO_NUM * width < ideal * WIDE_RATIO_DEN;
        let kind = if base {
            ArrangementKind::Base
        } else {
            ArrangementKind::Wide
        };
        let cap = if base {
            ceil_div_exec(BASE_RATIO_NUM * width, BASE_RATIO_DEN)
        } else {
            ceil_div_exec(WIDE_RATIO_NUM * width, WIDE_RATIO_DEN)
        };
        let mut pixels = if ideal <= cap {
            ideal
        } else {
            cap
        };
        let half = (px.height / 2) as u64;
        if half < pixels {
            pixels = half;
        }
        Some((PixelSize { scale_factor: output.scale, pixels: pixels as u32 }, kind))
    }
}


/// Whether the panel shows at `now`: never without a preferred output; else
/// as the user forced it; else not while a physical keyboard is attached;
/// else while the input method is active, and until `HIDING_TIMEOUT` after
/// it went inactive.
pub open spec fn visible_at(app: Application, now: Timestamp) -> bool {
    &&& app.preferred_output.is_some()
    &&& match app.visibility_override {
        visibility::State::ForcedHidden => false,
        visibility::State::ForcedVisible => true,
        visibility::State::NotForced => match app.physical_keyboard {
            Presence::Present => false,
            Presence::Missing => match app.im {
                InputMethod::Active(_) => true,
                InputMethod::InactiveSince(since) => now.0 < since.0 + HIDING_TIMEOUT,
            },
        },
    }
}

/// The name of the layout to show: that of a system overlay, else the
/// user's choice.
pub open spec fn layout_name(app: Application) -> Seq<char> {
    match app.overlay_layout {
        Some(LayoutId::System { name }) => name@,
        _ => app.layout_choice.name@,
    }
}

/// The name of a local overlay, if one is picked.
pub open spec fn overlay_name(app: Application) -> Option<Seq<char>> {
    match app.overlay_layout {
        Some(LayoutId::Local(name)) => Some(name@),
        _ => None,
    }
}

/// The purpose of the text field, or the normal one without a field.
pub open spec fn purpose_of(im: InputMethod) -> ContentPurpose {
    match im {
        InputMethod::Active(d) => d.purpose,
        InputMethod::InactiveSince(_) => ContentPurpose::Normal,
    }
}

/// The panel's size and shape on the preferred output, or a zero height in
/// the base shape where the output's size is not known.
pub open spec fn panel_size(app: Application) -> (PixelSize, ArrangementKind) {
    match preferred_height(output_map(app.outputs@)[app.preferred_output.unwrap()]) {
        Some(x) => x,
        None => (PixelSize { pixels: 0, scale_factor: 1 }, ArrangementKind::Base),
    }
}

/// `r` is the outcome of `app` at `now`.
pub open spec fn outcome_of(app: Application, now: Timestamp, r: Outcome) -> bool {
    &&& r.im == app.im
    &&& (r.panel is Visible) == visible_at(app, now)
    &&& match r.panel {
        animation::Outcome::Visible { output, height, contents } => {
            &&& app.preferred_output == Some(output)
            &&& (height, contents.kind) == panel_size(app)
            &&& contents.name@ == layout_name(app)
            &&& opt_name_view(contents.overlay_name) == overlay_name(app)
            &&& contents.purpose == purpose_of(app.im)
        },
        animation::Outcome::Hidden => true,
    }
}

/// The moment at which the outcome may next change by time alone: the end of
/// the hiding delay, where the input method is inactive, nothing is forced,
/// and that end is still ahead (and on the clock).
pub open spec fn next_wake(app: Application, now: Timestamp) -> Option<Timestamp> {
    match (app.visibility_override, app.im) {
        (visibility::State::NotForced, InputMethod::InactiveSince(since)) => if now.0 < since.0
            + HIDING_TIMEOUT && since.0 + HIDING_TIMEOUT <= i64::MAX {
            Some(Timestamp((since.0 + HIDING_TIMEOUT) as i64))
        } else {
            None
        },
        _ => None,
    }
}

/// `r` holds the commands that reach `new` from `old`: the panel's visibility
/// always, and the layout only where the new contents differ from the old.
pub open spec fn commands_between(old: Outcome, new: Outcome, r: Commands) -> bool {
    match new.panel {
        animation::Outcome::Visible { output, height, contents } => {
            &&& r.panel_visibility == Some(panel::Command::Show { output, height })
            &&& r.dbus_visible_set == Some(true)
            &&& match old.panel {
                animation::Outcome::Visible { contents: old_contents, .. } if same_contents(
                    old_contents,
                    contents,
                ) => r.layout_selection.is_none(),
                _ => r.layout_selection == Some(SetLayout { description: contents }),
            }
        },
        animation::Outcome::Hidden => {
            &&& r.panel_visibility == Some(panel::Command::Hide)
            &&& r.dbus_visible_set == Some(false)
            &&& r.layout_selection.is_none()
        },
    }
}

impl Outcome {
    /// The commands needed to reach `new_state`. They bring about the whole
    /// new state rather than the difference, and their receivers treat one
    /// that is already met as a no-op; only the layout is left out where it
    /// did not change, as loading it may look into the file system.
    pub fn get_commands_to_reach(&self, new_state: &Outcome) -> (r: Commands)
        ensures
            commands_between(*self, *new_state, r),
    {
        match &new_state.panel {
            animation::Outcome::Visible { output, height, contents } => {
                let same = match &self.panel {
                    animation::Outcome::Visible { contents: old_contents, .. } => old_contents.same_as(contents),
                    animation::Outcome::Hidden => false,
                };
                let layout_selection = if same {
                    None
                } else {
                    Some(SetLayout { description: contents.duplicate() })
                };
                Commands {
                    panel_visibility: Some(panel::Command::Show { output: *output, height: *height }),
                    dbus_visible_set: Some(true),
                    layout_selection,
                }
            },
            animation::Outcome::Hidden => Commands {
                panel_visibility: Some(panel::Command::Hide),
                dbus_visible_set: Some(false),
                layout_selection: None,
            },
        }
    }
}

fn copy_string(s: &String) -> (r: String)
    ensures
        r == *s,
{
    s.clone()
}

impl Application {
    /// The layout name, and the name of a local overlay, to show.
    pub fn get_layout_names(&self) -> (r: (String, Option<String>))
        ensures
            r.0@ == layout_name(*self),
            opt_name_view(r.1) == overlay_name(*self),
    {
        let name = match &self.overlay_layout {
            Some(LayoutId::System { name }) => copy_string(name),
            _ => copy_string(&self.layout_choice.name),
        };
        let overlay = match &self.overlay_layout {
            Some(LayoutId::Local(name)) => Some(copy_string(name)),
            _ => None,
        };
        (name, overlay)
    }

    /// Whether the state is well formed: the outputs in ascending order of
    /// identity, and the preferred output among them.
    pub fn is_consistent(&self) -> (r: bool)
        ensures
            r == self.wf(),
    {
        let ghost s = self.outputs@;
        let mut k: usize = 1;
        while k < self.outputs.len()
            invariant
                1 <= k,
                s == self.outputs@,
                k <= s.len() || s.len() == 0,
                forall|i: int, j: int| 0 <= i < j < k && j < s.len() ==> s[i].0.0 < s[j].0.0,
            decreases s.len() - k,
        {
            if self.outputs[k - 1].0.0 >= self.outputs[k].0.0 {
                assert(!outputs_wf(s)) by {
                    assert(s[k - 1].0.0 >= s[k as int].0.0);
                }
                return false;
            }
            proof {
                assert forall|i: int, j: int| 0 <= i < j < k + 1 && j < s.len() implies s[i].0.0 < s[j].0.0 by {
                    if j == k && i < k - 1 {
                        assert(s[i].0.0 < s[k - 1].0.0);
                    }
                }
            }
            k += 1;
        }
        assert(outputs_wf(s));
        match self.preferred_output {
            None => true,
            Some(p) => {
                let mut q: usize = 0;
                while q < self.outputs.len()
                    invariant
                        q <= s.len(),
                        s == self.outputs@,
                        self.preferred_output == Some(p),
                        outputs_wf(s),
                        forall|i: int| 0 <= i < q ==> s[i].0 != p,
                    decreases s.len() - q,
                {
                    if self.outputs[q].0.0 == p.0 {
                        assert(s[q as int].0 == p);
                        assert(output_map(s).dom().contains(p));
                        return true;
                    }
                    q += 1;
                }
                assert(!output_map(s).contains_key(p)) by {
                    if output_map(s).contains_key(p) {
                        let i = choose|i: int| 0 <= i < s.len() && s[i].0 == p;
                        assert(s[i].0 == p);
                    }
                }
                false
            },
        }
    }

    /// What the panel should be at `now`.
    pub fn get_outcome(&self, now: Timestamp) -> (r: Outcome)
        requires
            self.wf(),
        ensures
            outcome_of(*self, now, r),
    {
        let panel = match self.preferred_output {
            None => animation::Outcome::Hidden,
            Some(output) => {
                let state = find_output(&self.outputs, output);
                let (height, arrangement) = match Self::get_preferred_height_and_arrangement(&state) {
                    Some(x) => x,
                    None => (PixelSize { pixels: 0, scale_factor: 1 }, ArrangementKind::Base),
                };
                let visible = match self.visibility_override {
                    visibility::State::ForcedHidden => false,
                    visibility::State::ForcedVisible => true,
                    visibility::State::NotForced => match self.physical_keyboard {
                        Presence::Present => false,
                        Presence::Missing => match self.im {
                            InputMethod::Active(_) => true,
                            InputMethod::InactiveSince(since) => since.0 > i64::MAX - HIDING_TIMEOUT || now.0 < since.0 + HIDING_TIMEOUT,
                        },
                    },
                };
                if visible {
                    let (layout_name, overlay) = self.get_layout_names();
                    animation::Outcome::Visible {
                        output,
                        height,
                        contents: Contents {
                            kind: arrangement,
                            name: layout_name,
                            overlay_name: overlay,
                            purpose: match self.im {
                                InputMethod::Active(d) => d.purpose,
                                InputMethod::InactiveSince(_) => ContentPurpose::Normal,
                            },
                        },
                    }
                } else {
                    animation::Outcome::Hidden
                }
            },
        };
        Outcome { panel, im: self.im }
    }

    /// The next moment at which to derive the outcome again, if time alone
    /// can change it.
    pub fn get_next_wake(&self, now: Timestamp) -> (r: Option<Timestamp>)
        ensures
            r == next_wake(*self, now),
    {
        match (self.visibility_override, self.im) {
            (visibility::State::NotForced, InputMethod::InactiveSince(since)) => {
                if since.0 <= i64::MAX - HIDING_TIMEOUT && now.0 < since.0 + HIDING_TIMEOUT {
                    Some(Timestamp(since.0 + HIDING_TIMEOUT))
                } else {
                    None
                }
            },
            _ => None,
        }
    }
}

} // verus!
