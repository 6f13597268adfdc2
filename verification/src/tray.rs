//! Tray decisions: the aggregate state and its dot color, the dot's geometry,
//! menu dispatch, window toggling, close-to-tray and the tooltip text.
use crate::models::ProviderState;
use crate::provider::{worst, worst_spec};
use crate::text::{owned, str_eq};
use vstd::prelude::*;
use vstd::std_specs::convert::FromSpecImpl;
use vstd::string::*;

verus! {

/// State of the whole app; drives the tray icon's dot color.
#[derive(Debug, Clone, Copy, PartialEq, Eq, Structural)]
pub enum AggregateState {
    /// All good (the provider state `Ok`).
    Good,
    Warn,
    Danger,
    Unknown,
}

pub open spec fn aggregate_of(s: ProviderState) -> AggregateState {
    match s {
        ProviderState::Danger => AggregateState::Danger,
        ProviderState::Warn => AggregateState::Warn,
        ProviderState::Good => AggregateState::Good,
        ProviderState::Unknown => AggregateState::Unknown,
    }
}

impl From<ProviderState> for AggregateState {
    fn from(s: ProviderState) -> (r: AggregateState) {
        match s {
            ProviderState::Danger => AggregateState::Danger,
            ProviderState::Warn => AggregateState::Warn,
            ProviderState::Good => AggregateState::Good,
            ProviderState::Unknown => AggregateState::Unknown,
        }
    }
}

impl FromSpecImpl<ProviderState> for AggregateState {
    open spec fn obeys_from_spec() -> bool {
        true
    }

    open spec fn from_spec(s: ProviderState) -> AggregateState {
        aggregate_of(s)
    }
}

/// RGBA color of the status dot.
pub open spec fn dot_color_spec(state: AggregateState) -> [u8; 4] {
    match state {
        AggregateState::Good => [52, 211, 153, 255],
        AggregateState::Warn => [250, 204, 21, 255],
        AggregateState::Danger => [239, 68, 68, 255],
        AggregateState::Unknown => [148, 163, 184, 255],
    }
}

/// RGBA color of the status dot (emerald, amber, red, slate).
pub fn dot_color(state: AggregateState) -> (r: [u8; 4])
    ensures
        r == dot_color_spec(state),
{
    match state {
        AggregateState::Good => [52, 211, 153, 255],
        AggregateState::Warn => [250, 204, 21, 255],
        AggregateState::Danger => [239, 68, 68, 255],
        AggregateState::Unknown => [148, 163, 184, 255],
    }
}

/// Worst state across all providers; Unknown when there are none.
pub fn aggregate_state(states: &[ProviderState]) -> (r: AggregateState)
    ensures
        states@.len() == 0 ==> r == AggregateState::Unknown,
        states@.len() > 0 ==> r == aggregate_of(worst_spec(states@)),
{
    if states.len() == 0 {
        return AggregateState::Unknown;
    }
    AggregateState::from(worst(states))
}

// ---------------------------------------------------------------------------
// The status dot
// ---------------------------------------------------------------------------

/// Where the status dot sits on an icon of the given size.
#[derive(Debug, Clone, Copy)]
pub struct DotGeometry {
    pub radius: i32,
    pub cx: i32,
    pub cy: i32,
}

/// The dot's radius is a fifth of the icon's smaller side, kept within 5..=10,
/// and it sits 2 pixels from the top-right corner.
pub open spec fn dot_geometry_spec(width: u32, height: u32) -> DotGeometry {
    let m = if width < height { width } else { height };
    let r0 = m as int / 5;
    let r = if r0 < 5 { 5 } else if r0 > 10 { 10 } else { r0 };
    DotGeometry { radius: r as i32, cx: (width - r - 2) as i32, cy: (r + 2) as i32 }
}

pub fn dot_geometry(width: u32, height: u32) -> (r: DotGeometry)
    requires
        width <= i32::MAX,
        height <= i32::MAX,
    ensures
        r == dot_geometry_spec(width, height),
{
    let m = if width < height { width } else { height };
    let r0: i32 = (m / 5) as i32;
    let r: i32 = if r0 < 5 { 5 } else if r0 > 10 { 10 } else { r0 };
    DotGeometry { radius: r, cx: width as i32 - r - 2, cy: r + 2 }
}

/// What part of the dot a pixel falls in.
#[derive(Debug, Clone, Copy, PartialEq, Eq, Structural)]
pub enum DotZone {
    /// Inside the dot: painted solid.
    Inside,
    /// On the outline ring; carries the squared distance from the center.
    Ring(i32),
    Outside,
}

pub open spec fn dot_zone_spec(g: DotGeometry, x: int, y: int) -> DotZone {
    let d2 = (x - g.cx) * (x - g.cx) + (y - g.cy) * (y - g.cy);
    let ring = g.radius + 1;
    if d2 <= ring * ring {
        if d2 <= g.radius * g.radius {
            DotZone::Inside
        } else {
            DotZone::Ring(d2 as i32)
        }
    } else {
        DotZone::Outside
    }
}

pub fn dot_zone(g: DotGeometry, x: i32, y: i32) -> (r: DotZone)
    requires
        i32::MIN <= x - g.cx <= i32::MAX,
        i32::MIN <= y - g.cy <= i32::MAX,
        (x - g.cx) * (x - g.cx) + (y - g.cy) * (y - g.cy) <= i32::MAX,
        0 <= g.radius <= 46339,
    ensures
        r == dot_zone_spec(g, x as int, y as int),
{
    let dx = x - g.cx;
    let dy = y - g.cy;
    assert(0 <= dx * dx && 0 <= dy * dy) by (nonlinear_arith);
    let d2 = dx * dx + dy * dy;
    let rad = g.radius;
    let ring = rad + 1;
    assert(0 <= rad * rad <= ring * ring <= 46340 * 46340) by (nonlinear_arith)
        requires
            0 <= rad <= 46339,
            ring == rad + 1,
    ;
    if d2 <= ring * ring {
        if d2 <= rad * rad {
            DotZone::Inside
        } else {
            DotZone::Ring(d2)
        }
    } else {
        DotZone::Outside
    }
}

// ---------------------------------------------------------------------------
// Menu, clicks, close
// ---------------------------------------------------------------------------

/// Menu item ids.
pub open spec fn menu_show() -> Seq<char> {
    "tray_show"@
}

pub open spec fn menu_refresh() -> Seq<char> {
    "tray_refresh"@
}

pub open spec fn menu_settings() -> Seq<char> {
    "tray_settings"@
}

pub open spec fn menu_quit() -> Seq<char> {
    "tray_quit"@
}

/// What a context-menu click asks for.
#[derive(Debug, Clone, Copy, PartialEq, Eq, Structural)]
pub enum MenuAction {
    ShowWindow,
    /// Emit `tray:refresh_requested`, then show the window.
    RefreshAndShow,
    /// Emit `tray:open_settings`, then show the window.
    SettingsAndShow,
    Quit,
    Ignore,
}

pub open spec fn menu_action_spec(id: Seq<char>) -> MenuAction {
    if id == menu_show() {
        MenuAction::ShowWindow
    } else if id == menu_refresh() {
        MenuAction::RefreshAndShow
    } else if id == menu_settings() {
        MenuAction::SettingsAndShow
    } else if id == menu_quit() {
        MenuAction::Quit
    } else {
        MenuAction::Ignore
    }
}

pub fn menu_action(id: &str) -> (r: MenuAction)
    ensures
        r == menu_action_spec(id@),
{
    if str_eq(id, "tray_show") {
        MenuAction::ShowWindow
    } else if str_eq(id, "tray_refresh") {
        MenuAction::RefreshAndShow
    } else if str_eq(id, "tray_settings") {
        MenuAction::SettingsAndShow
    } else if str_eq(id, "tray_quit") {
        MenuAction::Quit
    } else {
        MenuAction::Ignore
    }
}

/// What toggling the main window does.
#[derive(Debug, Clone, Copy, PartialEq, Eq, Structural)]
pub enum WindowAction {
    Hide,
    /// Show, unminimize and focus.
    ShowAndFocus,
}

/// Toggle: hide a visible window, otherwise bring it up.
pub fn toggle_action(visible: bool) -> (r: WindowAction)
    ensures
        visible ==> r == WindowAction::Hide,
        !visible ==> r == WindowAction::ShowAndFocus,
{
    if visible {
        WindowAction::Hide
    } else {
        WindowAction::ShowAndFocus
    }
}

/// A left click on the tray icon toggles the window; other clicks are left to the menu.
pub fn click_toggles(is_click: bool, left_button: bool) -> (r: bool)
    ensures
        r == (is_click && left_button),
{
    is_click && left_button
}

/// Whether closing the main window hides it to the tray. When the setting
/// cannot be read right now, hiding is the safe choice.
pub fn hide_on_close(minimize_to_tray: Option<bool>) -> (r: bool)
    ensures
        r == match minimize_to_tray {
            Some(b) => b,
            None => true,
        },
{
    match minimize_to_tray {
        Some(b) => b,
        None => true,
    }
}

// ---------------------------------------------------------------------------
// Tooltip
// ---------------------------------------------------------------------------

/// Tooltip with no provider data.
pub open spec fn empty_tooltip_spec(agg: AggregateState) -> Seq<char> {
    match agg {
        AggregateState::Unknown => "Desktop Usage Helper — no data"@,
        _ => "Desktop Usage Helper"@,
    }
}

pub fn empty_tooltip(agg: AggregateState) -> (r: String)
    ensures
        r@ == empty_tooltip_spec(agg),
{
    match agg {
        AggregateState::Unknown => owned("Desktop Usage Helper — no data"),
        _ => owned("Desktop Usage Helper"),
    }
}

/// Marker after a tooltip row: " ⚠" for danger, " !" for warn.
pub open spec fn state_flag_spec(s: ProviderState) -> Seq<char> {
    match s {
        ProviderState::Danger => " ⚠"@,
        ProviderState::Warn => " !"@,
        _ => ""@,
    }
}

pub fn state_flag(s: ProviderState) -> (r: &'static str)
    ensures
        r@ == state_flag_spec(s),
{
    match s {
        ProviderState::Danger => " ⚠",
        ProviderState::Warn => " !",
        _ => "",
    }
}

/// Rows joined with " · ".
pub open spec fn joined(rows: Seq<Seq<char>>) -> Seq<char>
    decreases rows.len(),
{
    if rows.len() == 0 {
        Seq::empty()
    } else if rows.len() == 1 {
        rows[0]
    } else {
        joined(rows.drop_last()) + " · "@ + rows.last()
    }
}

pub open spec fn first_rows(rows: Seq<String>) -> Seq<Seq<char>> {
    let k = if rows.len() < 3 { rows.len() as int } else { 3 };
    rows.take(k).map_values(|s: String| s@)
}

/// Tooltip: the three most critical rows (already sorted), then a click hint
/// with the number of providers.
pub open spec fn tooltip_spec(rows: Seq<String>, count: nat) -> Seq<char> {
    joined(first_rows(rows)) + "\n— click to open · "@ + crate::text::decimal(count) + " providers"@
}

pub fn tooltip(rows: &Vec<String>, count: usize) -> (r: String)
    ensures
        r@ == tooltip_spec(rows@, count as nat),
{
    let k: usize = if rows.len() < 3 { rows.len() } else { 3 };
    let mut head = String::new();
    let mut i: usize = 0;
    while i < k
        invariant
            k <= rows@.len(),
            k == if rows@.len() < 3 { rows@.len() as int } else { 3 },
            i <= k,
            head@ == joined(rows@.take(i as int).map_values(|s: String| s@)),
        decreases k - i,
    {
        let ghost prev = rows@.take(i as int).map_values(|s: String| s@);
        let ghost next = rows@.take(i + 1).map_values(|s: String| s@);
        assert(next.drop_last() =~= prev);
        assert(next.last() == rows@[i as int]@);
        if i > 0 {
            head.append(" · ");
        }
        head.append(rows[i].as_str());
        proof {
            if i == 0 {
                assert(head@ =~= rows@[0]@);
            }
        }
        i = i + 1;
    }
    head.append("\n— click to open · ");
    let d = crate::text::u64_to_decimal(count as u64);
    head.append(d.as_str());
    head.append(" providers");
    head
}

} // verus!
