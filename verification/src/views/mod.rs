//! The two main windows' shared decisions: where the preset list's separator goes, how the
//! device list is cut into its output and input runs, and which glyph the flip button shows.

pub mod effects;
pub mod lite;

use vstd::prelude::*;
use crate::assets::FxImage;
use crate::layout::{Chrome, Rect, TITLE_BAR_DIVIDER_HEIGHT, TITLE_BAR_HEIGHT, TITLE_BAR_INSET, chrome_of,
    window_size, window_size_of};
use crate::model::{AudioDevice, DeviceDirection, ViewMode};
use crate::state::{PresetEntry, UiAction};
use crate::widgets::combo::{preset_label, preset_label_of};

verus! {

/// The position of the first user preset at or after `i`, or -1.
pub open spec fn first_user_from(presets: Seq<PresetEntry>, i: int) -> int
    decreases presets.len() - i,
{
    if i < 0 || i >= presets.len() {
        -1
    } else if !presets[i].factory {
        i
    } else {
        first_user_from(presets, i + 1)
    }
}

/// Where the preset list's one separator goes: at the first user preset, unless the list has
/// none or opens with one, since a rule above the top row would be a stray line.
pub open spec fn separator_of(presets: Seq<PresetEntry>) -> Option<int> {
    let i = first_user_from(presets, 0);
    if i > 0 {
        Some(i)
    } else {
        None
    }
}

proof fn lemma_first_user_from(presets: Seq<PresetEntry>, i: int)
    requires
        0 <= i <= presets.len(),
    ensures
        first_user_from(presets, i) == -1 || (i <= first_user_from(presets, i) < presets.len()
            && !presets[first_user_from(presets, i)].factory && forall|k: int|
            i <= k < first_user_from(presets, i) ==> #[trigger] presets[k].factory),
        first_user_from(presets, i) == -1 ==> forall|k: int|
            i <= k < presets.len() ==> #[trigger] presets[k].factory,
    decreases presets.len() - i,
{
    if i < presets.len() && presets[i].factory {
        lemma_first_user_from(presets, i + 1);
    }
}

/// The index of the preset list's separator: the boundary between factory and user presets.
pub fn first_user_preset(presets: &[PresetEntry]) -> (r: Option<usize>)
    ensures
        r == match separator_of(presets@) {
            Some(i) => Some(i as usize),
            None => None::<usize>,
        },
        match r {
            Some(i) => 0 < i < presets@.len() && !presets@[i as int].factory && forall|k: int|
                0 <= k < i ==> #[trigger] presets@[k].factory,
            None => presets@.len() == 0 || !presets@[0].factory || forall|k: int|
                0 <= k < presets@.len() ==> #[trigger] presets@[k].factory,
        },
{
    proof {
        lemma_first_user_from(presets@, 0);
    }
    let mut i: usize = 0;
    while i < presets.len()
        invariant
            i <= presets@.len(),
            first_user_from(presets@, 0) == first_user_from(presets@, i as int),
            forall|k: int| 0 <= k < i ==> #[trigger] presets@[k].factory,
        decreases presets@.len() - i,
    {
        if !presets[i].factory {
            if i > 0 {
                return Some(i);
            } else {
                return None;
            }
        }
        i = i + 1;
    }
    None
}

/// Where the device list starts a new run: the first row, and every row whose direction differs
/// from the one above it.
pub open spec fn starts_run(dirs: Seq<DeviceDirection>, i: int) -> bool {
    i == 0 || dirs[i] != dirs[i - 1]
}

/// The titles of the first `n` rows' runs: each run's first row and its direction.
pub open spec fn run_titles(dirs: Seq<DeviceDirection>, n: int) -> Seq<(usize, DeviceDirection)>
    decreases n,
{
    if n <= 0 {
        seq![]
    } else if starts_run(dirs, n - 1) {
        run_titles(dirs, n - 1).push(((n - 1) as usize, dirs[n - 1]))
    } else {
        run_titles(dirs, n - 1)
    }
}

/// The first row at or after `i` (and after the first row) where the direction changes, or -1.
pub open spec fn first_change_from(dirs: Seq<DeviceDirection>, i: int) -> int
    decreases dirs.len() - i,
{
    if i < 1 || i >= dirs.len() {
        -1
    } else if dirs[i] != dirs[i - 1] {
        i
    } else {
        first_change_from(dirs, i + 1)
    }
}

/// The directions of a device list, in order.
pub open spec fn directions(devices: Seq<AudioDevice>) -> Seq<DeviceDirection> {
    devices.map_values(|d: AudioDevice| d.direction)
}

/// How the device list is cut into its runs of one direction each.
#[derive(Debug, Clone, PartialEq, Eq, Default)]
pub struct DeviceSections {
    /// A title above the first device of each run, in list order: the row and the direction.
    pub titles: Vec<(usize, DeviceDirection)>,
    /// The rule where the direction first changes; `None` when the list holds one direction.
    pub separator: Option<usize>,
}

/// Where `devices` changes direction and what to call each run. A direction with no devices gets
/// no title, and the rule is never drawn above the first row.
pub fn device_sections(devices: &[AudioDevice]) -> (s: DeviceSections)
    ensures
        s.titles@ == run_titles(directions(devices@), devices@.len() as int),
        match s.separator {
            Some(i) => first_change_from(directions(devices@), 1) == i as int,
            None => first_change_from(directions(devices@), 1) == -1,
        },
{
    let ghost dirs = directions(devices@);
    let mut titles: Vec<(usize, DeviceDirection)> = Vec::new();
    let mut separator: Option<usize> = None;
    let mut i: usize = 0;
    while i < devices.len()
        invariant
            i <= devices@.len(),
            dirs == directions(devices@),
            dirs.len() == devices@.len(),
            titles@ == run_titles(dirs, i as int),
            match separator {
                Some(k) => first_change_from(dirs, 1) == k as int && k < i,
                None => (i > 0 ==> first_change_from(dirs, 1) == first_change_from(dirs, i as int)) ,
            },
        decreases devices@.len() - i,
    {
        let direction = devices[i].direction;
        let starts = if i == 0 {
            true
        } else {
            match (devices[i - 1].direction, direction) {
                (DeviceDirection::Output, DeviceDirection::Output) => false,
                (DeviceDirection::Input, DeviceDirection::Input) => false,
                _ => true,
            }
        };
        proof {
            assert(dirs[i as int] == devices@[i as int].direction);
            if i > 0 {
                assert(dirs[i - 1] == devices@[i - 1].direction);
            }
            assert(starts == starts_run(dirs, i as int));
        }
        if starts {
            titles.push((i, direction));
            if i > 0 && separator.is_none() {
                separator = Some(i);
            }
        }
        i = i + 1;
    }
    DeviceSections { titles, separator }
}

/// The whole window of `view`, with its top-left corner at `origin`.
pub fn window_rect(origin: (i32, i32), view: ViewMode) -> (r: Rect)
    ensures
        r == (Rect { x: origin.0, y: origin.1, w: window_size_of(view).0, h: window_size_of(view).1 }),
{
    let size = window_size(view);
    Rect { x: origin.0, y: origin.1, w: size.0, h: size.1 }
}

/// `rect`, given in window coordinates, moved to where the window actually starts.
pub fn at(origin: (i32, i32), rect: Rect) -> (r: Rect)
    requires
        i32::MIN <= origin.0 + rect.x <= i32::MAX,
        i32::MIN <= origin.1 + rect.y <= i32::MAX,
    ensures
        r == (Rect { x: (origin.0 + rect.x) as i32, y: (origin.1 + rect.y) as i32, w: rect.w, h: rect.h }),
{
    Rect { x: origin.0 + rect.x, y: origin.1 + rect.y, w: rect.w, h: rect.h }
}

/// The title-bar layout a window draws.
pub fn chrome(view: ViewMode) -> (c: Chrome)
    ensures
        c == chrome_of(view),
{
    Chrome::of(view)
}

/// The title bar of a window `window_width` wide whose top-left corner is `origin`: inset by the
/// window's corner radius on both sides, never narrower than nothing, and as tall as the bar.
pub fn bar_rect(origin: (i32, i32), window_width: i32) -> (r: Rect)
    requires
        origin.0 + TITLE_BAR_INSET <= i32::MAX,
        i32::MIN + TITLE_BAR_INSET * 2 <= window_width,
    ensures
        r == (Rect {
            x: (origin.0 + TITLE_BAR_INSET) as i32,
            y: origin.1,
            w: if window_width - TITLE_BAR_INSET * 2 >= 0 {
                (window_width - TITLE_BAR_INSET * 2) as i32
            } else {
                0i32
            },
            h: TITLE_BAR_HEIGHT,
        }),
{
    let inner: i32 = window_width - TITLE_BAR_INSET * 2;
    Rect {
        x: origin.0 + TITLE_BAR_INSET,
        y: origin.1,
        w: if inner >= 0 { inner } else { 0 },
        h: TITLE_BAR_HEIGHT,
    }
}

/// The rule under the title bar, across the whole window.
pub fn divider_rect(origin: (i32, i32), window_width: i32) -> (r: Rect)
    requires
        origin.1 + TITLE_BAR_HEIGHT <= i32::MAX,
    ensures
        r == (Rect {
            x: origin.0,
            y: (origin.1 + TITLE_BAR_HEIGHT) as i32,
            w: window_width,
            h: TITLE_BAR_DIVIDER_HEIGHT,
        }),
{
    Rect { x: origin.0, y: origin.1 + TITLE_BAR_HEIGHT, w: window_width, h: TITLE_BAR_DIVIDER_HEIGHT }
}

/// The preset list's items: each preset's name, marked while it has unsaved changes.
pub fn preset_items(presets: &[PresetEntry]) -> (items: Vec<String>)
    ensures
        items@.len() == presets@.len(),
        forall|i: int|
            0 <= i < presets@.len() ==> #[trigger] items@[i]@ == preset_label_of(
                presets@[i].name@,
                presets@[i].modified,
            ),
{
    let mut items: Vec<String> = Vec::new();
    let mut i: usize = 0;
    while i < presets.len()
        invariant
            i <= presets@.len(),
            items@.len() == i,
            forall|j: int|
                0 <= j < i ==> #[trigger] items@[j]@ == preset_label_of(
                    presets@[j].name@,
                    presets@[j].modified,
                ),
        decreases presets@.len() - i,
    {
        let preset = &presets[i];
        items.push(preset_label(preset.name.as_str(), preset.modified));
        i = i + 1;
    }
    items
}

/// The flip button's two glyphs, plain and hovered: a "shrink" arrow in the full window and an
/// "expand" one in the compact window, since the glyph says what a click will do.
pub fn flip_images(view: ViewMode) -> (images: (FxImage, FxImage))
    ensures
        images == match view {
            ViewMode::Pro => (FxImage::MinimizeButton, FxImage::MinimizeButtonHover),
            ViewMode::Lite => (FxImage::MaximizeButton, FxImage::MaximizeButtonHover),
        },
{
    match view {
        ViewMode::Pro => (FxImage::MinimizeButton, FxImage::MinimizeButtonHover),
        ViewMode::Lite => (FxImage::MaximizeButton, FxImage::MaximizeButtonHover),
    }
}

/// What the pointer did to the title bar in one frame.
#[derive(Debug, Clone, Copy, PartialEq, Eq, Default)]
pub struct TitleBarEvents {
    /// A drag started on the bar, at a point outside every button's hit area.
    pub drag_started_on_bar: bool,
    /// The drag on the bar ended.
    pub drag_stopped: bool,
    pub menu_clicked: bool,
    pub power_clicked: bool,
    pub flip_clicked: bool,
    pub minimize_clicked: bool,
    pub close_clicked: bool,
}

/// `s` with `a` appended when `cond` holds.
pub open spec fn push_if(s: Seq<UiAction>, cond: bool, a: UiAction) -> Seq<UiAction> {
    if cond {
        s.push(a)
    } else {
        s
    }
}

/// The title bar's actions in one frame: the window drag first, then the buttons left to right.
pub open spec fn title_bar_actions(e: TitleBarEvents) -> Seq<UiAction> {
    let s0 = push_if(Seq::empty(), e.drag_started_on_bar, UiAction::DragWindow);
    let s1 = push_if(s0, e.menu_clicked, UiAction::OpenMenu);
    let s2 = push_if(s1, e.power_clicked, UiAction::TogglePower);
    let s3 = push_if(s2, e.flip_clicked, UiAction::ToggleView);
    let s4 = push_if(s3, e.minimize_clicked, UiAction::Minimise);
    push_if(s4, e.close_clicked, UiAction::Close)
}

/// Whether a window move is in progress after a frame: it starts with a drag that began on the
/// bar and ends when the drag stops.
pub open spec fn dragging_after(was_dragging: bool, e: TitleBarEvents) -> bool {
    if e.drag_stopped {
        false
    } else {
        was_dragging || e.drag_started_on_bar
    }
}

/// One frame of the title bar: the actions it produces and whether a window move is in progress
/// afterwards.
pub fn title_bar(was_dragging: bool, e: TitleBarEvents) -> (r: (Vec<UiAction>, bool))
    ensures
        r.0@ == title_bar_actions(e),
        r.1 == dragging_after(was_dragging, e),
{
    let mut actions: Vec<UiAction> = Vec::new();
    let mut dragging = was_dragging;
    if e.drag_started_on_bar {
        dragging = true;
        actions.push(UiAction::DragWindow);
    }
    if e.drag_stopped {
        dragging = false;
    }
    if e.menu_clicked {
        actions.push(UiAction::OpenMenu);
    }
    if e.power_clicked {
        actions.push(UiAction::TogglePower);
    }
    if e.flip_clicked {
        actions.push(UiAction::ToggleView);
    }
    if e.minimize_clicked {
        actions.push(UiAction::Minimise);
    }
    if e.close_clicked {
        actions.push(UiAction::Close);
    }
    (actions, dragging)
}

/// The titles and the rule only say where to draw decoration, and leave the device indices
/// alone: every title names a real row of its own direction, the titles run top to bottom, and
/// a title other than the first sits exactly where the direction changes.
pub proof fn lemma_sections_match_devices(dirs: Seq<DeviceDirection>, n: int)
    requires
        0 <= n <= dirs.len(),
        dirs.len() <= usize::MAX,
    ensures
        forall|k: int|
            0 <= k < run_titles(dirs, n).len() ==> {
                let t = #[trigger] run_titles(dirs, n)[k];
                &&& (t.0 as int) < n
                &&& dirs[t.0 as int] == t.1
                &&& starts_run(dirs, t.0 as int)
            },
        forall|j: int, k: int|
            0 <= j < k < run_titles(dirs, n).len() ==> (#[trigger] run_titles(dirs, n)[j]).0
                < (#[trigger] run_titles(dirs, n)[k]).0,
    decreases n,
{
    if n > 0 {
        lemma_sections_match_devices(dirs, n - 1);
        let prev = run_titles(dirs, n - 1);
        if starts_run(dirs, n - 1) {
            let cur = prev.push(((n - 1) as usize, dirs[n - 1]));
            assert forall|k: int| 0 <= k < cur.len() implies {
                let t = #[trigger] cur[k];
                &&& (t.0 as int) < n
                &&& dirs[t.0 as int] == t.1
                &&& starts_run(dirs, t.0 as int)
            } by {
                if k < prev.len() {
                    assert(cur[k] == prev[k]);
                }
            }
            assert forall|j: int, k: int| 0 <= j < k < cur.len() implies (#[trigger] cur[j]).0
                < (#[trigger] cur[k]).0 by {
                if k < prev.len() {
                    assert(cur[k] == prev[k]);
                    assert(cur[j] == prev[j]);
                } else {
                    assert(cur[j] == prev[j]);
                    assert(prev[j].0 < n - 1);
                }
            }
        }
    }
}

} // verus!
