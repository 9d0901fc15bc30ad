//! Screen rectangles of the sidebar chrome and the hit tests on them.

use vstd::prelude::*;
use crate::state::ProjectRowTarget;
use crate::menus::ViewMode;
use crate::workspace::Workspace;
use crate::text::str_eq;

verus! {

/// A rectangle of terminal cells.
#[derive(Debug, Clone, Copy, PartialEq, Eq, Structural)]
pub struct Rect {
    pub x: u16,
    pub y: u16,
    pub width: u16,
    pub height: u16,
}

impl Default for Rect {
    fn default() -> (r: Rect)
        ensures
            r == empty_rect(),
    {
        Rect { x: 0, y: 0, width: 0, height: 0 }
    }
}

/// The empty rectangle at the origin.
pub open spec fn empty_rect() -> Rect {
    Rect { x: 0, y: 0, width: 0, height: 0 }
}

/// Cell `(col, row)` lies inside `r`.
pub open spec fn contains(r: Rect, col: int, row: int) -> bool {
    &&& r.x <= col < r.x + r.width
    &&& r.y <= row < r.y + r.height
}

/// `a - b`, or 0 when `b` is larger.
pub open spec fn sat_sub(a: int, b: int) -> int {
    if a >= b { a - b } else { 0 }
}

/// `a + b`, or `u16::MAX` when that overflows.
pub open spec fn sat_add16(a: int, b: int) -> int {
    if a + b <= u16::MAX { a + b } else { u16::MAX as int }
}

/// The smaller of `a` and `b`.
pub open spec fn min(a: int, b: int) -> int {
    if a <= b { a } else { b }
}

/// The larger of `a` and `b`.
pub open spec fn max(a: int, b: int) -> int {
    if a >= b { a } else { b }
}

impl Rect {
    pub fn new(x: u16, y: u16, width: u16, height: u16) -> (r: Rect)
        ensures
            r == (Rect { x, y, width, height }),
    {
        Rect { x, y, width, height }
    }

    /// The cell `(col, row)` lies inside the rectangle.
    pub fn contains_cell(&self, col: u16, row: u16) -> (r: bool)
        ensures
            r == contains(*self, col as int, row as int),
    {
        let right = self.x as u32 + self.width as u32;
        let bottom = self.y as u32 + self.height as u32;
        col >= self.x && (col as u32) < right && row >= self.y && (row as u32) < bottom
    }
}

/// Layout area of one workspace card in the sidebar list.
#[derive(Debug, Clone, Copy, PartialEq, Eq)]
pub struct WorkspaceCardArea {
    pub ws_idx: usize,
    pub rect: Rect,
    pub indented: bool,
}

/// Layout area of a collapsible group header row in the sidebar list (a
/// visual group, or a repository header).
#[derive(Debug, Clone, PartialEq, Eq)]
pub struct GroupHeaderCardArea {
    pub name: String,
    pub collapse_key: String,
    pub rect: Rect,
}

/// Layout area of the create-worktree affordance on a repository header.
#[derive(Debug, Clone, PartialEq, Eq)]
pub struct WorktreeNewHitArea {
    pub repo_identity: String,
    pub rect: Rect,
}

/// Layout area of one Project-view row and what a click on it means.
#[derive(Debug, Clone, PartialEq, Eq)]
pub struct ProjectRowHitArea {
    pub rect: Rect,
    pub target: ProjectRowTarget,
}

/// What a click at `(x, y)` on the Project view means: the target of the
/// first row area holding that cell. The areas' own rectangles decide, so
/// rows that start below the top of the list resolve correctly.
pub fn project_row_target_at(areas: &[ProjectRowHitArea], x: u16, y: u16) -> (r: Option<&ProjectRowTarget>)
    ensures
        match r {
            Some(t) => exists|k: int| 0 <= k < areas@.len() && contains(areas@[k].rect, x as int, y as int)
                && *t == areas@[k].target
                && forall|j: int| 0 <= j < k ==> !contains(#[trigger] areas@[j].rect, x as int, y as int),
            None => forall|j: int| 0 <= j < areas@.len() ==> !contains(#[trigger] areas@[j].rect, x as int, y as int),
        },
{
    let mut k: usize = 0;
    while k < areas.len()
        invariant
            0 <= k <= areas@.len(),
            forall|j: int| 0 <= j < k ==> !contains(#[trigger] areas@[j].rect, x as int, y as int),
        decreases areas@.len() - k,
    {
        if areas[k].rect.contains_cell(x, y) {
            return Some(&areas[k].target);
        }
        k = k + 1;
    }
    None
}

/// The footer row of the sidebar: the last row of the workspace list area
/// `ws_area`, across its width; empty when the list area is.
pub open spec fn footer_of(ws_area: Rect) -> Rect {
    if ws_area == empty_rect() {
        empty_rect()
    } else {
        Rect {
            x: ws_area.x,
            y: (ws_area.y + sat_sub(ws_area.height as int, 1)) as u16,
            width: ws_area.width,
            height: 1,
        }
    }
}

/// The sidebar footer for the workspace list area `ws_area`.
pub fn sidebar_footer_rect(ws_area: Rect) -> (r: Rect)
    requires
        ws_area.y + ws_area.height <= u16::MAX + 1,
    ensures
        r == footer_of(ws_area),
{
    if ws_area == Rect::default() {
        return Rect::default();
    }
    let y = ws_area.y + ws_area.height.saturating_sub(1);
    Rect::new(ws_area.x, y, ws_area.width, 1)
}

/// The "new" button at the left of the footer: five cells wide, narrowed
/// to the footer but never below one cell.
pub fn sidebar_new_button_rect(footer: Rect) -> (r: Rect)
    ensures
        r == (Rect {
            x: footer.x,
            y: footer.y,
            width: min(5, max(footer.width as int, 1)) as u16,
            height: footer.height,
        }),
{
    let floor: u16 = if footer.width > 1 { footer.width } else { 1 };
    let width: u16 = if floor < 5 { floor } else { 5 };
    Rect::new(footer.x, footer.y, width, footer.height)
}

/// The global launcher at the right of the footer: six cells wide, eight
/// with the attention badge, narrowed to the footer; on the mobile layout,
/// the mobile menu's hit area. It stops short of the sidebar collapse toggle
/// when that sits on the footer row, so the toggle stays clickable.
pub open spec fn launcher_of(mobile: bool, mobile_hit_area: Rect, footer: Rect, badge: bool, toggle: Rect) -> Rect {
    if mobile {
        mobile_hit_area
    } else {
        let width = min(if badge { 8 } else { 6 }, max(footer.width as int, 1));
        let edge = footer.x + footer.width;
        let right_edge = if toggle.width > 0 && toggle.y == footer.y && toggle.x < edge { toggle.x as int } else { edge };
        Rect {
            x: max(sat_sub(right_edge, width), footer.x as int) as u16,
            y: footer.y,
            width: width as u16,
            height: footer.height,
        }
    }
}

/// The global launcher's rectangle.
pub fn global_launcher_rect(mobile: bool, mobile_hit_area: Rect, footer: Rect, badge_visible: bool, toggle: Rect) -> (r: Rect)
    requires
        footer.x + footer.width <= u16::MAX,
    ensures
        r == launcher_of(mobile, mobile_hit_area, footer, badge_visible, toggle),
{
    if mobile {
        return mobile_hit_area;
    }
    let wanted: u16 = if badge_visible { 8 } else { 6 };
    let floor: u16 = if footer.width > 1 { footer.width } else { 1 };
    let width: u16 = if wanted < floor { wanted } else { floor };
    let mut right_edge = footer.x + footer.width;
    if toggle.width > 0 && toggle.y == footer.y && toggle.x < right_edge {
        right_edge = toggle.x;
    }
    let left = right_edge.saturating_sub(width);
    let x = if left > footer.x { left } else { footer.x };
    Rect::new(x, footer.y, width, footer.height)
}

/// The entries of the global menu, top to bottom.
pub open spec fn menu_labels(chat_view: bool, update_available: bool, release_notes_available: bool) -> Seq<Seq<char>> {
    seq!["settings"@]
        + (if chat_view { seq!["chat"@] } else { Seq::empty() })
        + seq!["keybinds"@, "reload config"@]
        + (if update_available {
            seq!["update ready"@]
        } else if release_notes_available {
            seq!["what's new"@]
        } else {
            Seq::empty()
        })
        + seq!["detach"@]
}

/// The global menu's entries: settings, chat when the chat view is on,
/// keybinds, reload config, "update ready" when an update waits (else
/// "what's new" when release notes are available), and detach.
pub fn global_menu_labels(chat_view: bool, update_available: bool, release_notes_available: bool) -> (r: Vec<&'static str>)
    ensures
        r@.map_values(|s: &'static str| s@) == menu_labels(chat_view, update_available, release_notes_available),
{
    let mut labels: Vec<&'static str> = Vec::new();
    labels.push("settings");
    if chat_view {
        labels.push("chat");
    }
    labels.push("keybinds");
    labels.push("reload config");
    if update_available {
        labels.push("update ready");
    } else if release_notes_available {
        labels.push("what's new");
    }
    labels.push("detach");
    proof {
        assert(labels@.map_values(|s: &'static str| s@) =~= menu_labels(chat_view, update_available, release_notes_available));
    }
    labels
}

/// The widest entry of the first `n` entry widths, 0 for none.
pub open spec fn widest(widths: Seq<int>, n: int) -> int
    decreases n,
{
    if n <= 0 {
        0
    } else {
        max(widest(widths, n - 1), widths[n - 1])
    }
}

/// How wide an entry draws: its characters, and two cells more with a badge.
pub open spec fn entry_widths(labels: Seq<&str>, badged: Seq<bool>) -> Seq<int> {
    Seq::new(labels.len(), |i: int| labels[i]@.len() + if badged[i] { 2int } else { 0int })
}

/// Where the global menu opens: wide enough for its widest entry plus a
/// cell of padding each side and its border, as many rows as entries plus
/// the border, both capped by the screen; right-aligned to the launcher
/// without leaving the screen, and just above the launcher.
pub open spec fn menu_rect_of(screen: Rect, launcher: Rect, widths: Seq<int>) -> Rect {
    let content = sat_add16(if widths.len() == 0 { 8 } else { widest(widths, widths.len() as int) }, 2);
    let w = min(sat_add16(content, 2), max(screen.width as int, 1));
    let h = min(widths.len() + 2int, max(screen.height as int, 1));
    let max_x = screen.x + sat_sub(screen.width as int, w);
    let desired_x = launcher.x + sat_sub(launcher.width as int, w);
    Rect { x: min(desired_x, max_x) as u16, y: sat_sub(launcher.y as int, h) as u16, width: w as u16, height: h as u16 }
}

/// The global menu's rectangle for its entries `labels`, `badged[i]`
/// telling whether entry `i` carries an attention badge.
pub fn global_menu_rect(screen: Rect, launcher: Rect, labels: &Vec<&str>, badged: &Vec<bool>) -> (r: Rect)
    requires
        labels@.len() == badged@.len(),
        labels@.len() + 2 <= u16::MAX,
        forall|i: int| 0 <= i < labels@.len() ==> (#[trigger] labels@[i])@.len() + 2 <= u16::MAX,
        screen.x + screen.width <= u16::MAX,
        launcher.x + launcher.width <= u16::MAX,
    ensures
        r == menu_rect_of(screen, launcher, entry_widths(labels@, badged@)),
{
    let ghost widths = entry_widths(labels@, badged@);
    let mut widest_w: u16 = 0;
    let mut i: usize = 0;
    while i < labels.len()
        invariant
            0 <= i <= labels@.len(),
            labels@.len() == badged@.len(),
            widths == entry_widths(labels@, badged@),
            forall|k: int| 0 <= k < labels@.len() ==> (#[trigger] labels@[k])@.len() + 2 <= u16::MAX,
            widest_w == widest(widths, i as int),
        decreases labels@.len() - i,
    {
        let chars = labels[i].unicode_len();
        let badge: u16 = if badged[i] { 2 } else { 0 };
        let w: u16 = chars as u16 + badge;
        if w > widest_w {
            widest_w = w;
        }
        i = i + 1;
    }
    let base: u16 = if labels.len() == 0 { 8 } else { widest_w };
    let content_width = base.saturating_add(2);
    let screen_floor: u16 = if screen.width > 1 { screen.width } else { 1 };
    let padded = content_width.saturating_add(2);
    let menu_w: u16 = if padded < screen_floor { padded } else { screen_floor };
    let height_floor: u16 = if screen.height > 1 { screen.height } else { 1 };
    let rows: u16 = labels.len() as u16 + 2;
    let menu_h: u16 = if rows < height_floor { rows } else { height_floor };
    let max_x = screen.x + screen.width.saturating_sub(menu_w);
    let desired_x = launcher.x + launcher.width.saturating_sub(menu_w);
    let x = if desired_x < max_x { desired_x } else { max_x };
    let y = launcher.y.saturating_sub(menu_h);
    Rect::new(x, y, menu_w, menu_h)
}

/// The cell `(col, row)` is on the expanded sidebar's right border, which
/// drags to resize it, but not on the collapse toggle.
pub fn on_sidebar_divider(collapsed: bool, sidebar: Rect, toggle: Rect, col: u16, row: u16) -> (r: bool)
    ensures
        r == (!collapsed && !(toggle.width > 0 && contains(toggle, col as int, row as int))
            && sidebar.width > 0
            && col == sidebar.x + sat_sub(sidebar.width as int, 1)
            && sidebar.y <= row < sidebar.y + sidebar.height),
{
    if collapsed {
        return false;
    }
    let on_toggle = toggle.width > 0 && toggle.contains_cell(col, row);
    let border = sidebar.x as u32 + sidebar.width.saturating_sub(1) as u32;
    sidebar.width > 0 && !on_toggle && col as u32 == border && row >= sidebar.y
        && (row as u32) < sidebar.y as u32 + sidebar.height as u32
}

/// The cell `(col, row)` is on a non-empty hot spot `rect`.
pub fn on_hotspot(rect: Rect, col: u16, row: u16) -> (r: bool)
    ensures
        r == (rect.width > 0 && contains(rect, col as int, row as int)),
{
    rect.width > 0 && rect.contains_cell(col, row)
}

/// The sidebar width a drag of its border to column `divider_col` asks for:
/// the columns from the sidebar's left edge through the divider, clamped to
/// the allowed range.
pub fn sidebar_width_for_divider(sidebar_x: u16, divider_col: u16, min_width: u16, max_width: u16) -> (r: u16)
    requires
        min_width <= max_width,
    ensures
        r == min(max(sat_add16(sat_sub(divider_col as int, sidebar_x as int), 1), min_width as int), max_width as int),
{
    let width = divider_col.saturating_sub(sidebar_x).saturating_add(1);
    if width < min_width {
        min_width
    } else if width > max_width {
        max_width
    } else {
        width
    }
}

/// The worktree-space key of workspace `ws_idx`, if it exists and has one.
pub open spec fn space_key_of(ws: Seq<Workspace>, ws_idx: usize) -> Option<Seq<char>> {
    if ws_idx < ws.len() {
        match ws[ws_idx as int].worktree_space {
            Some(s) => Some(s.key@),
            None => None,
        }
    } else {
        None
    }
}

/// Card `i` sits inside a repository group in Repo view: it and the card
/// before it belong to the same worktree space, so the gap between them is
/// no drop slot of its own.
pub open spec fn inside_group_gap(ws: Seq<Workspace>, cards: Seq<WorkspaceCardArea>, view_mode: ViewMode, i: int) -> bool {
    &&& view_mode == ViewMode::Repo
    &&& space_key_of(ws, cards[i].ws_idx) is Some
    &&& i > 0
    &&& space_key_of(ws, cards[i].ws_idx) == space_key_of(ws, cards[i - 1].ws_idx)
}

/// The drop slots among the first `n` cards: the index of each card that
/// starts a slot, in order.
pub open spec fn slots_upto(ws: Seq<Workspace>, cards: Seq<WorkspaceCardArea>, view_mode: ViewMode, n: int) -> Seq<usize>
    decreases n,
{
    if n <= 0 {
        Seq::empty()
    } else if inside_group_gap(ws, cards, view_mode, n - 1) {
        slots_upto(ws, cards, view_mode, n - 1)
    } else {
        slots_upto(ws, cards, view_mode, n - 1).push(cards[n - 1].ws_idx)
    }
}

/// Every drop slot of the list: one before each card that starts a slot,
/// and one after the last card.
pub open spec fn drop_slots(ws: Seq<Workspace>, cards: Seq<WorkspaceCardArea>, view_mode: ViewMode) -> Seq<usize> {
    slots_upto(ws, cards, view_mode, cards.len() as int).push((cards.last().ws_idx + 1) as usize)
}

/// The nearest of the first `n` slots to `row`, as (slot, distance), among
/// those drawn on screen (`rows[i]` is where slot `i` is drawn); a later
/// slot at equal distance wins unless its index is smaller.
pub open spec fn nearest_slot(row: u16, slots: Seq<usize>, rows: Seq<Option<u16>>, n: int) -> Option<(usize, int)>
    decreases n,
{
    if n <= 0 {
        None
    } else {
        let prev = nearest_slot(row, slots, rows, n - 1);
        match rows[n - 1] {
            None => prev,
            Some(at) => {
                let d = if row >= at { row - at } else { at - row };
                match prev {
                    Some((b, bd)) => if d > bd || (d == bd && slots[n - 1] < b) {
                        prev
                    } else {
                        Some((slots[n - 1], d))
                    },
                    None => Some((slots[n - 1], d)),
                }
            },
        }
    }
}

fn space_key_matches(ws: &[Workspace], a: usize, b: usize) -> (r: bool)
    ensures
        r == (space_key_of(ws@, a) is Some && space_key_of(ws@, a) == space_key_of(ws@, b)),
{
    if a >= ws.len() || b >= ws.len() {
        return false;
    }
    match (&ws[a].worktree_space, &ws[b].worktree_space) {
        (Some(x), Some(y)) => str_eq(x.key.as_str(), y.key.as_str()),
        _ => false,
    }
}

/// The workspace index a drag dropped on screen row `row` inserts before:
/// of the list's drop slots (before each card that starts one, and after
/// the last card) the one drawn nearest to the row, `indicator_row` telling
/// where a slot is drawn (`None` for a slot not on screen). `None` when the
/// row lies outside the list (above `list_area`, or on or below the
/// footer); `Some(0)` for an empty list. In Repo view the gaps inside a
/// repository group are no slots.
pub fn workspace_drop_index_at_row<F: Fn(usize) -> Option<u16>>(
    list_area: Rect,
    footer: Rect,
    row: u16,
    cards: &[WorkspaceCardArea],
    workspaces: &[Workspace],
    view_mode: ViewMode,
    indicator_row: &F,
) -> (r: Option<usize>)
    requires
        forall|i: usize| #[trigger] indicator_row.requires((i,)),
        cards@.len() > 0 ==> cards@.last().ws_idx < usize::MAX,
    ensures
        list_area == empty_rect() || row < list_area.y || row >= footer.y ==> r is None,
        !(list_area == empty_rect() || row < list_area.y || row >= footer.y) ==> {
            if cards@.len() == 0 {
                r == Some(0usize)
            } else {
                let slots = drop_slots(workspaces@, cards@, view_mode);
                exists|rows: Seq<Option<u16>>| {
                    &&& rows.len() == slots.len()
                    &&& forall|i: int| 0 <= i < slots.len() ==> #[trigger] indicator_row.ensures((slots[i],), rows[i])
                    &&& r == match nearest_slot(row, slots, rows, slots.len() as int) {
                        Some((s, _)) => Some(s),
                        None => None,
                    }
                }
            }
        },
{
    if list_area == Rect::default() || row < list_area.y || row >= footer.y {
        return None;
    }
    if cards.len() == 0 {
        return Some(0);
    }
    let mut slots: Vec<usize> = Vec::new();
    let mut i: usize = 0;
    while i < cards.len()
        invariant
            0 <= i <= cards@.len(),
            slots@ == slots_upto(workspaces@, cards@, view_mode, i as int),
        decreases cards@.len() - i,
    {
        let gap = view_mode == ViewMode::Repo && i > 0 && space_key_matches(workspaces, cards[i].ws_idx, cards[i - 1].ws_idx);
        if !gap {
            slots.push(cards[i].ws_idx);
        }
        i = i + 1;
    }
    let last = cards[cards.len() - 1].ws_idx;
    slots.push(last + 1);
    let ghost all_slots = slots@;
    let ghost mut rows: Seq<Option<u16>> = Seq::empty();
    let mut best: Option<(usize, u16)> = None;
    let mut k: usize = 0;
    while k < slots.len()
        invariant
            0 <= k <= slots@.len(),
            slots@ == all_slots,
            rows.len() == k,
            forall|i: usize| #[trigger] indicator_row.requires((i,)),
            forall|j: int| 0 <= j < k ==> #[trigger] indicator_row.ensures((all_slots[j],), rows[j]),
            match (best, nearest_slot(row, all_slots, rows, k as int)) {
                (Some((b, d)), Some((sb, sd))) => b == sb && d == sd,
                (None, None) => true,
                _ => false,
            },
        decreases slots@.len() - k,
    {
        let insert_idx = slots[k];
        let at = indicator_row(insert_idx);
        let ghost prev_rows = rows;
        proof {
            rows = rows.push(at);
            assert forall|j: int| 0 <= j <= k implies #[trigger] indicator_row.ensures((all_slots[j],), rows[j]) by {
                if j < k {
                    assert(rows[j] == prev_rows[j]);
                }
            }
            lemma_nearest_prefix(row, all_slots, prev_rows, rows, k as int);
        }
        if let Some(slot_row) = at {
            let distance: u16 = if row >= slot_row { row - slot_row } else { slot_row - row };
            let keep = match best {
                Some((best_idx, best_distance)) => distance > best_distance
                    || (distance == best_distance && insert_idx < best_idx),
                None => false,
            };
            if !keep {
                best = Some((insert_idx, distance));
            }
        }
        k = k + 1;
    }
    proof {
        assert(rows.len() == all_slots.len());
    }
    match best {
        Some((idx, _)) => Some(idx),
        None => None,
    }
}

proof fn lemma_nearest_prefix(row: u16, slots: Seq<usize>, a: Seq<Option<u16>>, b: Seq<Option<u16>>, n: int)
    requires
        0 <= n <= a.len(),
        n <= b.len(),
        forall|j: int| 0 <= j < n ==> a[j] == b[j],
    ensures
        nearest_slot(row, slots, a, n) == nearest_slot(row, slots, b, n),
    decreases n,
{
    if n > 0 {
        lemma_nearest_prefix(row, slots, a, b, n - 1);
    }
}

/// The workspace whose card spans screen row `row`, the first such card
/// deciding; none while the sidebar has no footer.
pub fn workspace_at_row(footer: Rect, cards: &[WorkspaceCardArea], row: u16) -> (r: Option<usize>)
    ensures
        footer == empty_rect() ==> r is None,
        footer != empty_rect() ==> match r {
            Some(w) => exists|k: int| 0 <= k < cards@.len() && cards@[k].rect.y <= row < cards@[k].rect.y + cards@[k].rect.height
                && cards@[k].ws_idx == w
                && forall|j: int| 0 <= j < k ==> !((#[trigger] cards@[j]).rect.y <= row < cards@[j].rect.y + cards@[j].rect.height),
            None => forall|j: int| 0 <= j < cards@.len() ==> !((#[trigger] cards@[j]).rect.y <= row < cards@[j].rect.y + cards@[j].rect.height),
        },
{
    if footer == Rect::default() {
        return None;
    }
    let mut k: usize = 0;
    while k < cards.len()
        invariant
            0 <= k <= cards@.len(),
            footer != empty_rect(),
            forall|j: int| 0 <= j < k ==> !((#[trigger] cards@[j]).rect.y <= row < cards@[j].rect.y + cards@[j].rect.height),
        decreases cards@.len() - k,
    {
        let r = cards[k].rect;
        if row >= r.y && (row as u32) < r.y as u32 + r.height as u32 {
            return Some(cards[k].ws_idx);
        }
        k = k + 1;
    }
    None
}

/// The workspace on screen row `row` of the collapsed sidebar, whose
/// workspace strip `ws_area` draws one workspace per row; none when the
/// sidebar is expanded, the row is off the strip, or past the last of
/// `workspace_count` workspaces.
pub fn collapsed_workspace_at_row(collapsed: bool, ws_area: Rect, row: u16, workspace_count: usize) -> (r: Option<usize>)
    ensures
        r == if !collapsed || ws_area == empty_rect() || row < ws_area.y || row >= ws_area.y + ws_area.height
            || row - ws_area.y >= workspace_count {
            None
        } else {
            Some((row - ws_area.y) as usize)
        },
{
    if !collapsed {
        return None;
    }
    if ws_area == Rect::default() || row < ws_area.y || row as u32 >= ws_area.y as u32 + ws_area.height as u32 {
        return None;
    }
    let idx = (row - ws_area.y) as usize;
    if idx < workspace_count {
        Some(idx)
    } else {
        None
    }
}

/// A list scroll offset after a wheel step of `delta` rows: up steps stop
/// at the top, down steps at `max_scroll`.
pub fn scrolled_by(scroll: usize, delta: i16, max_scroll: usize) -> (r: usize)
    ensures
        r == if delta < 0 {
            sat_sub(scroll as int, -(delta as int))
        } else {
            min(if scroll + delta <= usize::MAX { scroll + delta } else { usize::MAX as int }, max_scroll as int)
        },
{
    if delta < 0 {
        let step: usize = if delta == i16::MIN { 32768 } else { (-delta) as usize };
        scroll.saturating_sub(step)
    } else {
        let up = scroll.saturating_add(delta as usize);
        if up < max_scroll { up } else { max_scroll }
    }
}

/// The scroll offset that leaves `offset_from_bottom` rows below the view,
/// for a list scrolled at most `max_offset_from_bottom`.
pub fn scroll_for_offset_from_bottom(max_offset_from_bottom: usize, offset_from_bottom: usize) -> (r: usize)
    ensures
        r == sat_sub(max_offset_from_bottom as int, offset_from_bottom as int),
{
    max_offset_from_bottom.saturating_sub(offset_from_bottom)
}

/// The cell column `col` is on the expanded right panel's left border,
/// which drags to resize it.
pub fn on_right_panel_divider(collapsed: bool, panel: Rect, col: u16) -> (r: bool)
    ensures
        r == (!collapsed && panel.width > 0 && col == panel.x),
{
    !collapsed && panel.width > 0 && col == panel.x
}

} // verus!
