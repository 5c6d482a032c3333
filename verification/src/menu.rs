use vstd::prelude::*;

verus! {

// ---------------------------------------------------------------------------
// Button order
// ---------------------------------------------------------------------------

/// Button `a` comes before button `b`: by rank, and in their original order on a tie.
pub open spec fn before(ranks: Seq<u32>, a: int, b: int) -> bool {
    ranks[a] < ranks[b] || (ranks[a] == ranks[b] && a < b)
}

/// `order` lists the positions `0..ranks.len()` sorted by rank, keeping the original order
/// of buttons of equal rank (what a stable sort by rank gives).
pub open spec fn is_rank_order(ranks: Seq<u32>, order: Seq<usize>) -> bool {
    &&& order.len() == ranks.len()
    &&& forall|i: int| 0 <= i < order.len() ==> (#[trigger] order[i]) < ranks.len()
    &&& forall|i: int, j: int|
        0 <= i < j < order.len() ==> before(ranks, #[trigger] order[i] as int, #[trigger] order[j] as int)
}

/// The positions of the buttons sorted stably by rank.
pub fn order_by_rank(ranks: &Vec<u32>) -> (order: Vec<usize>)
    ensures
        is_rank_order(ranks@, order@),
{
    let n = ranks.len();
    let mut order: Vec<usize> = Vec::new();
    let mut i: usize = 0;
    while i < n
        invariant
            i <= n == ranks@.len(),
            order@.len() == i,
            forall|k: int| 0 <= k < order@.len() ==> (#[trigger] order@[k]) < i,
            forall|a: int, b: int|
                0 <= a < b < order@.len() ==> before(ranks@, #[trigger] order@[a] as int, #[trigger] order@[b] as int),
        decreases n - i,
    {
        let r = ranks[i];
        let mut p: usize = 0;
        while p < order.len() && ranks[order[p]] <= r
            invariant
                p <= order@.len() == i,
                i < n == ranks@.len(),
                forall|k: int| 0 <= k < order@.len() ==> (#[trigger] order@[k]) < i,
                forall|k: int| 0 <= k < p ==> ranks@[#[trigger] order@[k] as int] <= r,
            decreases order@.len() - p,
        {
            p = p + 1;
        }
        let ghost old_order = order@;
        order.insert(p, i);
        proof {
            assert(order@ == old_order.insert(p as int, i));
            assert forall|k: int| 0 <= k < order@.len() implies (#[trigger] order@[k]) < i + 1 by {
                if k < p {
                    assert(order@[k] == old_order[k]);
                } else if k > p {
                    assert(order@[k] == old_order[k - 1]);
                }
            }
            assert forall|a: int, b: int| 0 <= a < b < order@.len() implies before(
                ranks@,
                #[trigger] order@[a] as int,
                #[trigger] order@[b] as int,
            ) by {
                if b < p {
                    assert(order@[a] == old_order[a] && order@[b] == old_order[b]);
                } else if b == p {
                    assert(order@[a] == old_order[a]);
                    assert(ranks@[old_order[a] as int] <= r);
                } else if a < p {
                    assert(order@[a] == old_order[a] && order@[b] == old_order[b - 1]);
                } else if a == p {
                    assert(order@[b] == old_order[b - 1]);
                    assert(p < old_order.len());
                    assert(ranks@[old_order[p as int] as int] > r);
                    if b - 1 > p {
                        assert(before(ranks@, old_order[p as int] as int, old_order[b - 1] as int));
                    }
                } else {
                    assert(order@[a] == old_order[a - 1] && order@[b] == old_order[b - 1]);
                }
            }
        }
        i = i + 1;
    }
    order
}

// ---------------------------------------------------------------------------
// Moving the selection
// ---------------------------------------------------------------------------

/// How the pointer interacts with one button this frame.
#[derive(Clone, Copy, PartialEq, Eq, Debug, Structural)]
pub enum ButtonInteraction {
    Pressed,
    Hovered,
    Idle,
}

/// Where one gamepad's left stick points on the vertical axis: up past half way,
/// down past half way, or neither (or the gamepad has no such stick).
#[derive(Clone, Copy, PartialEq, Eq, Debug, Structural)]
pub enum StickTilt {
    Up,
    Down,
    Neutral,
}

/// The menu moves once per tilt of a stick: a tilt counts only when every stick was
/// back in the middle the frame before.
pub struct StickStep {
    pub up: bool,
    pub down: bool,
    /// Whether every stick is in the middle now.
    pub neutral: bool,
}

pub open spec fn any_tilt(tilts: Seq<StickTilt>, t: StickTilt) -> bool {
    exists|i: int| 0 <= i < tilts.len() && tilts[i] == t
}

/// Turns the stick positions of all gamepads into at most one step up and one down.
pub fn stick_step(was_neutral: bool, tilts: &Vec<StickTilt>) -> (res: StickStep)
    ensures
        res.up == (was_neutral && any_tilt(tilts@, StickTilt::Up)),
        res.down == (was_neutral && any_tilt(tilts@, StickTilt::Down)),
        res.neutral == !(any_tilt(tilts@, StickTilt::Up) || any_tilt(tilts@, StickTilt::Down)),
{
    let mut up = false;
    let mut down = false;
    let mut any_up = false;
    let mut any_down = false;
    let n = tilts.len();
    let mut i: usize = 0;
    while i < n
        invariant
            i <= n == tilts@.len(),
            any_up == any_tilt(tilts@.take(i as int), StickTilt::Up),
            any_down == any_tilt(tilts@.take(i as int), StickTilt::Down),
            up == (was_neutral && any_up),
            down == (was_neutral && any_down),
        decreases n - i,
    {
        proof {
            assert forall|t: StickTilt| #![auto] any_tilt(tilts@.take(i + 1), t) == (any_tilt(
                tilts@.take(i as int),
                t,
            ) || tilts@[i as int] == t) by {
                if any_tilt(tilts@.take(i + 1), t) {
                    let k = choose|k: int| 0 <= k < i + 1 && #[trigger] tilts@.take(i + 1)[k] == t;
                    if k < i {
                        assert(tilts@.take(i as int)[k] == t);
                    }
                }
                if any_tilt(tilts@.take(i as int), t) {
                    let k = choose|k: int| 0 <= k < i && #[trigger] tilts@.take(i as int)[k] == t;
                    assert(tilts@.take(i + 1)[k] == t);
                }
                if tilts@[i as int] == t {
                    assert(tilts@.take(i + 1)[i as int] == t);
                }
            }
        }
        match tilts[i] {
            StickTilt::Up => {
                any_up = true;
                if was_neutral {
                    up = true;
                }
            },
            StickTilt::Down => {
                any_down = true;
                if was_neutral {
                    down = true;
                }
            },
            StickTilt::Neutral => {},
        }
        i = i + 1;
    }
    assert(tilts@.take(n as int) =~= tilts@);
    StickStep { up, down, neutral: !(any_up || any_down) }
}

/// The selection after the up and down presses of one frame: up first, wrapping from
/// the first button to the last; then down, wrapping from the last to the first.
/// Nothing moves when there are no buttons.
pub open spec fn navigate(selected: int, total: int, up: bool, down: bool) -> int {
    let a = if total > 0 && up {
        if selected == 0 {
            total - 1
        } else {
            selected - 1
        }
    } else {
        selected
    };
    if total > 0 && down {
        (a + 1) % total
    } else {
        a
    }
}

/// The last hovered button takes the selection.
pub open spec fn hover_target(interactions: Seq<ButtonInteraction>, selected: int) -> int
    decreases interactions.len(),
{
    if interactions.len() == 0 {
        selected
    } else if interactions.last() == ButtonInteraction::Hovered {
        interactions.len() - 1
    } else {
        hover_target(interactions.drop_last(), selected)
    }
}

/// The button that acts this frame: the last one that is pressed, or that is selected
/// while the select button went down.
pub open spec fn triggered(interactions: Seq<ButtonInteraction>, selected: int, select: bool) -> Option<int>
    decreases interactions.len(),
{
    if interactions.len() == 0 {
        None
    } else if interactions.last() == ButtonInteraction::Pressed || (select && selected
        == interactions.len() - 1) {
        Some(interactions.len() - 1)
    } else {
        triggered(interactions.drop_last(), selected, select)
    }
}

/// What one frame of input does to a menu.
pub struct MenuStep {
    /// The selected button afterwards.
    pub selected: usize,
    /// The position of the button that acts, if any.
    pub triggered: Option<usize>,
}

/// One frame of menu input over the buttons in display order: moves the selection,
/// lets hovering take it, and finds the button that acts.
pub fn menu_step(
    selected: usize,
    interactions: &Vec<ButtonInteraction>,
    up: bool,
    down: bool,
    select: bool,
) -> (res: MenuStep)
    requires
        selected < usize::MAX,
    ensures
        res.selected == hover_target(
            interactions@,
            navigate(selected as int, interactions@.len() as int, up, down),
        ),
        match res.triggered {
            Some(i) => triggered(interactions@, res.selected as int, select) == Some(i as int),
            None => triggered(interactions@, res.selected as int, select) is None,
        },
{
    let total = interactions.len();
    let mut sel = selected;
    if total > 0 {
        if up {
            sel = if sel == 0 {
                total - 1
            } else {
                sel - 1
            };
        }
        if down {
            sel = (sel + 1) % total;
        }
    }
    let ghost nav = sel as int;
    assert(nav == navigate(selected as int, total as int, up, down));
    let mut i: usize = 0;
    assert(interactions@.take(0) =~= Seq::<ButtonInteraction>::empty());
    while i < total
        invariant
            i <= total == interactions@.len(),
            sel as int == hover_target(interactions@.take(i as int), nav),
            sel == nav || sel < i,
        decreases total - i,
    {
        assert(interactions@.take(i + 1).drop_last() =~= interactions@.take(i as int));
        if interactions[i] == ButtonInteraction::Hovered {
            sel = i;
        }
        i = i + 1;
    }
    assert(interactions@.take(total as int) =~= interactions@);
    let mut trig: Option<usize> = None;
    let mut j: usize = 0;
    while j < total
        invariant
            j <= total == interactions@.len(),
            match trig {
                Some(t) => triggered(interactions@.take(j as int), sel as int, select) == Some(t as int),
                None => triggered(interactions@.take(j as int), sel as int, select) is None,
            },
        decreases total - j,
    {
        assert(interactions@.take(j + 1).drop_last() =~= interactions@.take(j as int));
        if interactions[j] == ButtonInteraction::Pressed || (select && j == sel) {
            trig = Some(j);
        }
        j = j + 1;
    }
    MenuStep { selected: sel, triggered: trig }
}

/// How a button is drawn.
#[derive(Clone, Copy, PartialEq, Eq, Debug, Structural)]
pub enum ButtonLook {
    Pressed,
    Selected,
    Normal,
}

/// A pressed button shows as pressed, the selected one as selected, the rest plainly.
pub fn button_look(interaction: ButtonInteraction, index: usize, selected: usize) -> (res:
    ButtonLook)
    ensures
        res == if interaction == ButtonInteraction::Pressed {
            ButtonLook::Pressed
        } else if index == selected {
            ButtonLook::Selected
        } else {
            ButtonLook::Normal
        },
{
    if interaction == ButtonInteraction::Pressed {
        ButtonLook::Pressed
    } else if index == selected {
        ButtonLook::Selected
    } else {
        ButtonLook::Normal
    }
}

/// Pressing down and then up (or up and then down) on a menu returns to the button
/// where the selection started.
pub proof fn lemma_down_then_up(selected: int, total: int)
    requires
        0 <= selected < total,
    ensures
        navigate(navigate(selected, total, false, true), total, true, false) == selected,
        navigate(navigate(selected, total, true, false), total, false, true) == selected,
        0 <= navigate(selected, total, false, true) < total,
        0 <= navigate(selected, total, true, false) < total,
{
    vstd::arithmetic::div_mod::lemma_mod_self_0(total);
    if selected + 1 < total {
        vstd::arithmetic::div_mod::lemma_small_mod((selected + 1) as nat, total as nat);
    }
    if selected > 0 {
        vstd::arithmetic::div_mod::lemma_small_mod(selected as nat, total as nat);
    }
}

/// The selection stays on a button: whatever the presses, a selection on one of the
/// buttons stays on one of them.
pub proof fn lemma_navigate_in_range(selected: int, total: int, up: bool, down: bool)
    requires
        0 <= selected < total,
    ensures
        0 <= navigate(selected, total, up, down) < total,
{
    vstd::arithmetic::div_mod::lemma_mod_pos_bound(
        (if up { if selected == 0 { total - 1 } else { selected - 1 } } else { selected }) + 1,
        total,
    );
}

/// Hovering leaves the selection alone or moves it onto a button.
proof fn lemma_hover_target_range(interactions: Seq<ButtonInteraction>, selected: int)
    ensures
        hover_target(interactions, selected) == selected || 0 <= hover_target(
            interactions,
            selected,
        ) < interactions.len(),
    decreases interactions.len(),
{
    if interactions.len() > 0 {
        lemma_hover_target_range(interactions.drop_last(), selected);
    }
}

/// The button that acts is one of the buttons, and the one under a press when the
/// select button was not used.
proof fn lemma_triggered_range(interactions: Seq<ButtonInteraction>, selected: int, select: bool)
    ensures
        triggered(interactions, selected, select) matches Some(i) ==> 0 <= i
            < interactions.len() && (interactions[i] == ButtonInteraction::Pressed || (select
            && i == selected)),
        !select && (forall|i: int|
            0 <= i < interactions.len() ==> #[trigger] interactions[i] != ButtonInteraction::Pressed)
            ==> triggered(interactions, selected, select) is None,
    decreases interactions.len(),
{
    if interactions.len() > 0 {
        let init = interactions.drop_last();
        lemma_triggered_range(init, selected, select);
        if let Some(i) = triggered(init, selected, select) {
            assert(init[i] == interactions[i]);
        }
        assert forall|i: int| 0 <= i < init.len() implies #[trigger] init[i] == interactions[i] by {}
    }
}

/// A frame of menu input keeps the selection on one of the buttons, and only a pressed
/// button, or the selected one when the select button went down, acts.
pub proof fn lemma_menu_step_in_range(
    selected: int,
    interactions: Seq<ButtonInteraction>,
    up: bool,
    down: bool,
    select: bool,
)
    requires
        0 <= selected < interactions.len(),
    ensures
        0 <= hover_target(interactions, navigate(selected, interactions.len() as int, up, down))
            < interactions.len(),
        triggered(
            interactions,
            hover_target(interactions, navigate(selected, interactions.len() as int, up, down)),
            select,
        ) matches Some(i) ==> 0 <= i < interactions.len() && (interactions[i]
            == ButtonInteraction::Pressed || (select && i == hover_target(
            interactions,
            navigate(selected, interactions.len() as int, up, down),
        ))),
{
    let nav = navigate(selected, interactions.len() as int, up, down);
    lemma_navigate_in_range(selected, interactions.len() as int, up, down);
    lemma_hover_target_range(interactions, nav);
    lemma_triggered_range(interactions, hover_target(interactions, nav), select);
}

/// Pressing down as many times as there are buttons comes back to the start.
pub proof fn lemma_down_cycle(selected: int, total: int, k: nat)
    requires
        0 <= selected < total,
    ensures
        navigate_down_times(selected, total, k) == (selected + k) % total,
    decreases k,
{
    if k > 0 {
        lemma_down_cycle(selected, total, (k - 1) as nat);
        let p = navigate_down_times(selected, total, (k - 1) as nat);
        assert(p == (selected + k - 1) % total);
        vstd::arithmetic::div_mod::lemma_add_mod_noop_right(1, selected + k - 1, total);
        assert(1 + (selected + k - 1) == selected + k);
        assert(navigate(p, total, false, true) == (p + 1) % total);
        assert(p + 1 == 1 + (selected + k - 1) % total);
    } else {
        vstd::arithmetic::div_mod::lemma_small_mod(selected as nat, total as nat);
    }
}

/// The selection after `k` presses of down.
pub open spec fn navigate_down_times(selected: int, total: int, k: nat) -> int
    decreases k,
{
    if k == 0 {
        selected
    } else {
        navigate(navigate_down_times(selected, total, (k - 1) as nat), total, false, true)
    }
}

} // verus!
