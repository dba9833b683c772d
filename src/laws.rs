//! Properties of the navigation state machine, proved over its transition.
use vstd::prelude::*;
use crate::model::{Message, ModelView, Screen};

verus! {

/// The state after handling the same message `k` times, follow-up messages aside.
pub open spec fn repeated(m: ModelView, msg: Message, k: nat) -> ModelView
    decreases k,
{
    if k == 0 {
        m
    } else {
        repeated(m, msg, (k - 1) as nat).step(msg).0
    }
}

proof fn lemma_scroll_down_steps(m: ModelView, j: nat)
    requires
        m.screen == Screen::Main,
        m.find is None,
        m.lines.len() > 0 ==> m.main_pos.selected is Some,
        m.lines.len() <= usize::MAX,
    ensures
        repeated(m, Message::ScrollDown, j).screen == Screen::Main,
        repeated(m, Message::ScrollDown, j).find is None,
        repeated(m, Message::ScrollDown, j).lines == m.lines,
        m.lines.len() == 0 && j >= 1 ==> repeated(m, Message::ScrollDown, j).main_pos.selected is None,
        m.lines.len() == 0 && j == 0 ==> repeated(m, Message::ScrollDown, j).main_pos.selected
            == m.main_pos.selected,
        m.lines.len() > 0 && j >= 1 ==> repeated(m, Message::ScrollDown, j).main_pos.selected == Some(
            if m.main_pos.selected.unwrap() + j < m.lines.len() {
                (m.main_pos.selected.unwrap() + j) as usize
            } else {
                (m.lines.len() - 1) as usize
            },
        ),
    decreases j,
{
    if j > 0 {
        lemma_scroll_down_steps(m, (j - 1) as nat);
    }
}

/// Scrolling down the line list more often than it has lines selects its
/// last line, or nothing in an empty list; no step selects a line outside
/// the list, and no step asks for a follow-up message.
pub proof fn lemma_scroll_down_clamps(m: ModelView, k: nat)
    requires
        m.screen == Screen::Main,
        m.find is None,
        m.lines.len() > 0 ==> m.main_pos.selected is Some,
        m.lines.len() <= usize::MAX,
        k > m.lines.len(),
    ensures
        repeated(m, Message::ScrollDown, k).main_pos.selected == if m.lines.len() == 0 {
            None
        } else {
            Some((m.lines.len() - 1) as usize)
        },
        forall|j: nat|
            1 <= j <= k ==> match #[trigger] repeated(m, Message::ScrollDown, j).main_pos.selected {
                Some(i) => i < m.lines.len(),
                None => m.lines.len() == 0,
            },
        forall|j: nat| j < k ==> (#[trigger] repeated(m, Message::ScrollDown, j)).step(Message::ScrollDown).1 is None,
{
    lemma_scroll_down_steps(m, k);
    assert forall|j: nat| j < k implies (#[trigger] repeated(m, Message::ScrollDown, j)).step(
        Message::ScrollDown,
    ).1 is None by {
        lemma_scroll_down_steps(m, j);
    }
    assert forall|j: nat| 1 <= j <= k implies match #[trigger] repeated(
        m,
        Message::ScrollDown,
        j,
    ).main_pos.selected {
        Some(i) => i < m.lines.len(),
        None => m.lines.len() == 0,
    } by {
        lemma_scroll_down_steps(m, j);
    }
}

/// On the line list, scrolling left and then right comes back to the same
/// state, where a field was hidden before and the offset was in bounds.
pub proof fn lemma_scroll_left_then_right(m: ModelView)
    requires
        m.screen == Screen::Main,
        m.find is None,
        0 < m.field_offset < m.high_water_mark,
    ensures
        m.step(Message::ScrollLeft).0.step(Message::ScrollRight).0 == (ModelView {
            last_action_result: seq![],
            ..m
        }),
{
}

/// Opening a search and leaving it at once gives back the screen and every
/// position as they were; only the status text is cleared.
pub proof fn lemma_find_open_then_exit(m: ModelView)
    requires
        m.find is None,
        m.screen != Screen::ValueDetails,
    ensures
        m.step(Message::OpenFindTask).1 is None,
        m.step(Message::OpenFindTask).0.step(Message::Exit).0 == (ModelView {
            last_action_result: seq![],
            ..m
        }),
{
}

/// Every change of screen leaves no search open, and leaving a search
/// closes it.
pub proof fn lemma_screen_switch_clears_find(m: ModelView, msg: Message)
    ensures
        m.step(msg).0.screen != m.screen ==> m.step(msg).0.find is None,
        m.find is Some && msg == Message::Exit ==> m.step(msg).0.find is None,
{
}

/// A save that fails leaves the screen, the positions and the search as they
/// were, and says so on the status line.
pub proof fn lemma_failed_save_keeps_navigation(m: ModelView)
    ensures
        ({
            let r = m.step(Message::SaveSettings).0.with_save_outcome(false);
            &&& r.screen == m.screen
            &&& r.main_pos == m.main_pos
            &&& r.object_pos == m.object_pos
            &&& r.field_name == m.field_name
            &&& r.value_scroll == m.value_scroll
            &&& r.find == m.find
            &&& r.last_action_result == "Error: failed to save settings"@
        }),
{
}

} // verus!
