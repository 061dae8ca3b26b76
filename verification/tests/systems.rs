use kaijutsu_app::input::action::Action;
use kaijutsu_app::input::binding::InputSource;
use kaijutsu_app::input::context::{ApprovalSurfaces, InputContext, Screen};
use kaijutsu_app::input::escape::EscapeState;
use kaijutsu_app::input::focus::{
    in_compose, in_conversation, on_chat_surface, on_shell_surface, scroll_context_active,
    ActiveSurface, FocusArea,
};
use kaijutsu_app::input::interrupt::InterruptState;
use kaijutsu_app::input::keys::KeyCode;
use kaijutsu_app::input::overlay::{InputMode, InputOverlay};
use kaijutsu_app::input::sequence::SequenceState;
use kaijutsu_app::input::systems::{
    apply_focused_block_marker, cleanup_stale_focused_markers, enter_chat_overlay, enter_overlay,
    handle_collapse_toggle, handle_detach, handle_focus_compose, handle_focus_cycle,
    handle_interrupt, handle_navigate_blocks, handle_pop_level, handle_prompt_prefill,
    handle_tiling, handle_toggle_block_excluded, handle_toggle_surface, prefill_overlay,
    screenshot_path, BlockState, FocusDirection, InterruptPlan, RowKey, SplitDirection, TilingOp,
};
use kaijutsu_app::input::vim::machine::VimMachineResource;
use kaijutsu_app::time::Moment;

fn after_ms(ms: i64) -> Moment {
    Moment { nanos: ms * 1_000_000 }
}

fn overlay(text: &str) -> InputOverlay {
    InputOverlay {
        text: text.to_string(),
        cursor: text.len(),
        selection_anchor: None,
        vim_mode: None,
        mode: InputMode::Shell,
    }
}

// ── Focus ──

#[test]
fn a_full_tab_cycle_returns() {
    for start in [FocusArea::Compose, FocusArea::Conversation, FocusArea::Dialog] {
        let mut area = start;
        handle_focus_cycle(&Action::CycleFocusForward, &mut area);
        assert_eq!(area == start, start == FocusArea::Dialog, "a dialog keeps the focus");
        handle_focus_cycle(&Action::CycleFocusBackward, &mut area);
        assert_eq!(area, start);
    }
}

#[test]
fn summoning_the_chat_focuses_it() {
    let mut area = FocusArea::Conversation;
    let mut surface = ActiveSurface::Shell;
    assert!(!handle_focus_compose(&Action::Quit, &mut area, &mut surface));
    assert!(handle_focus_compose(&Action::SummonChat, &mut area, &mut surface));
    assert_eq!((area, surface), (FocusArea::Compose, ActiveSurface::Chat));
}

#[test]
fn toggling_the_surface_twice_returns() {
    let mut area = FocusArea::Conversation;
    let mut surface = ActiveSurface::default();
    let mut vim = VimMachineResource::new();
    vim.enter_insert();
    assert!(on_chat_surface(surface));
    assert!(!handle_toggle_surface(&Action::Quit, &mut area, &mut surface, &mut vim));
    assert_eq!(vim.mode_display().as_deref(), Some("-- INSERT --"));
    assert!(handle_toggle_surface(&Action::ToggleSurface, &mut area, &mut surface, &mut vim));
    assert!(on_shell_surface(surface) && surface.is_shell());
    assert!(in_compose(area));
    assert_eq!(vim.mode_display(), None, "the machine starts afresh");
    handle_toggle_surface(&Action::ToggleSurface, &mut area, &mut surface, &mut vim);
    assert_eq!(surface, ActiveSurface::Chat);

    let mut empty = overlay("");
    enter_overlay(&mut empty, &mut vim);
    assert_eq!(empty.vim_mode.as_deref(), Some("-- INSERT --"));
    vim.reset();
    let mut full = overlay("text");
    enter_overlay(&mut full, &mut vim);
    assert_eq!(full.vim_mode, None);
}

#[test]
fn popping_a_level_leaves_compose_and_the_shell() {
    let mut area = FocusArea::Compose;
    let mut surface = ActiveSurface::Shell;
    let mut vim = VimMachineResource::new();
    vim.enter_insert();
    assert!(handle_pop_level(&Action::PopLevel, &mut area, &mut surface, &mut vim));
    assert_eq!((area, surface), (FocusArea::Conversation, ActiveSurface::Chat));
    assert_eq!(vim.mode_display(), None);
    assert!(!handle_pop_level(&Action::PopLevel, &mut area, &mut surface, &mut vim));
}

#[test]
fn focus_areas_have_names_and_roles() {
    assert_eq!(FocusArea::Compose.name(), "COMPOSE");
    assert!(FocusArea::Conversation.is_navigation() && !FocusArea::Compose.is_navigation());
    assert!(in_conversation(FocusArea::Conversation) && !in_conversation(FocusArea::Dialog));
    assert!(scroll_context_active(FocusArea::Conversation));
}

#[test]
fn an_approval_surface_claims_its_context() {
    let claim = |sheet, ribbon| ApprovalSurfaces { sheet, ribbon }.claimant();
    assert_eq!(claim(false, false), None);
    assert_eq!(claim(true, false), Some(InputContext::AskSheet));
    assert_eq!(claim(true, true), Some(InputContext::LedgerRibbon));
}

// ── The overlay ──

#[test]
fn an_empty_overlay_takes_up_the_draft() {
    let mut vim = VimMachineResource::new();
    let mut ov = overlay("");
    enter_chat_overlay(&mut ov, Some("draft é"), false, &mut vim);
    assert_eq!((ov.text.as_str(), ov.cursor, ov.mode), ("draft é", 8, InputMode::Chat));
    assert_eq!(ov.vim_mode, None, "there is text to look at");

    let mut kept = overlay("mine");
    enter_chat_overlay(&mut kept, Some("draft"), false, &mut vim);
    assert_eq!(kept.text, "mine");

    let mut cleared = overlay("");
    enter_chat_overlay(&mut cleared, Some("old"), true, &mut vim);
    assert_eq!(cleared.text, "", "a pending clear drops it");
    assert_eq!(cleared.vim_mode.as_deref(), Some("-- INSERT --"));
}

#[test]
fn prompts_are_typed_ahead_in_the_shell() {
    let mut area = FocusArea::Conversation;
    let mut surface = ActiveSurface::Chat;
    let line = handle_prompt_prefill(&Action::PromptContextRename, &mut area, &mut surface);
    assert_eq!(line, Some("kj context rename "));
    assert_eq!((area, surface), (FocusArea::Compose, ActiveSurface::Shell));
    let line = handle_prompt_prefill(&Action::PromptContextSwitch, &mut area, &mut surface);
    assert_eq!(line, Some("kj context switch "));
    assert_eq!(handle_prompt_prefill(&Action::Quit, &mut area, &mut surface), None);

    let mut ov = overlay("something else");
    let mut vim = VimMachineResource::new();
    prefill_overlay(&mut ov, "kj context switch ", &mut vim);
    assert_eq!((ov.text.as_str(), ov.cursor), ("kj context switch ", 18));
    assert_eq!(ov.vim_mode.as_deref(), Some("-- INSERT --"));
}

#[test]
fn detaching_goes_to_the_conversation() {
    assert_eq!(
        handle_detach(&Action::DetachToConversation, Screen::Room),
        Some(Screen::Conversation)
    );
    assert_eq!(handle_detach(&Action::DetachToConversation, Screen::Conversation), None);
    assert_eq!(handle_detach(&Action::Quit, Screen::Room), None);
}

// ── Taps ──

#[test]
fn an_interrupt_escalates_by_presses() {
    let mut state = InterruptState::default();
    let press = Action::InterruptContext { immediate: false };
    let plan = |immediate, clear| Some(InterruptPlan { immediate, clear });
    assert_eq!(handle_interrupt(&press, &mut state, after_ms(0)), plan(false, false));
    assert_eq!(handle_interrupt(&press, &mut state, after_ms(100)), plan(true, false));
    assert_eq!(handle_interrupt(&press, &mut state, after_ms(200)), plan(true, true));
    assert_eq!(
        handle_interrupt(&press, &mut state, after_ms(300)),
        plan(false, false),
        "the third press starts over"
    );
    assert_eq!(handle_interrupt(&press, &mut state, after_ms(900)), plan(false, false));
    assert_eq!(handle_interrupt(&Action::Quit, &mut state, after_ms(950)), None);
}

#[test]
fn escapes_are_counted_within_a_window() {
    let mut state = EscapeState::default();
    assert_eq!(state.press_at(after_ms(0)), 1);
    assert_eq!(state.press_at(after_ms(499)), 2);
    assert_eq!(state.press_at(after_ms(999)), 1, "the window is exclusive");
    state.reset();
    assert_eq!(state.press_at(after_ms(1000)), 1);
}

#[test]
fn a_sequence_waits_for_its_second_key() {
    let mut state = SequenceState::default();
    let g = InputSource::Key(KeyCode::KeyG);
    assert!(!state.matches_prefix(&g));
    state.start_at(g, after_ms(0));
    assert!(state.matches_prefix(&g));
    assert!(!state.is_expired_at(500, after_ms(499)));
    assert!(state.is_expired_at(500, after_ms(501)));
    state.clear();
    assert!(!state.matches_prefix(&g));
}

// ── Blocks ──

fn rows() -> Vec<RowKey> {
    vec![
        RowKey::Header(1),
        RowKey::Block(10),
        RowKey::Block(11),
        RowKey::Header(2),
        RowKey::Block(12),
    ]
}

#[test]
fn navigation_passes_over_headers() {
    let next = vec![Action::FocusNextBlock];
    assert_eq!(handle_navigate_blocks(&next, &rows(), Some(11)), Some((12, 2)));
    assert_eq!(handle_navigate_blocks(&next, &rows(), Some(12)), Some((12, 2)), "at the end");
    assert_eq!(handle_navigate_blocks(&next, &rows(), None), Some((10, 0)));
    let previous = vec![Action::FocusPrevBlock];
    assert_eq!(handle_navigate_blocks(&previous, &rows(), None), Some((12, 2)));
    assert_eq!(handle_navigate_blocks(&previous, &rows(), Some(12)), Some((11, 1)));
    assert_eq!(handle_navigate_blocks(&next, &Vec::new(), None), None);
    assert_eq!(handle_navigate_blocks(&vec![Action::Quit], &rows(), None), None);
}

#[test]
fn the_last_navigation_of_a_frame_counts() {
    let actions = vec![Action::FocusNextBlock, Action::FocusLastBlock, Action::Quit];
    assert_eq!(handle_navigate_blocks(&actions, &rows(), Some(10)), Some((12, 2)));
    let actions = vec![Action::FocusLastBlock, Action::FocusFirstBlock];
    assert_eq!(handle_navigate_blocks(&actions, &rows(), Some(12)), Some((10, 0)));
}

#[test]
fn the_marker_follows_the_focused_block() {
    let change = apply_focused_block_marker(Some(11), &vec![(70, 10), (71, 12)], Some(90));
    assert_eq!((change.remove, change.insert), (vec![70, 71], Some(90)));
    let change = apply_focused_block_marker(Some(11), &vec![(70, 10), (90, 11)], Some(90));
    assert_eq!((change.remove, change.insert), (vec![70], None));
    let change = apply_focused_block_marker(None, &vec![(70, 10)], Some(90));
    assert_eq!((change.remove, change.insert), (vec![], None));
    assert!(cleanup_stale_focused_markers(FocusArea::Compose));
    assert!(!cleanup_stale_focused_markers(FocusArea::Conversation));
}

#[test]
fn collapsing_toggles_thinking_blocks() {
    let block = |id, thinking, collapsed| BlockState { id, thinking, collapsed };
    let before = vec![block(1, true, false), block(2, false, false), block(3, true, true)];
    let mut blocks = before.clone();
    handle_collapse_toggle(&Action::CollapseToggle, &mut blocks);
    assert_eq!(
        blocks,
        vec![block(1, true, true), block(2, false, false), block(3, true, false)]
    );
    handle_collapse_toggle(&Action::CollapseToggle, &mut blocks);
    assert_eq!(blocks, before);
    handle_collapse_toggle(&Action::Quit, &mut blocks);
    assert_eq!(blocks, before);
}

#[test]
fn exclusion_toggles_where_someone_listens() {
    let toggle = Action::ToggleBlockExcluded;
    assert_eq!(handle_toggle_block_excluded(&toggle, Some(false), true), Some(true));
    assert_eq!(handle_toggle_block_excluded(&toggle, Some(true), true), Some(false));
    assert_eq!(handle_toggle_block_excluded(&toggle, None, true), None);
    assert_eq!(handle_toggle_block_excluded(&toggle, Some(false), false), None);
    assert_eq!(handle_toggle_block_excluded(&Action::Quit, Some(false), true), None);
}

#[test]
fn tiling_actions_have_operations() {
    assert_eq!(
        handle_tiling(&Action::FocusPaneLeft),
        Some(TilingOp::Focus(FocusDirection::Left))
    );
    assert_eq!(handle_tiling(&Action::SplitVertical), Some(TilingOp::Split(SplitDirection::Row)));
    assert_eq!(handle_tiling(&Action::ClosePane), Some(TilingOp::Close));
    assert_eq!(handle_tiling(&Action::TogglePreviousPaneFocus), Some(TilingOp::TogglePrevious));
    assert_eq!(handle_tiling(&Action::Quit), None);
}

#[test]
fn screenshots_are_named_by_the_second() {
    assert_eq!(screenshot_path(1_700_000_000), "design/screenshots/screenshot-1700000000.png");
}
