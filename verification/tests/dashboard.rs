use kaijutsu_app::dashboard::seat_selector::{
    current_seat_text, seat_count_badge, seat_options, SeatCommand, SeatDropdown,
};
use kaijutsu_app::dashboard::{
    instance_name, joined_document, kernel_label, seat_lines, AppScreen, ConnectionStatus, Context,
    DashboardState, KernelInfo, ResultEffect, RpcResult, SeatId, SeatInfo, StatusEffect,
};

fn kernel(id: &str) -> KernelInfo {
    KernelInfo { id: id.to_string(), name: id.to_uppercase(), user_count: 12 }
}

fn context(name: &str) -> Context {
    Context { name: name.to_string() }
}

fn seat(nick: &str, context: &str) -> SeatInfo {
    SeatInfo {
        id: SeatId {
            nick: nick.to_string(),
            instance: "laptop".to_string(),
            kernel: "k1".to_string(),
            context: context.to_string(),
        },
    }
}

fn listed() -> DashboardState {
    let mut state = DashboardState::default();
    state.on_result(
        RpcResult::KernelList { kernels: vec![kernel("k1"), kernel("k2")], generation: 3 },
        3,
    );
    state.on_result(
        RpcResult::ContextList {
            contexts: vec![context("lobby"), context("bridge")],
            generation: 3,
        },
        3,
    );
    state
}

#[test]
fn lists_select_their_first_item() {
    let state = listed();
    assert_eq!(state.selected_kernel().map(|k| k.id.as_str()), Some("k1"));
    assert_eq!(state.selected_context().map(|c| c.name.as_str()), Some("lobby"));
}

#[test]
fn a_list_from_an_old_connection_counts_for_nothing() {
    let mut state = listed();
    state.on_result(RpcResult::KernelList { kernels: Vec::new(), generation: 2 }, 3);
    state.on_result(RpcResult::MySeatsList { seats: vec![seat("amy", "lobby")], generation: 2 }, 3);
    assert_eq!(state.kernels.len(), 2);
    assert!(state.my_seats.is_empty());
}

#[test]
fn joining_and_leaving_change_the_screen() {
    let mut state = listed();
    let joined = RpcResult::ContextJoined {
        seat: seat("amy", "bridge"),
        document_id: "k1@bridge".to_string(),
    };
    match state.on_result(joined, 3) {
        ResultEffect::OpenConversation { document_id } => assert_eq!(document_id, "k1@bridge"),
        other => panic!("expected a conversation, got {other:?}"),
    }
    assert!(state.current_seat.is_some());
    assert!(matches!(state.on_result(RpcResult::ContextLeft, 3), ResultEffect::ShowDashboard));
    assert!(state.current_seat.is_none());
    assert!(matches!(state.on_result(RpcResult::Other, 3), ResultEffect::Nothing));
}

#[test]
fn a_lost_connection_empties_the_dashboard() {
    let mut state = listed();
    assert_eq!(state.on_status(ConnectionStatus::Connected), StatusEffect::RequestLists);
    assert_eq!(state.on_status(ConnectionStatus::Pending), StatusEffect::Nothing);
    assert_eq!(state.kernels.len(), 2);
    assert_eq!(state.on_status(ConnectionStatus::Disconnected), StatusEffect::ShowDashboard);
    assert!(state.kernels.is_empty() && state.contexts.is_empty());
}

#[test]
fn selecting_a_kernel_joins_its_lobby() {
    let mut state = listed();
    let request = state.select_kernel(1).expect("there is such a kernel");
    assert_eq!(
        (request.kernel_id.as_str(), request.context_name.as_str(), request.instance.as_str()),
        ("k2", "lobby", "bevy-client")
    );
    assert!(state.contexts.is_empty() && state.selected_context.is_none());
    assert!(state.select_kernel(9).is_none());
}

#[test]
fn enter_takes_a_seat_in_the_first_of_each() {
    let mut state = listed();
    state.selected_kernel = None;
    state.selected_context = None;
    assert!(state.take_seat("desk").is_none());
    assert!(state.on_enter(AppScreen::Conversation, "desk").is_none());
    let request = state.on_enter(AppScreen::Dashboard, "desk").expect("a seat");
    assert_eq!(
        (request.kernel_id.as_str(), request.context_name.as_str(), request.instance.as_str()),
        ("k1", "lobby", "desk")
    );
    state.select_context(1);
    let request = state.take_seat("desk").expect("a seat");
    assert_eq!(request.context_name, "bridge");
}

#[test]
fn what_the_dashboard_shows() {
    assert_eq!(kernel_label(&kernel("k1")), "K1 (12 users)");
    let lines = seat_lines(&seat("amy", "bridge").id);
    assert_eq!(lines, ("@amy:laptop".to_string(), "  :bridge@k1".to_string()));
    assert_eq!(joined_document("k1", "bridge"), Some("k1@bridge".to_string()));
    assert_eq!(joined_document("k1", "lobby"), None);
    assert_eq!(instance_name(Some("amy"), Some("bo")), "amy");
    assert_eq!(instance_name(None, Some("bo")), "bo");
    assert_eq!(instance_name(None, None), "default");
}

// ── The seat selector ──

#[test]
fn the_selector_shows_the_current_seat() {
    assert_eq!(current_seat_text(Some(&seat("amy", "bridge"))), "@amy:laptop • bridge");
    assert_eq!(current_seat_text(None), "No seat");
    assert_eq!(seat_count_badge(1), None);
    assert_eq!(seat_count_badge(10), Some("10".to_string()));
}

#[test]
fn the_current_seat_is_not_offered() {
    let seats = vec![seat("amy", "lobby"), seat("amy", "bridge"), seat("amy", "galley")];
    let options = seat_options(&seats, Some(&seat("amy", "bridge")));
    let shown: Vec<(usize, &str)> = options.iter().map(|o| (o.index, o.label.as_str())).collect();
    assert_eq!(shown, vec![(0, "@amy:laptop • lobby"), (2, "@amy:laptop • galley")]);
    assert_eq!(seat_options(&seats, None).len(), 3);
}

#[test]
fn clicks_open_and_close_the_dropdown() {
    let seats = vec![seat("amy", "lobby"), seat("bo", "bridge")];
    let mut dropdown = SeatDropdown { open: false };
    dropdown.on_selector_click();
    assert!(dropdown.open);
    dropdown.on_click(false, true);
    assert!(dropdown.open, "a click inside keeps it");
    assert!(dropdown.on_option_click(&seats, 5).is_none());
    assert!(dropdown.open);
    match dropdown.on_option_click(&seats, 1) {
        Some(SeatCommand::TakeSeat { nick, instance, kernel, context }) => {
            assert_eq!(
                (nick.as_str(), instance.as_str(), kernel.as_str(), context.as_str()),
                ("bo", "laptop", "k1", "bridge")
            );
        }
        other => panic!("expected a seat, got {other:?}"),
    }
    assert!(!dropdown.open);
    dropdown.on_selector_click();
    dropdown.on_click(false, false);
    assert!(!dropdown.open, "a click elsewhere closes it");
    assert!(matches!(dropdown.on_dashboard_click(true), Some(SeatCommand::LeaveSeat)));
    assert!(dropdown.on_dashboard_click(false).is_none());
}
