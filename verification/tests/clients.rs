use pane_nav::clients::{current_pane, ClientInfo, NoFocusedPaneError};

fn client(focused_pane_id: Option<usize>, last_input: i64) -> ClientInfo {
    ClientInfo { focused_pane_id, last_input }
}

#[test]
fn current_pane_is_that_of_the_client_with_latest_input() {
    let clients = vec![client(Some(3), 10), client(Some(7), 20), client(None, 30)];
    assert_eq!(current_pane(&clients), Ok(7));
}

#[test]
fn current_pane_fails_when_no_client_has_focus() {
    let clients = vec![client(None, 10), client(None, 20)];
    assert_eq!(current_pane(&clients), Err(NoFocusedPaneError {}));
}

#[test]
fn current_pane_fails_without_clients() {
    assert_eq!(current_pane(&Vec::new()), Err(NoFocusedPaneError {}));
}

#[test]
fn current_pane_of_single_client() {
    assert_eq!(current_pane(&vec![client(Some(42), -5)]), Ok(42));
}

#[test]
fn current_pane_prefers_the_earlier_client_on_equal_input_time() {
    let clients = vec![client(Some(1), 5), client(Some(2), 9), client(Some(3), 9), client(None, 9)];
    assert_eq!(current_pane(&clients), Ok(2));
}

#[test]
fn current_pane_ignores_order_of_the_list_otherwise() {
    let clients = vec![client(Some(9), 300), client(None, 400), client(Some(8), 200), client(Some(7), 100)];
    assert_eq!(current_pane(&clients), Ok(9));
    let clients = vec![client(Some(7), 100), client(Some(8), 200), client(None, 400), client(Some(9), 300)];
    assert_eq!(current_pane(&clients), Ok(9));
}

#[test]
fn current_pane_handles_extreme_times() {
    let clients = vec![client(Some(1), i64::MIN), client(Some(2), i64::MAX), client(Some(3), 0)];
    assert_eq!(current_pane(&clients), Ok(2));
}
