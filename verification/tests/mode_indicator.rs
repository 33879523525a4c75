use editor_core::text::{push_all, push_decimal};
use editor_core::vim::mode_indicator::{ModeIndicator, VimState};

fn state(mode: &str) -> VimState {
    VimState {
        mode: mode.to_string(),
        temp_mode: false,
        recording_register: None,
        pre_count: None,
        selected_register: None,
        operator_stack: vec![],
        post_count: None,
    }
}

fn strings(items: &[&str]) -> Vec<String> {
    items.iter().map(|s| s.to_string()).collect()
}

#[test]
fn no_modal_state_no_label() {
    let indicator = ModeIndicator::new();
    assert_eq!(indicator.render(None), None);
}

#[test]
fn label_of_a_plain_mode() {
    let indicator = ModeIndicator::new();
    assert_eq!(indicator.render(Some(&state("NORMAL"))), Some(" -- NORMAL --".to_string()));
}

#[test]
fn label_of_a_temporary_mode() {
    let indicator = ModeIndicator::new();
    let mut vim = state("NORMAL");
    vim.temp_mode = true;
    assert_eq!(indicator.render(Some(&vim)), Some(" -- (insert) NORMAL --".to_string()));
}

#[test]
fn description_puts_the_parts_in_order() {
    let mut vim = state("NORMAL");
    vim.recording_register = Some('q');
    vim.pre_count = Some(12);
    vim.selected_register = Some('a');
    vim.operator_stack = strings(&["d", "i"]);
    vim.post_count = Some(3);
    assert_eq!(ModeIndicator::current_operators_description(&vim), "recording @q 12\"adi3");
}

#[test]
fn description_of_each_part_alone() {
    let mut vim = state("NORMAL");
    assert_eq!(ModeIndicator::current_operators_description(&vim), "");
    vim.recording_register = Some('w');
    assert_eq!(ModeIndicator::current_operators_description(&vim), "recording @w ");
    vim.recording_register = None;
    vim.pre_count = Some(0);
    assert_eq!(ModeIndicator::current_operators_description(&vim), "0");
    vim.pre_count = None;
    vim.selected_register = Some('+');
    assert_eq!(ModeIndicator::current_operators_description(&vim), "\"+");
    vim.selected_register = None;
    vim.operator_stack = strings(&["y"]);
    assert_eq!(ModeIndicator::current_operators_description(&vim), "y");
    vim.operator_stack = vec![];
    vim.post_count = Some(usize::MAX);
    assert_eq!(ModeIndicator::current_operators_description(&vim), usize::MAX.to_string());
}

#[test]
fn label_shows_pending_operators() {
    let indicator = ModeIndicator::new();
    let mut vim = state("NORMAL");
    vim.pre_count = Some(2);
    vim.operator_stack = strings(&["d"]);
    assert_eq!(indicator.render(Some(&vim)), Some("2d -- NORMAL --".to_string()));
}

#[test]
fn pending_keys_take_the_place_of_the_description() {
    let mut indicator = ModeIndicator::new();
    let mut vim = state("VISUAL");
    vim.pre_count = Some(2);
    indicator.update_pending_keys(Some(strings(&["g", "ctrl-w", "x"])));
    assert_eq!(indicator.render(Some(&vim)), Some("g ctrl-w x -- VISUAL --".to_string()));
    indicator.update_pending_keys(Some(strings(&["g"])));
    assert_eq!(indicator.render(Some(&vim)), Some("g -- VISUAL --".to_string()));
    indicator.update_pending_keys(Some(vec![]));
    assert_eq!(indicator.render(Some(&vim)), Some(" -- VISUAL --".to_string()));
    indicator.update_pending_keys(None);
    assert_eq!(indicator.render(Some(&vim)), Some("2 -- VISUAL --".to_string()));
}

#[test]
fn push_decimal_writes_digits() {
    for (n, digits) in [(0usize, "0"), (7, "7"), (10, "10"), (909, "909"), (1234567890, "1234567890")] {
        let mut out = "n=".to_string();
        push_decimal(&mut out, n);
        assert_eq!(out, format!("n={}", digits));
    }
}

#[test]
fn push_all_appends_in_order() {
    let mut out = ">".to_string();
    push_all(&mut out, &strings(&["a", "", "bc", "\u{e9}"]));
    assert_eq!(out, ">abc\u{e9}");
    push_all(&mut out, &vec![]);
    assert_eq!(out, ">abc\u{e9}");
}
