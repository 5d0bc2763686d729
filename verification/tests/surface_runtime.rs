use limestudio::surface::authority::time_travel::TimeTravelEngine;
use limestudio::surface::model::stable_id::SurfaceId;
use limestudio::surface::runtime::input::{event_priority, pack_position_bits, EventKind, EventPriority, Key, Modifiers};
use limestudio::surface::runtime::interaction_kernel::{connection_on_release, handle_key, KeyCommand, SelectionState};
use limestudio::surface::runtime::signal::{AtomicSignal, SignalBuffer};

fn id(n: u128) -> SurfaceId {
    SurfaceId(n)
}

#[test]
fn signal_buffer_starts_at_zero() {
    let b = SignalBuffer::new(3);
    assert_eq!(b.read_all(), vec![0u32, 0, 0]);
    assert_eq!(b.write_ptr, 0);
}

#[test]
fn signal_buffer_wraps_round_robin() {
    let mut b = SignalBuffer::new(3);
    for s in [1.0f32, 2.0, 3.0, 4.0] {
        b.push(s.to_bits());
    }
    let got: Vec<f32> = b.read_all().into_iter().map(f32::from_bits).collect();
    assert_eq!(got, vec![4.0, 2.0, 3.0]);
    assert_eq!(b.write_ptr, 4);
}

#[test]
fn signal_buffer_pointer_wraps_at_max() {
    let mut b = SignalBuffer::new(4);
    b.write_ptr = usize::MAX;
    b.push(7);
    assert_eq!(b.write_ptr, 0);
    assert_eq!(b.data[usize::MAX % 4], 7);
}

#[test]
fn atomic_signal_holds_last_value() {
    let mut s = AtomicSignal::new(0.5f32.to_bits());
    assert_eq!(f32::from_bits(s.get()), 0.5);
    s.set(0.25f32.to_bits());
    assert_eq!(f32::from_bits(s.get()), 0.25);
}

#[test]
fn time_travel_keeps_most_recent() {
    let mut e: TimeTravelEngine<u64> = TimeTravelEngine::new(2);
    assert!(e.get_current_state().is_none());
    e.push_snapshot(10);
    e.push_snapshot(20);
    e.push_snapshot(30);
    assert_eq!(e.history.iter().copied().collect::<Vec<_>>(), vec![20, 30]);
    assert_eq!(e.get_current_state(), Some(&30));
    e.scrub(0);
    assert_eq!(e.get_current_state(), Some(&20));
    e.scrub(5);
    assert_eq!(e.current_index, 0);
    e.seek_index(7);
    assert_eq!(e.current_index, 7);
    assert!(e.get_current_state().is_none());
}

#[test]
fn time_travel_zero_limit_keeps_latest() {
    let mut e: TimeTravelEngine<u64> = TimeTravelEngine::new(0);
    e.push_snapshot(1);
    e.push_snapshot(2);
    assert_eq!(e.history.len(), 1);
    assert_eq!(e.get_current_state(), Some(&2));
}

#[test]
fn seek_on_empty_history_does_nothing() {
    let mut e: TimeTravelEngine<u64> = TimeTravelEngine::new(4);
    e.seek_index(3);
    assert_eq!(e.current_index, 0);
}

#[test]
fn click_node_without_shift_selects_only_it() {
    let mut s = SelectionState::new();
    assert!(s.click_node(id(1), false));
    assert_eq!(s.ids, vec![id(1)]);
    assert!(!s.click_node(id(1), false));
    assert!(s.click_node(id(2), false));
    assert_eq!(s.ids, vec![id(2)]);
}

#[test]
fn shift_click_toggles() {
    let mut s = SelectionState::new();
    s.click_node(id(1), true);
    s.click_node(id(2), true);
    assert_eq!(s.ids, vec![id(1), id(2)]);
    assert!(s.click_node(id(1), true));
    assert_eq!(s.ids, vec![id(2)]);
    s.click_node(id(1), true);
    assert_eq!(s.ids, vec![id(2), id(1)]);
}

#[test]
fn click_empty_clears_unless_shift() {
    let mut s = SelectionState::new();
    s.click_node(id(3), true);
    assert!(!s.click_empty(true));
    assert_eq!(s.ids, vec![id(3)]);
    assert!(s.click_empty(false));
    assert!(s.ids.is_empty());
}

#[test]
fn box_selection_adds_new_hits_once() {
    let mut s = SelectionState::new();
    s.click_node(id(2), false);
    s.add_box_selection(&[id(1), id(2), id(3), id(1)]);
    assert_eq!(s.ids, vec![id(2), id(1), id(3)]);
}

#[test]
fn tab_cycles_forward_and_back() {
    let ws = [id(10), id(20), id(30)];
    let (f, c) = handle_key(None, Key::Tab, false, &ws);
    assert_eq!((f, c), (Some(id(10)), None));
    let (f, _) = handle_key(Some(id(30)), Key::Tab, false, &ws);
    assert_eq!(f, Some(id(10)));
    let (f, _) = handle_key(Some(id(10)), Key::Tab, true, &ws);
    assert_eq!(f, Some(id(30)));
    let (f, _) = handle_key(None, Key::Tab, true, &ws);
    assert_eq!(f, Some(id(30)));
    let (f, _) = handle_key(Some(id(99)), Key::Tab, false, &ws);
    assert_eq!(f, Some(id(10)));
}

#[test]
fn tab_then_shift_tab_returns() {
    let ws = [id(1), id(2), id(3), id(4)];
    let (f, _) = handle_key(Some(id(2)), Key::Tab, false, &ws);
    let (g, _) = handle_key(f, Key::Tab, true, &ws);
    assert_eq!(g, Some(id(2)));
}

#[test]
fn tab_without_widgets_keeps_focus() {
    assert_eq!(handle_key(Some(id(5)), Key::Tab, false, &[]), (Some(id(5)), None));
}

#[test]
fn keys_issue_commands() {
    let ws = [id(1)];
    assert_eq!(handle_key(Some(id(1)), Key::Enter, false, &ws), (Some(id(1)), Some(KeyCommand::Commit)));
    assert_eq!(handle_key(Some(id(1)), Key::Escape, false, &ws), (None, Some(KeyCommand::Cancel)));
    assert_eq!(handle_key(None, Key::Delete, false, &ws), (None, Some(KeyCommand::DeleteSelected)));
    assert_eq!(handle_key(None, Key::Backspace, false, &ws), (None, Some(KeyCommand::DeleteSelected)));
    assert_eq!(handle_key(Some(id(1)), Key::Char('a'), false, &ws), (Some(id(1)), None));
}

#[test]
fn pack_position_puts_x_high() {
    let x = 1.5f32.to_bits();
    let y = (-2.0f32).to_bits();
    let p = pack_position_bits(x, y);
    assert_eq!(p, ((x as u64) << 32) | y as u64);
    assert_eq!(f32::from_bits((p >> 32) as u32), 1.5);
    assert_eq!(f32::from_bits(p as u32), -2.0);
}

#[test]
fn modifiers_none() {
    let m = Modifiers::default();
    assert!(!m.shift && !m.ctrl && !m.alt);
}

#[test]
fn pushes_fill_slots_in_order() {
    let mut b = SignalBuffer::new(5);
    b.push(11);
    b.push(12);
    b.push(13);
    assert_eq!(b.read_all(), vec![11, 12, 13, 0, 0]);
}

#[test]
fn event_priorities() {
    assert_eq!(event_priority(EventKind::PointerMove), EventPriority::Standard);
    assert_eq!(event_priority(EventKind::Resize), EventPriority::Critical);
    assert_eq!(event_priority(EventKind::Focus), EventPriority::Critical);
    assert_eq!(event_priority(EventKind::PointerDown), EventPriority::High);
    assert_eq!(event_priority(EventKind::PointerUp), EventPriority::High);
    assert_eq!(event_priority(EventKind::KeyInput), EventPriority::High);
    assert_eq!(event_priority(EventKind::Wheel), EventPriority::High);
}

#[test]
fn cable_release_connects_distinct_ports_only() {
    let a = SurfaceId(1);
    let b = SurfaceId(2);
    assert_eq!(connection_on_release(a, Some(b)), Some((a, b)));
    assert_eq!(connection_on_release(a, Some(a)), None);
    assert_eq!(connection_on_release(a, None), None);
}
