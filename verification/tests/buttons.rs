use stm32f4ve::buttons::{Board, Line, Response};

fn ready_board() -> Board {
    let mut b = Board::new();
    b.install_leds();
    b.install_buttons();
    b
}

#[test]
fn interrupts_before_install_are_ignored() {
    let mut b = Board::new();
    let before = b;
    assert_eq!(b.on_interrupt(Line::Exti3), Response::Ignore);
    assert_eq!(b.on_interrupt(Line::Exti4), Response::Ignore);
    assert_eq!(b, before);
}

#[test]
fn leds_without_buttons_are_not_toggled() {
    let mut b = Board::new();
    b.install_leds();
    assert_eq!(b.on_interrupt(Line::Exti3), Response::Ignore);
    assert!(!b.exti3.led_high);
}

#[test]
fn buttons_without_leds_are_not_toggled() {
    let mut b = Board::new();
    b.install_buttons();
    assert_eq!(b.on_interrupt(Line::Exti4), Response::Ignore);
    assert!(!b.exti4.led_high);
}

#[test]
fn install_drives_leds_low() {
    let b = ready_board();
    assert!(b.exti3.button_installed && b.exti3.led_installed && !b.exti3.led_high);
    assert!(b.exti4.button_installed && b.exti4.led_installed && !b.exti4.led_high);
}

#[test]
fn exti3_toggles_only_pa7() {
    let mut b = ready_board();
    assert_eq!(b.on_interrupt(Line::Exti3), Response::ClearAndToggle);
    assert!(b.exti3.led_high);
    assert!(!b.exti4.led_high);
}

#[test]
fn exti4_toggles_only_pa6() {
    let mut b = ready_board();
    assert_eq!(b.on_interrupt(Line::Exti4), Response::ClearAndToggle);
    assert!(b.exti4.led_high);
    assert!(!b.exti3.led_high);
}

#[test]
fn double_press_restores_board() {
    let mut b = ready_board();
    b.on_interrupt(Line::Exti4);
    let before = b;
    b.on_interrupt(Line::Exti3);
    b.on_interrupt(Line::Exti3);
    assert_eq!(b, before);
}

#[test]
fn lines_commute() {
    let mut a = ready_board();
    let mut b = ready_board();
    a.on_interrupt(Line::Exti3);
    a.on_interrupt(Line::Exti4);
    b.on_interrupt(Line::Exti4);
    b.on_interrupt(Line::Exti3);
    assert_eq!(a, b);
}
