use bitvec::order::Lsb0;
use bitvec::vec::BitVec;
use music_box::ui::bits::Bits;
use music_box::ui::button_state::ButtonState;
use music_box::ui::mac_os::{panel_cells, BUTTON_COUNT as TERMINAL_BUTTONS};
use music_box::ui::raspberry_pi::{button_pin, buttons_from_gpio, BUTTON_COUNT};

fn bits(v: &[bool]) -> Bits {
    let mut b = BitVec::<usize, Lsb0>::repeat(false, v.len());
    for (i, x) in v.iter().enumerate() {
        b.set(i, *x);
    }
    Bits(b)
}

fn as_vec(b: &Bits) -> Vec<bool> {
    b.0.iter().by_vals().collect()
}

#[test]
fn new_state_has_nothing_pressed() {
    let s = ButtonState::new(4);
    assert_eq!(as_vec(s.get_current()), vec![false; 4]);
    assert!(s.pressed().is_empty());
    assert!(s.newly_pressed().is_empty());
    assert!(s.newly_released().is_empty());
}

#[test]
fn save_reports_presses_and_releases() {
    let mut s = ButtonState::new(4);
    s.save(bits(&[true, false, true, false]));
    assert_eq!(s.pressed(), vec![0, 2]);
    assert_eq!(s.newly_pressed(), vec![0, 2]);
    assert!(s.newly_released().is_empty());
    s.save(bits(&[true, true, false, false]));
    assert_eq!(as_vec(s.get_current()), vec![true, true, false, false]);
    assert_eq!(s.pressed(), vec![0, 1]);
    assert_eq!(s.newly_pressed(), vec![1]);
    assert_eq!(s.newly_released(), vec![2]);
}

#[test]
fn holding_a_button_reports_it_once() {
    let mut s = ButtonState::new(3);
    s.save(bits(&[false, true, false]));
    assert_eq!(s.newly_pressed(), vec![1]);
    s.save(bits(&[false, true, false]));
    assert!(s.newly_pressed().is_empty());
    assert!(s.newly_released().is_empty());
    assert_eq!(s.pressed(), vec![1]);
}

#[test]
fn newly_pressed_are_pressed_and_not_released() {
    let mut s = ButtonState::new(6);
    s.save(bits(&[true, true, false, false, true, false]));
    s.save(bits(&[false, true, true, true, false, false]));
    let pressed = s.pressed();
    let newly = s.newly_pressed();
    let released = s.newly_released();
    assert_eq!(newly, vec![2, 3]);
    assert_eq!(released, vec![0, 4]);
    for b in &newly {
        assert!(pressed.contains(b));
        assert!(!released.contains(b));
    }
}

#[test]
fn gpio_all_high_means_nothing_pressed() {
    let b = buttons_from_gpio(0xFFFF);
    assert_eq!(as_vec(&b), vec![false; BUTTON_COUNT]);
}

#[test]
fn gpio_all_low_means_all_pressed() {
    let b = buttons_from_gpio(0);
    assert_eq!(as_vec(&b), vec![true; BUTTON_COUNT]);
}

#[test]
fn gpio_bits_map_to_buttons() {
    // button 0 and button 9 pulled low, the high bits ignored
    let word: u16 = 0xFFFF & !(1 << 0) & !(1 << 9);
    let b = as_vec(&buttons_from_gpio(word));
    assert_eq!(b.len(), 12);
    for i in 0..12 {
        assert_eq!(b[i], i == 0 || i == 9);
    }
    let mut s = ButtonState::new(BUTTON_COUNT);
    s.save(buttons_from_gpio(word));
    assert_eq!(s.newly_pressed(), vec![0, 9]);
}

#[test]
fn button_pins() {
    let pins: Vec<u8> = (0..BUTTON_COUNT).map(button_pin).collect();
    assert_eq!(pins, vec![8, 9, 10, 11, 12, 13, 14, 15, 0, 1, 2, 4]);
}

#[test]
fn terminal_panel_cells_show_lights() {
    let lights = vec![true, false, false, true, false, false, false, false];
    assert_eq!(lights.len(), TERMINAL_BUTTONS);
    let cells = panel_cells(&lights);
    assert_eq!(cells.len(), 8);
    let coords: Vec<(usize, usize)> = cells.iter().map(|c| (c.row, c.column)).collect();
    assert_eq!(coords, vec![(0, 0), (0, 1), (0, 2), (0, 3), (1, 0), (1, 1), (1, 2), (1, 3)]);
    let lit: Vec<bool> = cells.iter().map(|c| c.lit).collect();
    // cell (row, column) shows light row * column
    assert_eq!(lit, vec![true, true, true, true, true, false, false, true]);
    assert!(panel_cells(&vec![]).is_empty());
    let one = panel_cells(&vec![false]);
    assert_eq!(one.len(), 5);
}

#[test]
fn lights_switch_one_at_a_time() {
    let mut s = ButtonState::new(4);
    s.switch(2, true);
    assert_eq!(as_vec(s.get_current()), vec![false, false, true, false]);
    assert_eq!(s.newly_pressed(), vec![2]);
    s.switch(0, true);
    assert_eq!(as_vec(s.get_current()), vec![true, false, true, false]);
    s.switch(2, false);
    assert_eq!(as_vec(s.get_current()), vec![true, false, false, false]);
    assert_eq!(s.newly_released(), vec![2]);
}

#[test]
fn lights_clear_all_at_once() {
    let mut s = ButtonState::new(3);
    s.switch(1, true);
    s.switch(2, true);
    s.clear();
    assert_eq!(as_vec(s.get_current()), vec![false; 3]);
    assert_eq!(s.newly_released(), vec![1, 2]);
}

#[test]
fn reading_fits_only_the_same_width() {
    let s = ButtonState::new(4);
    assert!(s.fits(&bits(&[false, true, false, false])));
    assert!(!s.fits(&bits(&[false, true, false])));
}

#[test]
fn newly_pressed_example() {
    let mut s = ButtonState::new(4);
    s.save(bits(&[true, true, false, false]));
    s.save(bits(&[false, true, true, true]));
    assert_eq!(s.newly_pressed(), vec![2, 3]);
    assert_eq!(s.newly_released(), vec![0]);
}
