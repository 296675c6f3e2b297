use engine_gui::comps::{Button, CheckBox, Slider, TextBox, VAL_ONE};
use engine_gui::geometry::{Bounds, Rect};
use engine_gui::gui::{DrawCmd, GUIStyle, CLEAR_COLOR, GUI};
use engine_gui::input::{Action, InputSnapshot, PointerButton};
use engine_gui::text::{fit_text, text_origin, TextAlign, TextMetrics};

fn input(x: i32, y: i32, held: bool, just_pressed: bool) -> InputSnapshot {
    InputSnapshot {
        pointer_x: x,
        pointer_y: y,
        pointer_held: held,
        pointer_just_pressed: just_pressed,
        keys_this_tick: Vec::new(),
    }
}

fn gui_with(inp: InputSnapshot) -> GUI {
    let mut gui = GUI::new();
    gui.input = inp;
    gui
}

/// Metrics of a label whose characters are each `char_width` wide.
fn mono(n: usize, char_width: i32, line_height: i32) -> TextMetrics {
    let mut prefix_widths = Vec::new();
    for k in 0..=n {
        prefix_widths.push(k as i32 * char_width);
    }
    TextMetrics { prefix_widths, line_height }
}

fn button_at(x: i32, y: i32, width: i32, height: i32, text: &str) -> Button {
    Button { x, y, width, height, text: String::from(text), pressed: false }
}

#[test]
fn window() {
    let mut gui = GUI::new();
    let mut but_1 = button_at(0, 0, 50, 50, "press 1");
    let mut but_2 = button_at(0, -60, 50, 50, "press 2");
    let mut sli_1 = Slider { x: -60, y: 0, width: 50, height: 5, val: 0, selected: false };
    let mut text_box = TextBox {
        x: -60,
        y: -60,
        width: 50,
        height: 50,
        text: String::new(),
        selected: false,
        keys: Vec::new(),
    };
    let mut check_box = CheckBox { x: -60, y: 50, width: 50, height: 50, pressed: false };
    gui.style.text_align = TextAlign::Center;

    gui.clear();
    gui.button(&mut but_1, &mono(7, 4, 8));
    gui.button(&mut but_2, &mono(7, 4, 8));
    gui.slider(&mut sli_1);
    gui.check_box(&mut check_box);
    gui.text_box(&mut text_box, &mono(0, 4, 8));
    gui.update(&Vec::new(), &Vec::new(), &Vec::new());

    assert!(!but_1.pressed && !but_2.pressed && !check_box.pressed);
    assert!(!sli_1.selected && !text_box.selected);
    assert_eq!(sli_1.val, 0);
    assert_eq!(gui.commands[0], DrawCmd::Clear(CLEAR_COLOR));
    assert_eq!(gui.commands.len(), 1 + 5 + 5 + 6 + 3 + 5);
}

#[test]
fn scaled() {
    let mut gui = GUI::new();
    let mut but_1 = button_at(0, 0, 128, 64, "press 1");
    let mut but_2 = button_at(0, 128, 128, 64, "press 2");
    let mut text_box = TextBox {
        x: 140,
        y: 128,
        width: 128,
        height: 64,
        text: String::new(),
        selected: false,
        keys: Vec::new(),
    };
    gui.style.text_align = TextAlign::Center;

    gui.update(&vec![(10, 130)], &vec![(PointerButton::Primary, Action::Press)], &Vec::new());
    gui.clear();
    gui.button(&mut but_1, &mono(7, 16, 32));
    gui.button(&mut but_2, &mono(7, 16, 32));
    gui.text_box(&mut text_box, &mono(0, 16, 32));

    assert!(!but_1.pressed);
    assert!(but_2.pressed);
    assert!(!text_box.selected);
}

#[test]
fn button_press_sticks_while_held_then_releases() {
    let mut button = button_at(0, 0, 100, 40, "ok");
    let label = mono(2, 10, 8);

    let mut gui = gui_with(input(10, 10, true, true));
    gui.button(&mut button, &label);
    assert!(button.pressed);

    let mut gui = gui_with(input(500, 500, true, false));
    gui.button(&mut button, &label);
    assert!(button.pressed);

    let mut gui = gui_with(input(500, 500, false, false));
    gui.button(&mut button, &label);
    assert!(!button.pressed);
}

#[test]
fn button_press_outside_does_not_engage() {
    let mut button = button_at(0, 0, 100, 40, "ok");
    let mut gui = gui_with(input(100, 10, true, true));
    gui.button(&mut button, &mono(2, 10, 8));
    assert!(!button.pressed);
}

#[test]
fn button_draw_requests() {
    let mut button = button_at(0, 0, 100, 40, "abc");
    let mut gui = gui_with(input(10, 10, true, true));
    gui.style.foreground_texture = Some(7);
    gui.button(&mut button, &mono(3, 10, 8));
    let style = GUIStyle::new();
    assert_eq!(
        gui.commands,
        vec![
            DrawCmd::SetColor(style.foreground_color),
            DrawCmd::SetTexture(Some(7)),
            DrawCmd::FillRect(0, 0, 100, 40),
            DrawCmd::SetColor(style.text_color),
            DrawCmd::DrawText(3, 0, 8),
        ]
    );
}

#[test]
fn check_box_toggles_once_per_press() {
    let mut check_box = CheckBox { x: 0, y: 0, width: 20, height: 20, pressed: false };
    let mut gui = gui_with(input(5, 5, true, true));
    gui.check_box(&mut check_box);
    assert!(check_box.pressed);
    for _ in 0..3 {
        let mut gui = gui_with(input(5, 5, true, false));
        gui.check_box(&mut check_box);
        assert!(check_box.pressed);
    }
    let mut gui = gui_with(input(5, 5, true, true));
    gui.check_box(&mut check_box);
    assert!(!check_box.pressed);
    assert_eq!(
        gui.commands,
        vec![
            DrawCmd::SetColor(0xAAAAAAFF),
            DrawCmd::SetTexture(None),
            DrawCmd::FillRect(0, 0, 20, 20),
        ]
    );
}

#[test]
fn slider_value_clamps_to_track() {
    let mut slider = Slider { x: 0, y: 0, width: 100, height: 10, val: 0, selected: true };
    let mut gui = gui_with(input(1000, 5, true, false));
    gui.slider(&mut slider);
    assert!(slider.selected);
    assert_eq!(slider.val, VAL_ONE);

    let mut gui = gui_with(input(-1000, 5, true, false));
    gui.slider(&mut slider);
    assert_eq!(slider.val, 0);
}

#[test]
fn slider_value_follows_pointer() {
    let mut slider = Slider { x: 0, y: 0, width: 100, height: 10, val: 0, selected: true };
    let mut gui = gui_with(input(30, 5, true, false));
    gui.slider(&mut slider);
    assert_eq!(slider.val, VAL_ONE / 2);
}

#[test]
fn slider_selected_by_press_on_thumb() {
    // Track (0, 0, 100, 10) at value 0: thumb at (0, -15, 40, 40).
    let mut slider = Slider { x: 0, y: 0, width: 100, height: 10, val: 0, selected: false };
    let mut gui = gui_with(input(20, -10, true, true));
    gui.slider(&mut slider);
    assert!(slider.selected);
    assert_eq!(slider.val, VAL_ONE / 3);
    assert_eq!(
        gui.commands,
        vec![
            DrawCmd::SetTexture(None),
            DrawCmd::SetColor(0xAAAAAAFF),
            DrawCmd::FillRect(0, 0, 100, 10),
            DrawCmd::SetColor(0x666666FF),
            DrawCmd::SetTexture(None),
            DrawCmd::FillRect(0, -15, 40, 40),
        ]
    );

    let mut gui = gui_with(input(20, -10, false, false));
    gui.slider(&mut slider);
    assert!(!slider.selected);
    assert_eq!(slider.val, VAL_ONE / 3);
}

#[test]
fn slider_value_in_range_over_many_frames() {
    let mut slider = Slider { x: -50, y: 0, width: 100, height: 5, val: VAL_ONE, selected: false };
    let pointers = [(-50, 0, true, true), (-1000, 3, true, false), (7, 0, true, false),
        (3000, 0, true, false), (0, 0, false, false), (40, -7, true, true), (49, 0, true, false)];
    for (x, y, held, jp) in pointers {
        let mut gui = gui_with(input(x, y, held, jp));
        gui.slider(&mut slider);
        assert!(slider.val <= VAL_ONE);
    }
}

#[test]
fn slider_narrower_than_thumb_reads_full() {
    let mut slider = Slider { x: 0, y: 0, width: 30, height: 10, val: 0, selected: true };
    let mut gui = gui_with(input(25, 5, true, false));
    gui.slider(&mut slider);
    assert_eq!(slider.val, VAL_ONE);
}

#[test]
fn slider_as_wide_as_thumb_reads_zero() {
    let mut slider = Slider { x: 0, y: 0, width: 40, height: 10, val: VAL_ONE, selected: true };
    let mut gui = gui_with(input(25, 5, true, false));
    gui.slider(&mut slider);
    assert_eq!(slider.val, 0);
}

#[test]
fn text_box_selection_and_keys() {
    let mut text_box = TextBox::new();
    text_box.width = 50;
    text_box.height = 20;
    let label = mono(0, 4, 8);

    let mut gui = gui_with(input(5, 5, true, true));
    gui.input.keys_this_tick = vec![65, 66];
    gui.text_box(&mut text_box, &label);
    assert!(text_box.selected);
    assert_eq!(text_box.keys, vec![65, 66]);

    let mut gui = gui_with(input(500, 5, false, false));
    gui.input.keys_this_tick = vec![67];
    gui.text_box(&mut text_box, &label);
    assert!(text_box.selected);
    assert_eq!(text_box.keys, vec![65, 66, 67]);

    let mut gui = gui_with(input(500, 5, true, true));
    gui.input.keys_this_tick = vec![68];
    gui.text_box(&mut text_box, &label);
    assert!(!text_box.selected);
    assert_eq!(text_box.keys, vec![65, 66, 67]);
}

#[test]
fn text_box_records_only_key_presses() {
    let mut gui = GUI::new();
    let mut text_box = TextBox::new();
    text_box.width = 50;
    text_box.height = 20;
    text_box.selected = true;
    let keys = vec![(1, Action::Press), (1, Action::Release), (2, Action::Repeat), (3, Action::Press)];
    gui.update(&Vec::new(), &Vec::new(), &keys);
    assert_eq!(gui.input.keys_this_tick, vec![1, 3]);
    gui.text_box(&mut text_box, &mono(0, 4, 8));
    assert_eq!(text_box.keys, vec![1, 3]);

    gui.update(&Vec::new(), &Vec::new(), &vec![(4, Action::Release)]);
    assert!(gui.input.keys_this_tick.is_empty());
    gui.text_box(&mut text_box, &mono(0, 4, 8));
    assert_eq!(text_box.keys, vec![1, 3]);
}

#[test]
fn refresh_keeps_last_move_and_edges() {
    let mut inp = InputSnapshot::new();
    inp.refresh(&vec![(1, 2), (3, 4), (5, 6)], &vec![(PointerButton::Primary, Action::Press)], &Vec::new());
    assert_eq!((inp.pointer_x, inp.pointer_y), (5, 6));
    assert!(inp.pointer_held && inp.pointer_just_pressed);

    inp.refresh(&Vec::new(), &vec![(PointerButton::Primary, Action::Press)], &Vec::new());
    assert_eq!((inp.pointer_x, inp.pointer_y), (5, 6));
    assert!(inp.pointer_held && !inp.pointer_just_pressed);

    inp.refresh(&Vec::new(), &vec![(PointerButton::Other, Action::Release)], &Vec::new());
    assert!(inp.pointer_held && !inp.pointer_just_pressed);

    inp.refresh(&Vec::new(), &vec![(PointerButton::Primary, Action::Release)], &Vec::new());
    assert!(!inp.pointer_held && !inp.pointer_just_pressed);

    inp.refresh(
        &Vec::new(),
        &vec![(PointerButton::Primary, Action::Press), (PointerButton::Primary, Action::Release)],
        &Vec::new(),
    );
    assert!(!inp.pointer_held && !inp.pointer_just_pressed);
}

#[test]
fn refresh_release_then_press_while_held_is_no_edge() {
    let mut inp = InputSnapshot::new();
    inp.refresh(&Vec::new(), &vec![(PointerButton::Primary, Action::Press)], &Vec::new());
    assert!(inp.pointer_held && inp.pointer_just_pressed);
    inp.refresh(
        &Vec::new(),
        &vec![(PointerButton::Primary, Action::Release), (PointerButton::Primary, Action::Press)],
        &Vec::new(),
    );
    assert!(inp.pointer_held && !inp.pointer_just_pressed);
}

#[test]
fn fit_drops_characters_until_it_fits() {
    let widths = vec![0, 5, 9, 30];
    assert_eq!(fit_text(&widths, 10), 2);
    assert_eq!(fit_text(&widths, 9), 2);
    assert_eq!(fit_text(&widths, 8), 1);
    assert_eq!(fit_text(&widths, 4), 0);
    assert_eq!(fit_text(&widths, 30), 3);
    let k = fit_text(&widths, 10);
    assert!(widths[k] <= 10);
}

#[test]
fn fit_is_idempotent() {
    let widths = vec![0, 5, 9, 30, 31];
    let k = fit_text(&widths, 20);
    assert_eq!(k, 2);
    assert_eq!(fit_text(&widths[..k + 1].to_vec(), 20), k);
}

#[test]
fn fit_degenerate_inputs_give_nothing() {
    assert_eq!(fit_text(&vec![0], 10), 0);
    assert_eq!(fit_text(&vec![0, 0, 0], 0), 0);
    assert_eq!(fit_text(&vec![0, 5, 9], -3), 0);
}

#[test]
fn origin_for_each_alignment() {
    let r = Rect::new(10, 20, 100, 40);
    assert_eq!(text_origin(TextAlign::Center, r, 30, 8), (10 + 50 - 15, 20 + 20 - 2));
    assert_eq!(text_origin(TextAlign::LowerLeft, r, 30, 8), (10, 28));
    assert_eq!(text_origin(TextAlign::LowerRight, r, 30, 8), (80, 52));
    assert_eq!(text_origin(TextAlign::UpperLeft, r, 30, 8), (10, 52));
    assert_eq!(text_origin(TextAlign::UpperRight, r, 30, 8), (80, 52));
    assert_eq!(text_origin(TextAlign::Center, r, 31, 6), (10 + 50 - 15, 20 + 20 - 1));
    assert_eq!(text_origin(TextAlign::Center, Rect::new(0, 0, -3, -5), 0, 0), (-2, -3));
}

#[test]
fn long_label_is_cut_in_draw_request() {
    let mut button = button_at(0, 0, 25, 10, "abcdef");
    let mut gui = gui_with(input(0, 0, false, false));
    gui.style.text_align = TextAlign::UpperRight;
    gui.button(&mut button, &mono(6, 10, 4));
    assert_eq!(gui.commands[4], DrawCmd::DrawText(2, 5, 6));
}

#[test]
fn hit_test_is_half_open() {
    let r = Rect::new(0, 0, 100, 40);
    assert!(r.contains(0, 0));
    assert!(r.contains(99, 39));
    assert!(!r.contains(100, 10));
    assert!(!r.contains(10, 40));
    assert!(!r.contains(-1, 10));
}

#[test]
fn constructors_and_bounds() {
    let b = Button::new();
    assert_eq!(b.bounds(), Rect::new(0, 0, 1, 1));
    assert!(!b.pressed && b.text.is_empty());
    assert!(!CheckBox::new().pressed);
    let s = Slider::new();
    assert_eq!((s.val, s.selected), (0, false));
    assert_eq!(s.bounds(), Rect::new(0, 0, 1, 1));
    let t = TextBox::new();
    assert!(!t.selected && t.keys.is_empty());
    assert_eq!(CheckBox::new().bounds(), t.bounds());
    let style = GUIStyle::new();
    assert_eq!(style.text_align, TextAlign::LowerLeft);
    assert_eq!(style.check_box_background_color, 0xAAAAAAFF);
    let mut gui = GUI::new();
    gui.clear();
    assert_eq!(gui.commands, vec![DrawCmd::Clear(0x000000FF)]);
}
