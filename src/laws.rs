use vstd::prelude::*;
use crate::comps::Slider;
use crate::geometry::Rect;
use crate::gui::{
    button_next, check_box_next, lemma_drag_val_in_range, pointer_in, slider_next, slider_run,
    text_box_keys_next, text_box_next,
};
use crate::input::{Action, InputSnapshot, press_keys};
use crate::text::{fit_from, fit_len};

verus! {

/// A button's state after a sequence of frames, for a fixed rectangle.
pub open spec fn button_run(pressed: bool, inputs: Seq<InputSnapshot>, r: Rect) -> bool
    decreases inputs.len(),
{
    if inputs.len() == 0 {
        pressed
    } else {
        button_next(button_run(pressed, inputs.drop_last(), r), inputs.last(), r)
    }
}

/// A check box's state after a sequence of frames, for a fixed rectangle.
pub open spec fn check_box_run(pressed: bool, inputs: Seq<InputSnapshot>, r: Rect) -> bool
    decreases inputs.len(),
{
    if inputs.len() == 0 {
        pressed
    } else {
        check_box_next(check_box_run(pressed, inputs.drop_last(), r), inputs.last(), r)
    }
}

/// No frame brings a fresh press, and the pointer stays down throughout.
pub open spec fn held_without_press(inputs: Seq<InputSnapshot>) -> bool {
    forall|i: int| 0 <= i < inputs.len() ==> inputs[i].pointer_held && !inputs[i].pointer_just_pressed
}

/// A slider whose value starts in `[0, VAL_ONE]` keeps it there through any
/// sequence of frames.
pub proof fn lemma_slider_val_stays_in_range(s: Slider, inputs: Seq<InputSnapshot>)
    requires
        s.wf(),
    ensures
        slider_run(s, inputs).wf(),
    decreases inputs.len(),
{
    if inputs.len() > 0 {
        let before = slider_run(s, inputs.drop_last());
        lemma_slider_val_stays_in_range(s, inputs.drop_last());
        lemma_drag_val_in_range(before, inputs.last().pointer_x as int);
    }
}

/// A press that starts inside a button engages it; it stays engaged through
/// any frames in which the pointer stays down, wherever the pointer goes; and
/// a frame in which the pointer is up and no new press comes disengages it.
pub proof fn lemma_button_sticky_while_held(
    pressed: bool,
    click: InputSnapshot,
    held: Seq<InputSnapshot>,
    release: InputSnapshot,
    r: Rect,
)
    requires
        click.pointer_just_pressed,
        pointer_in(click, r),
        held_without_press(held),
        !release.pointer_held,
        !release.pointer_just_pressed,
    ensures
        button_next(pressed, click, r),
        button_run(button_next(pressed, click, r), held, r),
        !button_next(button_run(button_next(pressed, click, r), held, r), release, r),
{
    lemma_button_held_keeps(button_next(pressed, click, r), held, r);
}

/// Frames without a fresh press and with the pointer down leave a button as it was.
pub proof fn lemma_button_held_keeps(pressed: bool, held: Seq<InputSnapshot>, r: Rect)
    requires
        held_without_press(held),
    ensures
        button_run(pressed, held, r) == pressed,
    decreases held.len(),
{
    if held.len() > 0 {
        lemma_button_held_keeps(pressed, held.drop_last(), r);
    }
}

/// A check box toggles exactly once for a press that starts inside it, however
/// many frames the pointer is then held without a new press.
pub proof fn lemma_check_box_toggles_once(
    pressed: bool,
    click: InputSnapshot,
    held: Seq<InputSnapshot>,
    r: Rect,
)
    requires
        click.pointer_just_pressed,
        pointer_in(click, r),
        forall|i: int| 0 <= i < held.len() ==> !held[i].pointer_just_pressed,
    ensures
        check_box_run(check_box_next(pressed, click, r), held, r) == !pressed,
    decreases held.len(),
{
    if held.len() > 0 {
        lemma_check_box_toggles_once(pressed, click, held.drop_last(), r);
    }
}

/// A press inside a text box selects it, and the next press outside
/// deselects it.
pub proof fn lemma_text_box_click_in_then_out(
    selected: bool,
    inside: InputSnapshot,
    outside: InputSnapshot,
    r: Rect,
)
    requires
        inside.pointer_just_pressed,
        pointer_in(inside, r),
        outside.pointer_just_pressed,
        !pointer_in(outside, r),
    ensures
        text_box_next(selected, inside, r),
        !text_box_next(text_box_next(selected, inside, r), outside, r),
{
}

/// A text box that is selected after a frame gains exactly the frame's key
/// presses, in arrival order, where the frame's keys came from `events`.
pub proof fn lemma_text_box_records_presses(
    keys: Seq<i32>,
    selected: bool,
    inp: InputSnapshot,
    r: Rect,
    events: Seq<(i32, Action)>,
)
    requires
        inp.keys_this_tick@ == press_keys(events),
        text_box_next(selected, inp, r),
    ensures
        text_box_keys_next(keys, selected, inp, r) == keys + press_keys(events),
{
}

/// One more key event adds one key when it is a press, and none otherwise.
pub proof fn lemma_press_keys_one_per_press(events: Seq<(i32, Action)>, key: i32, action: Action)
    ensures
        action == Action::Press ==> press_keys(events.push((key, action))) == press_keys(
            events,
        ).push(key),
        action != Action::Press ==> press_keys(events.push((key, action))) == press_keys(events),
{
    assert(events.push((key, action)).drop_last() =~= events);
}

/// The scan stops at a prefix that fits, or at zero, and every longer prefix
/// it passed over is too wide.
pub proof fn lemma_fit_from_shape(widths: Seq<i32>, avail: int, k: int)
    requires
        k < widths.len(),
    ensures
        0 <= fit_from(widths, avail, k) <= if k < 0 { 0 } else { k },
        fit_from(widths, avail, k) == 0 || widths[fit_from(widths, avail, k)] <= avail,
        forall|j: int| fit_from(widths, avail, k) < j <= k ==> widths[j] > avail,
    decreases k,
{
    if k > 0 && widths[k] > avail {
        lemma_fit_from_shape(widths, avail, k - 1);
    }
}

/// The fitted prefix is never wider than the available width, where the
/// empty label measures zero and the width is not negative; a non-empty
/// fitted prefix fits in any case.
pub proof fn lemma_fit_within_width(widths: Seq<i32>, avail: int)
    requires
        widths.len() >= 1,
    ensures
        0 <= fit_len(widths, avail) < widths.len(),
        fit_len(widths, avail) > 0 ==> widths[fit_len(widths, avail)] <= avail,
        widths[0] == 0 && avail >= 0 ==> widths[fit_len(widths, avail)] <= avail,
{
    if avail > 0 {
        lemma_fit_from_shape(widths, avail, widths.len() - 1);
    }
}

/// Fitting a label that was already fitted keeps all of it: the measurements
/// of its prefixes are the first ones of the longer label.
pub proof fn lemma_fit_idempotent(widths: Seq<i32>, avail: int)
    requires
        widths.len() >= 1,
    ensures
        fit_len(widths.take(fit_len(widths, avail) + 1), avail) == fit_len(widths, avail),
{
    if avail > 0 {
        lemma_fit_from_shape(widths, avail, widths.len() - 1);
        let k: int = fit_len(widths, avail);
        let w2 = widths.take(k + 1);
        assert(w2.len() - 1 == k);
        if k > 0 {
            assert(w2[k] == widths[k]);
        }
    }
}

/// An empty label, or no width to draw in, gives an empty prefix.
pub proof fn lemma_fit_degenerate(widths: Seq<i32>, avail: int)
    requires
        widths.len() >= 1,
        widths.len() == 1 || avail <= 0,
    ensures
        fit_len(widths, avail) == 0,
{
}

} // verus!
