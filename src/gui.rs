use vstd::prelude::*;
use crate::comps::{Button, CheckBox, Slider, TextBox, VAL_ONE};
use crate::geometry::{Bounds, Rect, floor_div, point_in_rect, spec_contains, spec_in_rect};
use crate::input::{Action, InputSnapshot, PointerButton};
pub use crate::text::TextAlign;
use crate::text::{TextMetrics, fit_len, fit_text, origin, text_origin};

verus! {

/// The color the screen is cleared to: opaque black, as packed RGBA.
pub const CLEAR_COLOR: u32 = 0x000000FF;

/// One request to the renderer. Colors are packed RGBA; a texture is the
/// caller's handle for a texture region, `None` for none.
#[derive(Clone, Copy, Debug, PartialEq, Eq)]
pub enum DrawCmd {
    SetColor(u32),
    SetTexture(Option<u32>),
    /// `x`, `y`, `width`, `height`.
    FillRect(i64, i64, i64, i64),
    /// The number of leading characters of the widget's label to draw, and
    /// the draw origin.
    DrawText(usize, i64, i64),
    Clear(u32),
}

/// Colors and textures for the active and the inactive state of widgets
/// (one pair for check boxes, one for the rest), the label color and the
/// label alignment.
pub struct GUIStyle {
    pub foreground_color: u32,
    pub background_color: u32,
    pub text_color: u32,
    pub foreground_texture: Option<u32>,
    pub background_texture: Option<u32>,
    pub text_align: TextAlign,
    pub check_box_foreground_color: u32,
    pub check_box_background_color: u32,
    pub check_box_foreground_texture: Option<u32>,
    pub check_box_background_texture: Option<u32>,
}

/// The interaction engine: the current frame's input, the style, and the draw
/// requests that the widget calls of the frame have made so far.
pub struct GUI {
    pub style: GUIStyle,
    pub input: InputSnapshot,
    pub commands: Vec<DrawCmd>,
}

/// The sticky-while-held rule shared by buttons and sliders: a fresh press
/// inside engages, a released pointer disengages, anything else keeps the state.
pub open spec fn engaged_next(engaged: bool, just_pressed: bool, held: bool, inside: bool) -> bool {
    if just_pressed && inside {
        true
    } else if !held {
        false
    } else {
        engaged
    }
}

pub open spec fn pointer_in(inp: InputSnapshot, r: Rect) -> bool {
    spec_contains(r, inp.pointer_x as int, inp.pointer_y as int)
}

pub open spec fn button_next(pressed: bool, inp: InputSnapshot, r: Rect) -> bool {
    engaged_next(pressed, inp.pointer_just_pressed, inp.pointer_held, pointer_in(inp, r))
}

pub open spec fn check_box_next(pressed: bool, inp: InputSnapshot, r: Rect) -> bool {
    if inp.pointer_just_pressed && pointer_in(inp, r) {
        !pressed
    } else {
        pressed
    }
}

pub open spec fn text_box_next(selected: bool, inp: InputSnapshot, r: Rect) -> bool {
    if inp.pointer_just_pressed {
        pointer_in(inp, r)
    } else {
        selected
    }
}

/// The keys a text box holds after a frame.
pub open spec fn text_box_keys_next(keys: Seq<i32>, selected: bool, inp: InputSnapshot, r: Rect) -> Seq<i32> {
    if text_box_next(selected, inp, r) {
        keys + inp.keys_this_tick@
    } else {
        keys
    }
}

/// The thumb is a square four track heights wide.
pub open spec fn thumb_size(s: Slider) -> int {
    4 * s.height
}

/// How far the thumb's left edge can travel along the track.
pub open spec fn travel(s: Slider) -> int {
    s.width - thumb_size(s)
}

pub open spec fn thumb_x(s: Slider) -> int {
    s.x + travel(s) * s.val / (VAL_ONE as int)
}

pub open spec fn thumb_y(s: Slider) -> int {
    s.y - 2 * s.height + s.height / 2
}

pub open spec fn clamp(v: int, lo: int, hi: int) -> int {
    if v < lo {
        lo
    } else if v > hi {
        hi
    } else {
        v
    }
}

/// The value a dragged slider takes for pointer abscissa `px`: the pointer
/// clamped to the thumb's travel, as a fraction of the travel. A track
/// narrower than the thumb gives the full value, and a track exactly as wide
/// as the thumb gives zero.
pub open spec fn drag_val(s: Slider, px: int) -> int {
    if travel(s) < 0 {
        VAL_ONE as int
    } else if travel(s) == 0 {
        0
    } else {
        (clamp(px, s.x as int, s.x + travel(s)) - s.x) * (VAL_ONE as int) / travel(s)
    }
}

pub open spec fn slider_selected_next(s: Slider, inp: InputSnapshot) -> bool {
    engaged_next(
        s.selected,
        inp.pointer_just_pressed,
        inp.pointer_held,
        spec_in_rect(
            inp.pointer_x as int,
            inp.pointer_y as int,
            thumb_x(s),
            thumb_y(s),
            thumb_size(s),
            thumb_size(s),
        ),
    )
}

/// A slider after one frame: selection follows the thumb's hit test, and a
/// selected slider's value follows the pointer.
pub open spec fn slider_next(s: Slider, inp: InputSnapshot) -> Slider {
    let selected = slider_selected_next(s, inp);
    Slider {
        selected,
        val: if selected {
            drag_val(s, inp.pointer_x as int) as u32
        } else {
            s.val
        },
        ..s
    }
}

/// A slider after a sequence of frames.
pub open spec fn slider_run(s: Slider, inputs: Seq<InputSnapshot>) -> Slider
    decreases inputs.len(),
{
    if inputs.len() == 0 {
        s
    } else {
        slider_next(slider_run(s, inputs.drop_last()), inputs.last())
    }
}

pub open spec fn fill(r: Rect) -> DrawCmd {
    DrawCmd::FillRect(r.x as i64, r.y as i64, r.width as i64, r.height as i64)
}

/// The requests that draw a label inside `r`.
pub open spec fn label_cmds(style: GUIStyle, r: Rect, m: TextMetrics) -> Seq<DrawCmd> {
    let k: int = fit_len(m.prefix_widths@, r.width as int);
    let p = origin(style.text_align, r, m.prefix_widths@[k] as int, m.line_height as int);
    seq![DrawCmd::SetColor(style.text_color), DrawCmd::DrawText(k as usize, p.0 as i64, p.1 as i64)]
}

/// Color and texture of generic widgets in the given state.
pub open spec fn paint(style: GUIStyle, active: bool) -> Seq<DrawCmd> {
    if active {
        seq![
            DrawCmd::SetColor(style.foreground_color),
            DrawCmd::SetTexture(style.foreground_texture),
        ]
    } else {
        seq![
            DrawCmd::SetColor(style.background_color),
            DrawCmd::SetTexture(style.background_texture),
        ]
    }
}

pub open spec fn button_cmds(style: GUIStyle, pressed: bool, r: Rect, m: TextMetrics) -> Seq<DrawCmd> {
    paint(style, pressed) + seq![fill(r)] + label_cmds(style, r, m)
}

pub open spec fn check_box_cmds(style: GUIStyle, pressed: bool, r: Rect) -> Seq<DrawCmd> {
    if pressed {
        seq![
            DrawCmd::SetColor(style.check_box_foreground_color),
            DrawCmd::SetTexture(style.check_box_foreground_texture),
            fill(r),
        ]
    } else {
        seq![
            DrawCmd::SetColor(style.check_box_background_color),
            DrawCmd::SetTexture(style.check_box_background_texture),
            fill(r),
        ]
    }
}

/// The track in background style, then the thumb, at the place it had before
/// the frame, in the style of the new selection state.
pub open spec fn slider_cmds(style: GUIStyle, s: Slider, selected: bool) -> Seq<DrawCmd> {
    seq![
        DrawCmd::SetTexture(style.background_texture),
        DrawCmd::SetColor(style.background_color),
        DrawCmd::FillRect(s.x as i64, s.y as i64, s.width as i64, s.height as i64),
    ] + paint(style, selected) + seq![
        DrawCmd::FillRect(
            thumb_x(s) as i64,
            thumb_y(s) as i64,
            thumb_size(s) as i64,
            thumb_size(s) as i64,
        ),
    ]
}

pub open spec fn text_box_cmds(style: GUIStyle, selected: bool, r: Rect, m: TextMetrics) -> Seq<DrawCmd> {
    paint(style, selected) + seq![fill(r)] + label_cmds(style, r, m)
}

/// The default style: grey widgets, white labels aligned to the lower left,
/// no textures.
pub open spec fn default_style() -> GUIStyle {
    GUIStyle {
        foreground_color: 0x666666FF,
        background_color: 0xAAAAAAFF,
        text_color: 0xFFFFFFFF,
        foreground_texture: None,
        background_texture: None,
        text_align: TextAlign::LowerLeft,
        check_box_foreground_color: 0x666666FF,
        check_box_background_color: 0xAAAAAAFF,
        check_box_foreground_texture: None,
        check_box_background_texture: None,
    }
}

impl GUIStyle {
    pub fn new() -> (r: GUIStyle)
        ensures
            r == default_style(),
    {
        GUIStyle {
            foreground_color: 0x666666FF,
            background_color: 0xAAAAAAFF,
            text_color: 0xFFFFFFFF,
            foreground_texture: None,
            background_texture: None,
            text_align: TextAlign::LowerLeft,
            check_box_foreground_color: 0x666666FF,
            check_box_background_color: 0xAAAAAAFF,
            check_box_foreground_texture: None,
            check_box_background_texture: None,
        }
    }
}

/// A dragged slider's value lies in `[0, VAL_ONE]`.
pub proof fn lemma_drag_val_in_range(s: Slider, px: int)
    ensures
        0 <= drag_val(s, px) <= VAL_ONE,
{
    if travel(s) > 0 {
        let t: int = travel(s);
        let d: int = clamp(px, s.x as int, s.x + t) - s.x;
        let one: int = VAL_ONE as int;
        assert(0 <= d <= t);
        assert(0 <= d * one / t <= one) by (nonlinear_arith)
            requires
                0 <= d <= t,
                t > 0,
                one > 0,
        ;
    }
}

/// The thumb never leaves the track's span: its offset is between zero and
/// the travel.
pub proof fn lemma_thumb_offset_bounded(s: Slider)
    requires
        s.wf(),
    ensures
        travel(s) >= 0 ==> 0 <= travel(s) * s.val / (VAL_ONE as int) <= travel(s),
        travel(s) < 0 ==> travel(s) <= travel(s) * s.val / (VAL_ONE as int) <= 0,
{
    let t: int = travel(s);
    let v: int = s.val as int;
    let one: int = VAL_ONE as int;
    if t >= 0 {
        assert(0 <= t * v / one <= t) by (nonlinear_arith)
            requires
                t >= 0,
                0 <= v <= one,
                one > 0,
        ;
    } else {
        assert(t <= t * v / one <= 0) by (nonlinear_arith)
            requires
                t < 0,
                0 <= v <= one,
                one > 0,
        ;
    }
}

impl GUI {
    pub fn new() -> (r: GUI)
        ensures
            r.style == default_style(),
            r.input.pointer_x == 0 && r.input.pointer_y == 0,
            !r.input.pointer_held && !r.input.pointer_just_pressed,
            r.input.keys_this_tick@ == Seq::<i32>::empty(),
            r.commands@ == Seq::<DrawCmd>::empty(),
    {
        GUI { style: GUIStyle::new(), input: InputSnapshot::new(), commands: Vec::new() }
    }

    /// Starts a frame's drawing by clearing the screen.
    pub fn clear(&mut self)
        ensures
            final(self).commands@ == old(self).commands@.push(DrawCmd::Clear(CLEAR_COLOR)),
            final(self).style == old(self).style,
            final(self).input == old(self).input,
    {
        self.commands.push(DrawCmd::Clear(CLEAR_COLOR));
    }

    /// Ends a frame: folds the frame's drained events into the input snapshot
    /// that the next frame's widgets read.
    pub fn update(
        &mut self,
        moves: &Vec<(i32, i32)>,
        buttons: &Vec<(PointerButton, Action)>,
        keys: &Vec<(i32, Action)>,
    )
        ensures
            (final(self).input.pointer_x, final(self).input.pointer_y)
                == crate::input::last_position(
                moves@,
                old(self).input.pointer_x,
                old(self).input.pointer_y,
            ),
            final(self).input.pointer_held == crate::input::held_after(
                buttons@,
                old(self).input.pointer_held,
            ),
            final(self).input.pointer_just_pressed == (!old(self).input.pointer_held
                && final(self).input.pointer_held),
            final(self).input.keys_this_tick@ == crate::input::press_keys(keys@),
            final(self).style == old(self).style,
            final(self).commands == old(self).commands,
    {
        self.input.refresh(moves, buttons, keys);
    }

    fn mouse_in_rect(&self, r: Rect) -> (b: bool)
        ensures
            b == pointer_in(self.input, r),
    {
        r.contains(self.input.pointer_x, self.input.pointer_y)
    }

    fn paint(&mut self, active: bool)
        ensures
            final(self).commands@ == old(self).commands@ + paint(old(self).style, active),
            final(self).style == old(self).style,
            final(self).input == old(self).input,
    {
        if active {
            self.commands.push(DrawCmd::SetColor(self.style.foreground_color));
            self.commands.push(DrawCmd::SetTexture(self.style.foreground_texture));
        } else {
            self.commands.push(DrawCmd::SetColor(self.style.background_color));
            self.commands.push(DrawCmd::SetTexture(self.style.background_texture));
        }
    }

    fn fill(&mut self, r: Rect)
        ensures
            final(self).commands@ == old(self).commands@.push(fill(r)),
            final(self).style == old(self).style,
            final(self).input == old(self).input,
    {
        self.commands.push(DrawCmd::FillRect(r.x as i64, r.y as i64, r.width as i64, r.height as i64));
    }

    /// Draws the longest prefix of a label that fits the rectangle's width,
    /// placed by the style's alignment.
    fn draw_text_align(&mut self, r: Rect, m: &TextMetrics)
        requires
            m.prefix_widths@.len() >= 1,
        ensures
            final(self).commands@ == old(self).commands@ + label_cmds(old(self).style, r, *m),
            final(self).style == old(self).style,
            final(self).input == old(self).input,
    {
        let k: usize = fit_text(&m.prefix_widths, r.width);
        let p: (i64, i64) = text_origin(self.style.text_align, r, m.prefix_widths[k], m.line_height);
        self.commands.push(DrawCmd::SetColor(self.style.text_color));
        self.commands.push(DrawCmd::DrawText(k, p.0, p.1));
    }

    /// One frame of a button: a press that starts inside engages it, and it
    /// stays engaged, wherever the pointer goes, until the pointer is released.
    /// Draws the button in the style of its new state, then its label.
    pub fn button(&mut self, button: &mut Button, label: &TextMetrics)
        requires
            label.describes(old(button).text@.len()),
        ensures
            final(button).pressed == button_next(
                old(button).pressed,
                old(self).input,
                old(button).spec_bounds(),
            ),
            final(button).x == old(button).x && final(button).y == old(button).y,
            final(button).width == old(button).width && final(button).height == old(button).height,
            final(button).text == old(button).text,
            final(self).commands@ == old(self).commands@ + button_cmds(
                old(self).style,
                final(button).pressed,
                old(button).spec_bounds(),
                *label,
            ),
            final(self).style == old(self).style,
            final(self).input == old(self).input,
    {
        let r = button.bounds();
        if self.input.pointer_just_pressed && self.mouse_in_rect(r) {
            button.pressed = true;
        } else if !self.input.pointer_held {
            button.pressed = false;
        }
        self.paint(button.pressed);
        self.fill(r);
        self.draw_text_align(r, label);
        assert(self.commands@ =~= old(self).commands@ + button_cmds(
            old(self).style,
            button.pressed,
            r,
            *label,
        ));
    }

    /// One frame of a check box: each fresh press inside toggles it; holding
    /// the pointer down does not toggle it again.
    pub fn check_box(&mut self, check_box: &mut CheckBox)
        ensures
            final(check_box).pressed == check_box_next(
                old(check_box).pressed,
                old(self).input,
                old(check_box).spec_bounds(),
            ),
            final(check_box).x == old(check_box).x && final(check_box).y == old(check_box).y,
            final(check_box).width == old(check_box).width,
            final(check_box).height == old(check_box).height,
            final(self).commands@ == old(self).commands@ + check_box_cmds(
                old(self).style,
                final(check_box).pressed,
                old(check_box).spec_bounds(),
            ),
            final(self).style == old(self).style,
            final(self).input == old(self).input,
    {
        let r = check_box.bounds();
        if self.input.pointer_just_pressed && self.mouse_in_rect(r) {
            check_box.pressed = !check_box.pressed;
        }
        if check_box.pressed {
            self.commands.push(DrawCmd::SetColor(self.style.check_box_foreground_color));
            self.commands.push(DrawCmd::SetTexture(self.style.check_box_foreground_texture));
        } else {
            self.commands.push(DrawCmd::SetColor(self.style.check_box_background_color));
            self.commands.push(DrawCmd::SetTexture(self.style.check_box_background_texture));
        }
        self.fill(r);
        assert(self.commands@ =~= old(self).commands@ + check_box_cmds(
            old(self).style,
            check_box.pressed,
            r,
        ));
    }

    /// One frame of a text box: a fresh press selects it when inside and
    /// deselects it when outside; while selected it appends the frame's key
    /// presses to its keys. Draws the box, then its text.
    pub fn text_box(&mut self, text_box: &mut TextBox, label: &TextMetrics)
        requires
            label.describes(old(text_box).text@.len()),
        ensures
            final(text_box).selected == text_box_next(
                old(text_box).selected,
                old(self).input,
                old(text_box).spec_bounds(),
            ),
            final(text_box).keys@ == text_box_keys_next(
                old(text_box).keys@,
                old(text_box).selected,
                old(self).input,
                old(text_box).spec_bounds(),
            ),
            final(text_box).x == old(text_box).x && final(text_box).y == old(text_box).y,
            final(text_box).width == old(text_box).width,
            final(text_box).height == old(text_box).height,
            final(text_box).text == old(text_box).text,
            final(self).commands@ == old(self).commands@ + text_box_cmds(
                old(self).style,
                final(text_box).selected,
                old(text_box).spec_bounds(),
                *label,
            ),
            final(self).style == old(self).style,
            final(self).input == old(self).input,
    {
        let r = text_box.bounds();
        if self.input.pointer_just_pressed && self.mouse_in_rect(r) {
            text_box.selected = true;
        }
        if self.input.pointer_just_pressed && !self.mouse_in_rect(r) {
            text_box.selected = false;
        }
        if text_box.selected {
            let mut i: usize = 0;
            while i < self.input.keys_this_tick.len()
                invariant
                    0 <= i <= self.input.keys_this_tick@.len(),
                    text_box.keys@ == old(text_box).keys@ + self.input.keys_this_tick@.take(
                        i as int,
                    ),
                    text_box.selected,
                    text_box.x == old(text_box).x && text_box.y == old(text_box).y,
                    text_box.width == old(text_box).width,
                    text_box.height == old(text_box).height,
                    text_box.text == old(text_box).text,
                decreases self.input.keys_this_tick@.len() - i,
            {
                text_box.keys.push(self.input.keys_this_tick[i]);
                i = i + 1;
                assert(text_box.keys@ =~= old(text_box).keys@ + self.input.keys_this_tick@.take(
                    i as int,
                ));
            }
            assert(self.input.keys_this_tick@.take(i as int) =~= self.input.keys_this_tick@);
        }
        self.paint(text_box.selected);
        self.fill(r);
        self.draw_text_align(r, label);
        assert(self.commands@ =~= old(self).commands@ + text_box_cmds(
            old(self).style,
            text_box.selected,
            r,
            *label,
        ));
    }
    /// One frame of a slider. The thumb is a square four track heights wide,
    /// placed along the track by the value; a press that starts on the thumb
    /// selects the slider until the pointer is released, and while selected
    /// the value follows the pointer, clamped to the track. Draws the track,
    /// then the thumb where it stood at the start of the frame.
    pub fn slider(&mut self, slider: &mut Slider)
        requires
            old(slider).wf(),
        ensures
            *final(slider) == slider_next(*old(slider), old(self).input),
            final(slider).wf(),
            final(self).commands@ == old(self).commands@ + slider_cmds(
                old(self).style,
                *old(slider),
                final(slider).selected,
            ),
            final(self).style == old(self).style,
            final(self).input == old(self).input,
    {
        let start: Slider = *slider;
        let h: i64 = slider.height as i64;
        let box_w: i64 = 4 * h;
        let travel: i64 = slider.width as i64 - box_w;
        proof {
            lemma_thumb_offset_bounded(*slider);
        }
        let box_x: i64 = slider.x as i64 + floor_div(travel * (slider.val as i64), VAL_ONE as i64);
        let box_y: i64 = slider.y as i64 - 2 * h + floor_div(h, 2);

        if self.input.pointer_just_pressed && point_in_rect(
            self.input.pointer_x,
            self.input.pointer_y,
            box_x,
            box_y,
            box_w,
            box_w,
        ) {
            slider.selected = true;
        } else if !self.input.pointer_held {
            slider.selected = false;
        }

        self.commands.push(DrawCmd::SetTexture(self.style.background_texture));
        self.commands.push(DrawCmd::SetColor(self.style.background_color));
        self.commands.push(
            DrawCmd::FillRect(slider.x as i64, slider.y as i64, slider.width as i64, h),
        );

        if slider.selected {
            proof {
                lemma_drag_val_in_range(*old(slider), self.input.pointer_x as int);
            }
            slider.val = self.drag_val(start);
        }
        self.paint(slider.selected);
        self.commands.push(DrawCmd::FillRect(box_x, box_y, box_w, box_w));
        assert(self.commands@ =~= old(self).commands@ + slider_cmds(
            old(self).style,
            *old(slider),
            slider.selected,
        ));
    }

    /// The value that slider `s` takes when dragged to the current pointer.
    fn drag_val(&self, s: Slider) -> (v: u32)
        ensures
            v as int == drag_val(s, self.input.pointer_x as int),
    {
        let x: i64 = s.x as i64;
        let travel: i64 = s.width as i64 - 4 * (s.height as i64);
        if travel < 0 {
            return VAL_ONE;
        }
        if travel == 0 {
            return 0;
        }
        let px: i64 = self.input.pointer_x as i64;
        let c: i64 = if px < x {
            x
        } else if px > x + travel {
            x + travel
        } else {
            px
        };
        let d: i64 = c - x;
        proof {
            lemma_drag_val_in_range(s, px as int);
            assert(d * (VAL_ONE as int) <= travel * (VAL_ONE as int)) by (nonlinear_arith)
                requires
                    0 <= d <= travel,
            ;
        }
        ((d * (VAL_ONE as i64)) / travel) as u32
    }
}

} // verus!
