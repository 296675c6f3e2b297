use vstd::prelude::*;

verus! {

/// A pointer button as reported by the pointer-button event source. Only the
/// primary button drives widgets.
#[derive(Clone, Copy, Debug, PartialEq, Eq, Structural)]
pub enum PointerButton {
    Primary,
    Other,
}

/// What happened to a button or key.
#[derive(Clone, Copy, Debug, PartialEq, Eq, Structural)]
pub enum Action {
    Press,
    Release,
    Repeat,
}

/// The per-frame view of the input that every widget of a frame reads.
pub struct InputSnapshot {
    pub pointer_x: i32,
    pub pointer_y: i32,
    /// Level-triggered: whether the primary button is down.
    pub pointer_held: bool,
    /// Edge-triggered: whether the primary button went down during this frame.
    pub pointer_just_pressed: bool,
    /// The keys pressed during this frame, in arrival order.
    pub keys_this_tick: Vec<i32>,
}

/// The pointer position after a frame's moves: the last sample, or the
/// previous position when there was none.
pub open spec fn last_position(moves: Seq<(i32, i32)>, x: i32, y: i32) -> (i32, i32) {
    if moves.len() == 0 {
        (x, y)
    } else {
        moves.last()
    }
}

/// Whether the primary button is down after the given events, starting from `held`.
pub open spec fn held_after(events: Seq<(PointerButton, Action)>, held: bool) -> bool
    decreases events.len(),
{
    if events.len() == 0 {
        held
    } else {
        let e = events.last();
        let before = held_after(events.drop_last(), held);
        if e.0 == PointerButton::Primary && e.1 == Action::Press {
            true
        } else if e.0 == PointerButton::Primary && e.1 == Action::Release {
            false
        } else {
            before
        }
    }
}

/// The keys of the press events, in order; other actions contribute nothing.
pub open spec fn press_keys(events: Seq<(i32, Action)>) -> Seq<i32>
    decreases events.len(),
{
    if events.len() == 0 {
        Seq::empty()
    } else {
        let e = events.last();
        let before = press_keys(events.drop_last());
        if e.1 == Action::Press {
            before.push(e.0)
        } else {
            before
        }
    }
}

impl InputSnapshot {
    /// A snapshot with the pointer at the origin, released, and no keys.
    pub fn new() -> (r: InputSnapshot)
        ensures
            r.pointer_x == 0,
            r.pointer_y == 0,
            !r.pointer_held,
            !r.pointer_just_pressed,
            r.keys_this_tick@ == Seq::<i32>::empty(),
    {
        InputSnapshot {
            pointer_x: 0,
            pointer_y: 0,
            pointer_held: false,
            pointer_just_pressed: false,
            keys_this_tick: Vec::new(),
        }
    }

    /// Folds one frame's drained events into the snapshot: the last pointer
    /// position wins, the held flag follows the primary button's presses and
    /// releases, the just-pressed flag is set exactly when the button was up
    /// before the frame and is down after it, and the key list is replaced by
    /// this frame's key presses.
    pub fn refresh(
        &mut self,
        moves: &Vec<(i32, i32)>,
        buttons: &Vec<(PointerButton, Action)>,
        keys: &Vec<(i32, Action)>,
    )
        ensures
            (final(self).pointer_x, final(self).pointer_y) == last_position(
                moves@,
                old(self).pointer_x,
                old(self).pointer_y,
            ),
            final(self).pointer_held == held_after(buttons@, old(self).pointer_held),
            final(self).pointer_just_pressed == (!old(self).pointer_held
                && final(self).pointer_held),
            final(self).keys_this_tick@ == press_keys(keys@),
    {
        let mut i: usize = 0;
        while i < moves.len()
            invariant
                0 <= i <= moves.len(),
                (self.pointer_x, self.pointer_y) == last_position(
                    moves@.take(i as int),
                    old(self).pointer_x,
                    old(self).pointer_y,
                ),
                self.pointer_held == old(self).pointer_held,
            decreases moves.len() - i,
        {
            let (x, y): (i32, i32) = moves[i];
            self.pointer_x = x;
            self.pointer_y = y;
            i = i + 1;
            assert(moves@.take(i as int).last() == moves@[i - 1]);
        }
        assert(moves@.take(moves.len() as int) =~= moves@);

        let was_held: bool = self.pointer_held;
        let ghost held0 = self.pointer_held;
        let mut j: usize = 0;
        while j < buttons.len()
            invariant
                0 <= j <= buttons.len(),
                held0 == old(self).pointer_held,
                (self.pointer_x, self.pointer_y) == last_position(
                    moves@,
                    old(self).pointer_x,
                    old(self).pointer_y,
                ),
                self.pointer_held == held_after(buttons@.take(j as int), held0),
                was_held == held0,
            decreases buttons.len() - j,
        {
            let (button, action) = buttons[j];
            assert(buttons@.take(j + 1).drop_last() =~= buttons@.take(j as int));
            match button {
                PointerButton::Primary => match action {
                    Action::Press => {
                        self.pointer_held = true;
                    },
                    Action::Release => {
                        self.pointer_held = false;
                    },
                    Action::Repeat => {},
                },
                PointerButton::Other => {},
            }
            j = j + 1;
        }
        assert(buttons@.take(buttons.len() as int) =~= buttons@);
        self.pointer_just_pressed = !was_held && self.pointer_held;

        self.keys_this_tick.clear();
        let mut k: usize = 0;
        while k < keys.len()
            invariant
                0 <= k <= keys.len(),
                self.keys_this_tick@ == press_keys(keys@.take(k as int)),
                (self.pointer_x, self.pointer_y) == last_position(
                    moves@,
                    old(self).pointer_x,
                    old(self).pointer_y,
                ),
                self.pointer_held == held_after(buttons@, old(self).pointer_held),
                self.pointer_just_pressed == (!old(self).pointer_held && self.pointer_held),
            decreases keys.len() - k,
        {
            let (key, action): (i32, Action) = keys[k];
            assert(keys@.take(k + 1).drop_last() =~= keys@.take(k as int));
            match action {
                Action::Press => {
                    self.keys_this_tick.push(key);
                },
                _ => {},
            }
            k = k + 1;
        }
        assert(keys@.take(keys.len() as int) =~= keys@);
    }
}

} // verus!
