//! The input signals of one tick, and how a script line changes them.

use vstd::prelude::*;
use crate::script::{LineModel, ScriptLine};

verus! {

/// The input signals at one moment.
#[derive(Debug, Clone, Copy)]
pub struct HalfControllerState {
    pub forward: bool,
    pub backward: bool,
    pub left: bool,
    pub right: bool,
    pub running: bool,
    pub mouse_pos: (i32, i32),
    pub left_click: bool,
    pub right_click: bool,
}

/// The input signals of a tick and of the tick before it: the pair shows
/// which signals have just changed.
#[derive(Debug, Clone, Copy)]
pub struct ControllerState {
    pub current: HalfControllerState,
    pub previous: HalfControllerState,
}

impl HalfControllerState {
    /// Nothing held, the mouse at the origin.
    pub open spec fn idle() -> Self {
        HalfControllerState {
            forward: false,
            backward: false,
            left: false,
            right: false,
            running: false,
            mouse_pos: (0i32, 0i32),
            left_click: false,
            right_click: false,
        }
    }

    /// The signals after the key letter `key`: an upper-case letter of a
    /// movement or of running holds it, the lower-case letter lets go; `P`
    /// clicks the left button and `p` the right. Any other character changes
    /// nothing.
    pub open spec fn spec_press(self, key: char) -> Self {
        if key == 'U' {
            HalfControllerState { forward: true, ..self }
        } else if key == 'u' {
            HalfControllerState { forward: false, ..self }
        } else if key == 'L' {
            HalfControllerState { left: true, ..self }
        } else if key == 'l' {
            HalfControllerState { left: false, ..self }
        } else if key == 'D' {
            HalfControllerState { backward: true, ..self }
        } else if key == 'd' {
            HalfControllerState { backward: false, ..self }
        } else if key == 'R' {
            HalfControllerState { right: true, ..self }
        } else if key == 'r' {
            HalfControllerState { right: false, ..self }
        } else if key == 'S' {
            HalfControllerState { running: true, ..self }
        } else if key == 's' {
            HalfControllerState { running: false, ..self }
        } else if key == 'P' {
            HalfControllerState { left_click: true, ..self }
        } else if key == 'p' {
            HalfControllerState { right_click: true, ..self }
        } else {
            self
        }
    }

    /// The signals after the key letters `keys`, taken in order.
    pub open spec fn spec_press_all(self, keys: Seq<char>) -> Self
        decreases keys.len(),
    {
        if keys.len() == 0 {
            self
        } else {
            self.spec_press_all(keys.drop_last()).spec_press(keys.last())
        }
    }

    /// Applies one key letter.
    pub fn press(self, key: char) -> (after: Self)
        ensures
            after == self.spec_press(key),
    {
        let mut after = self;
        if key == 'U' {
            after.forward = true;
        } else if key == 'u' {
            after.forward = false;
        } else if key == 'L' {
            after.left = true;
        } else if key == 'l' {
            after.left = false;
        } else if key == 'D' {
            after.backward = true;
        } else if key == 'd' {
            after.backward = false;
        } else if key == 'R' {
            after.right = true;
        } else if key == 'r' {
            after.right = false;
        } else if key == 'S' {
            after.running = true;
        } else if key == 's' {
            after.running = false;
        } else if key == 'P' {
            after.left_click = true;
        } else if key == 'p' {
            after.right_click = true;
        }
        after
    }

    /// Applies key letters in order.
    pub fn press_all(self, keys: &Vec<char>) -> (after: Self)
        ensures
            after == self.spec_press_all(keys@),
    {
        let mut after = self;
        let mut i: usize = 0;
        assert(keys@.take(0) =~= Seq::<char>::empty());
        while i < keys.len()
            invariant
                i <= keys.len(),
                after == self.spec_press_all(keys@.take(i as int)),
            decreases keys.len() - i,
        {
            assert(keys@.take(i + 1).drop_last() =~= keys@.take(i as int));
            after = after.press(keys[i]);
            i += 1;
        }
        assert(keys@.take(keys.len() as int) =~= keys@);
        after
    }
}

impl Default for HalfControllerState {
    fn default() -> (state: Self)
        ensures
            state == HalfControllerState::idle(),
    {
        HalfControllerState {
            forward: false,
            backward: false,
            left: false,
            right: false,
            running: false,
            mouse_pos: (0, 0),
            left_click: false,
            right_click: false,
        }
    }
}

impl ControllerState {
    /// Nothing held now or before.
    pub open spec fn idle() -> Self {
        ControllerState {
            current: HalfControllerState::idle(),
            previous: HalfControllerState::idle(),
        }
    }

    /// The state at the start of a new tick: what was current is previous, and
    /// both mouse buttons are up, since a click lasts one tick.
    pub open spec fn spec_begin_tick(self) -> Self {
        ControllerState {
            current: HalfControllerState {
                left_click: false,
                right_click: false,
                ..self.current
            },
            previous: self.current,
        }
    }

    /// The state after a line took effect: its key letters in order, and the
    /// mouse where the line puts it, if it does.
    pub open spec fn spec_apply(self, line: LineModel) -> Self {
        let pressed = self.current.spec_press_all(line.keys);
        ControllerState {
            current: match line.mouse {
                Some(target) => HalfControllerState { mouse_pos: target, ..pressed },
                None => pressed,
            },
            previous: self.previous,
        }
    }

    /// The state on a new tick, on which `line` takes effect, if any does.
    pub open spec fn spec_advance(self, line: Option<LineModel>) -> Self {
        match line {
            Some(line) => self.spec_begin_tick().spec_apply(line),
            None => self.spec_begin_tick(),
        }
    }

    /// Moves to a new tick, on which `line` takes effect, if any does.
    pub fn advance(&mut self, line: Option<&ScriptLine>)
        ensures
            *final(self) == old(self).spec_advance(
                match line {
                    Some(line) => Some(line.deep_view()),
                    None => None,
                },
            ),
    {
        self.previous = self.current;
        if self.previous.left_click {
            self.current.left_click = false;
        }
        if self.previous.right_click {
            self.current.right_click = false;
        }
        match line {
            Some(line) => {
                self.current = self.current.press_all(&line.keys);
                match line.mouse {
                    Some(target) => {
                        self.current.mouse_pos = target;
                    },
                    None => {},
                }
            },
            None => {},
        }
    }
}

impl Default for ControllerState {
    fn default() -> (state: Self)
        ensures
            state == ControllerState::idle(),
    {
        ControllerState {
            current: HalfControllerState::default(),
            previous: HalfControllerState::default(),
        }
    }
}

/// A key letter other than `P` leaves the left button as it is.
pub proof fn lemma_left_click_needs_key(state: HalfControllerState, keys: Seq<char>)
    requires
        !keys.contains('P'),
    ensures
        state.spec_press_all(keys).left_click == state.left_click,
    decreases keys.len(),
{
    if keys.len() > 0 {
        assert(keys.drop_last().len() == keys.len() - 1);
        assert forall|i: int| 0 <= i < keys.len() - 1 implies keys.drop_last()[i] != 'P' by {
            assert(keys.drop_last()[i] == keys[i]);
            assert(keys.contains(keys[i]));
        }
        assert(!keys.drop_last().contains('P'));
        lemma_left_click_needs_key(state, keys.drop_last());
        assert(keys.contains(keys.last()));
    }
}

/// The key letter `P` holds the left button down, wherever in a line it
/// stands: no key letter lets that button go.
pub proof fn lemma_left_click_by_key(state: HalfControllerState, keys: Seq<char>)
    requires
        keys.contains('P'),
    ensures
        state.spec_press_all(keys).left_click,
    decreases keys.len(),
{
    if keys.last() != 'P' {
        let i = choose|i: int| 0 <= i < keys.len() && keys[i] == 'P';
        assert(keys.drop_last()[i] == 'P');
        lemma_left_click_by_key(state, keys.drop_last());
    }
}

/// A click lasts one tick. Where a line with the key letter `P` takes effect
/// on a tick, the left button is down on that tick; on the tick after it the
/// button is up again, unless a line with `P` takes effect there too.
pub proof fn lemma_click_is_a_pulse(
    state: ControllerState,
    line: LineModel,
    next: Option<LineModel>,
)
    requires
        line.keys.contains('P'),
        next is Some ==> !next->0.keys.contains('P'),
    ensures
        state.spec_advance(Some(line)).current.left_click,
        !state.spec_advance(Some(line)).spec_advance(next).current.left_click,
        state.spec_advance(Some(line)).spec_advance(next).previous.left_click,
{
    lemma_left_click_by_key(state.spec_begin_tick().current, line.keys);
    let clicked = state.spec_advance(Some(line));
    if next is Some {
        lemma_left_click_needs_key(clicked.spec_begin_tick().current, next->0.keys);
    }
}

} // verus!
