//! The key latch.

use vstd::prelude::*;

verus! {

/// The number of keys.
pub const KEY_COUNT: usize = 16;

/// The highest key below `n` that is down in `now` and was up in `before`, if
/// there is one.
pub open spec fn latest_press(before: Seq<bool>, now: Seq<bool>, n: int) -> Option<u8>
    decreases n,
{
    if n <= 0 {
        None
    } else if now[n - 1] && !before[n - 1] {
        Some((n - 1) as u8)
    } else {
        latest_press(before, now, n - 1)
    }
}

/// `latest_press` finds a key exactly when some key below `n` went down, and
/// then it is the highest such key.
pub proof fn lemma_latest_press(before: Seq<bool>, now: Seq<bool>, n: int)
    requires
        0 <= n <= 256,
    ensures
        match latest_press(before, now, n) {
            Some(key) => key < n && now[key as int] && !before[key as int] && forall|j: int|
                key < j < n ==> !(now[j] && !before[j]),
            None => forall|j: int| 0 <= j < n ==> !(now[j] && !before[j]),
        },
    decreases n,
{
    if n > 0 {
        lemma_latest_press(before, now, n - 1);
    }
}

/// The state of the sixteen keys: `true` where a key is held down. Its view is
/// the sequence of the sixteen states.
pub struct Keyboard(pub [bool; KEY_COUNT]);

impl View for Keyboard {
    type V = Seq<bool>;

    open spec fn view(&self) -> Seq<bool> {
        self.0@
    }
}

impl Keyboard {
    /// A keyboard with no key held down.
    pub fn new() -> (r: Self)
        ensures
            r@ == Seq::new(KEY_COUNT as nat, |k: int| false),
    {
        let r = Self([false; KEY_COUNT]);
        assert(r@ =~= Seq::new(KEY_COUNT as nat, |k: int| false));
        r
    }

    /// The highest key that is down in `keys` and is up in this latch, if
    /// there is one: the key that has gone down since the latch was set.
    pub fn newly_pressed(&self, keys: &[bool; KEY_COUNT]) -> (pressed: Option<u8>)
        ensures
            pressed == latest_press(self@, keys@, KEY_COUNT as int),
    {
        let mut pressed: Option<u8> = None;
        let mut k: usize = 0;
        while k < KEY_COUNT
            invariant
                k <= KEY_COUNT,
                pressed == latest_press(self@, keys@, k as int),
            decreases KEY_COUNT - k,
        {
            if keys[k] && !self.0[k] {
                pressed = Some(k as u8);
            }
            k += 1;
        }
        pressed
    }
}

} // verus!
