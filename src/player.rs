use vstd::prelude::*;

verus! {

/// Smallest position a player can take.
pub const MIN_X: i32 = -100;

/// Largest position a player can take.
pub const MAX_X: i32 = 100;

/// `v` constrained to the closed range `[lo, hi]`.
pub open spec fn clamp(v: int, lo: int, hi: int) -> int {
    if v < lo {
        lo
    } else if v > hi {
        hi
    } else {
        v
    }
}

/// A marker on a horizontal track, at an integer position in `[MIN_X, MAX_X]`.
pub struct Player {
    x: i32,
}

impl View for Player {
    type V = int;

    closed spec fn view(&self) -> int {
        self.x as int
    }
}

impl Player {
    #[verifier::type_invariant]
    spec fn in_range(self) -> bool {
        MIN_X <= self.x <= MAX_X
    }

    /// A player at the middle of the track.
    pub fn init() -> (p: Player)
        ensures
            p@ == 0,
    {
        Player { x: 0 }
    }

    /// The current position.
    pub fn x(&self) -> (r: i32)
        ensures
            r == self@,
            MIN_X <= r <= MAX_X,
    {
        proof {
            use_type_invariant(self);
        }
        self.x
    }

    /// Moves by `amount`, saturating at the ends of the track.
    pub fn move_player(&mut self, amount: i32)
        ensures
            final(self)@ == clamp(old(self)@ + amount, MIN_X as int, MAX_X as int),
            MIN_X <= final(self)@ <= MAX_X,
    {
        proof {
            use_type_invariant(&*self);
        }
        let target: i64 = self.x as i64 + amount as i64;
        let next: i32 = if target < MIN_X as i64 {
            MIN_X
        } else if target > MAX_X as i64 {
            MAX_X
        } else {
            target as i32
        };
        self.x = next;
    }
}

/// A single step of one unit from any position on the track lands on the
/// track: one step inward moves by exactly one, and a step past either end
/// leaves the player at that end.
pub proof fn lemma_step_stays_on_track(x: int, amount: int)
    requires
        MIN_X <= x <= MAX_X,
        amount == -1 || amount == 1,
    ensures
        MIN_X <= clamp(x + amount, MIN_X as int, MAX_X as int) <= MAX_X,
        MIN_X <= x + amount <= MAX_X ==> clamp(x + amount, MIN_X as int, MAX_X as int) == x
            + amount,
        x == MIN_X && amount == -1 ==> clamp(x + amount, MIN_X as int, MAX_X as int) == x,
        x == MAX_X && amount == 1 ==> clamp(x + amount, MIN_X as int, MAX_X as int) == x,
{
}

} // verus!
