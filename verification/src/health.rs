//! The health bar of anything that can live and die.

use std::cmp::Ordering;
use vstd::prelude::*;
use vstd::std_specs::cmp::PartialOrdSpecImpl;
use crate::error::ComponentError;
use crate::random::random_in_range;

verus! {

/// The most health a bar can show, and what a fresh bar starts with.
pub const MAX_HEALTH: u32 = 100;

/// What taking `by` points from a bar that shows `current` leads to: the new
/// reading, or `Underflow` where the bar does not hold that much.
pub open spec fn dripped(current: nat, by: nat) -> Result<nat, ComponentError> {
    if by > current {
        Err(ComponentError::Underflow)
    } else {
        Ok((current - by) as nat)
    }
}

/// What adding `by` points to a bar that shows `current` leads to: `Dead` at
/// zero, and otherwise the sum, held at [`MAX_HEALTH`].
pub open spec fn healed(current: nat, by: nat) -> Result<nat, ComponentError> {
    if current == 0 {
        Err(ComponentError::Dead)
    } else if current + by >= MAX_HEALTH {
        Ok(MAX_HEALTH as nat)
    } else {
        Ok(current + by)
    }
}

/// Whether a bar that shows `current` is dead.
pub open spec fn is_dead(current: nat) -> bool {
    current == 0
}

/// What killing a bar that shows `current` leaves: nothing, whatever it
/// showed.
pub open spec fn killed(current: nat) -> nat {
    0
}

/// What reviving a bar that shows `current` leads to: a full bar from zero,
/// `AlreadyAlive` from anything else.
pub open spec fn revived(current: nat) -> Result<nat, ComponentError> {
    if current == 0 {
        Ok(MAX_HEALTH as nat)
    } else {
        Err(ComponentError::AlreadyAlive)
    }
}

/// The most that a random drip takes from a bar that shows `current`: half
/// the reading, rounded down.
pub open spec fn drip_roll_ceiling(current: nat) -> nat {
    current / 2
}

/// The most that a random heal adds to a bar that shows `current`: half the
/// reading, rounded down, and one point where that is less than one. A random
/// heal adds at least one point, so that the draw always has a number to
/// land on.
pub open spec fn heal_roll_ceiling(current: nat) -> nat {
    if current / 2 >= 1 {
        current / 2
    } else {
        1
    }
}

/// What one step of regeneration answers.
#[derive(Debug, Clone, Copy, PartialEq, Eq, Structural)]
pub enum RegenStep {
    /// The bar is full: regeneration is over.
    Full,
    /// The bar gained a point and is due another step after a pause.
    Rest,
}

/// What one step of regeneration makes of a bar that shows `current`: the new
/// reading and the answer, or `Dead` at zero.
pub open spec fn regenerated(current: nat) -> Result<(nat, RegenStep), ComponentError> {
    if current == 0 {
        Err(ComponentError::Dead)
    } else if current >= MAX_HEALTH {
        Ok((current, RegenStep::Full))
    } else {
        Ok((current + 1, RegenStep::Rest))
    }
}

/// The reading of a live bar after `steps` steps of regeneration.
pub open spec fn regenerated_by(current: nat, steps: nat) -> nat
    decreases steps,
{
    if steps == 0 {
        current
    } else {
        match regenerated(current) {
            Ok((c, _)) => regenerated_by(c, (steps - 1) as nat),
            Err(_) => current,
        }
    }
}

/// A health bar: a counter between zero and [`MAX_HEALTH`].
///
/// The bar is alive while it is above zero and dead at zero. Its model
/// (`h@`) is the number it shows.
#[derive(Debug, Clone, Copy, PartialEq, Eq, Structural)]
pub struct Health {
    current_health: u32,
}

impl View for Health {
    type V = nat;

    closed spec fn view(&self) -> nat {
        self.current_health as nat
    }
}

impl Health {
    /// A bar never shows more than [`MAX_HEALTH`].
    #[verifier::type_invariant]
    pub open spec fn wf(self) -> bool {
        self@ <= MAX_HEALTH
    }

    /// Creates a full health bar.
    pub fn new() -> (health: Health)
        ensures
            health@ == MAX_HEALTH,
    {
        Health { current_health: MAX_HEALTH }
    }

    /// Creates a bar that starts at `start`, or a full one where no start is
    /// given. A start above [`MAX_HEALTH`] is refused.
    pub fn create(start: Option<u32>) -> (made: Result<Health, ComponentError>)
        ensures
            match start {
                None => made matches Ok(h) && h@ == MAX_HEALTH,
                Some(s) => if s <= MAX_HEALTH {
                    made matches Ok(h) && h@ == s
                } else {
                    made == Err::<Health, ComponentError>(ComponentError::InvalidArgument)
                },
            },
    {
        match start {
            None => Ok(Health { current_health: MAX_HEALTH }),
            Some(s) => {
                if s <= MAX_HEALTH {
                    Ok(Health { current_health: s })
                } else {
                    Err(ComponentError::InvalidArgument)
                }
            },
        }
    }

    /// The number the bar shows, by value.
    pub fn current(&self) -> (current: u32)
        ensures
            current == self@,
            current <= MAX_HEALTH,
    {
        proof {
            use_type_invariant(self);
        }
        self.current_health
    }

    /// Whether the bar is at zero.
    pub fn is_killed(&self) -> (dead: bool)
        ensures
            dead == is_dead(self@),
    {
        self.current_health == 0
    }

    /// Whether the bar is full.
    pub fn ok(&self) -> (full: bool)
        ensures
            full == (self@ == MAX_HEALTH),
    {
        proof {
            use_type_invariant(self);
        }
        self.current_health >= MAX_HEALTH
    }

    /// The number the bar shows.
    pub fn get_health(&self) -> (current: &u32)
        ensures
            *current == self@,
            *current <= MAX_HEALTH,
    {
        proof {
            use_type_invariant(self);
        }
        &self.current_health
    }

    /// Takes `by` points from the bar and returns what is left.
    ///
    /// Asking for more than the bar holds is refused with `Underflow`.
    pub fn drip(&mut self, by: u32) -> (left: Result<u32, ComponentError>)
        ensures
            match dripped(old(self)@, by as nat) {
                Ok(c) => final(self)@ == c && left == Ok::<u32, ComponentError>(c as u32),
                Err(e) => final(self)@ == old(self)@ && left == Err::<u32, ComponentError>(e),
            },
    {
        proof {
            use_type_invariant(&*self);
        }
        if by > self.current_health {
            return Err(ComponentError::Underflow);
        }
        self.current_health = self.current_health - by;
        Ok(self.current_health)
    }

    /// The most that [`Health::drip_random`] would take from the bar as it
    /// is.
    pub fn max_random_drip(&self) -> (ceiling: u32)
        ensures
            ceiling == drip_roll_ceiling(self@),
            ceiling <= self@,
    {
        self.current_health / 2
    }

    /// The most that [`Health::incr_random`] would add to the bar as it is.
    pub fn max_random_incr(&self) -> (ceiling: u32)
        ensures
            ceiling == heal_roll_ceiling(self@),
            ceiling >= 1,
    {
        let half: u32 = self.current_health / 2;
        if half >= 1 {
            half
        } else {
            1
        }
    }

    /// Takes a random number of points, between none and
    /// [`drip_roll_ceiling`] of what the bar shows, and returns what is left.
    /// This never takes more than the bar holds, and a dead bar stays at
    /// zero.
    pub fn drip_random(&mut self) -> (left: u32)
        ensures
            left == final(self)@,
            exists|amount: nat|
                amount <= drip_roll_ceiling(old(self)@) && #[trigger] dripped(old(self)@, amount)
                    == Ok::<nat, ComponentError>(final(self)@),
            old(self)@ - drip_roll_ceiling(old(self)@) <= final(self)@ <= old(self)@,
    {
        proof {
            use_type_invariant(&*self);
        }
        let amount: u32 = random_in_range(0, self.max_random_drip());
        self.current_health = self.current_health - amount;
        proof {
            assert(dripped(old(self)@, amount as nat) == Ok::<nat, ComponentError>(self@));
        }
        self.current_health
    }

    /// Adds `by` points to the bar, stopping at [`MAX_HEALTH`], and returns
    /// the new reading.
    ///
    /// A dead bar cannot be healed: the call is refused with `Dead`.
    pub fn incr(&mut self, by: u32) -> (now: Result<u32, ComponentError>)
        ensures
            match healed(old(self)@, by as nat) {
                Ok(c) => final(self)@ == c && now == Ok::<u32, ComponentError>(c as u32),
                Err(e) => final(self)@ == old(self)@ && now == Err::<u32, ComponentError>(e),
            },
    {
        proof {
            use_type_invariant(&*self);
        }
        if self.is_killed() {
            return Err(ComponentError::Dead);
        }
        if by >= MAX_HEALTH - self.current_health {
            self.current_health = MAX_HEALTH;
        } else {
            self.current_health = self.current_health + by;
        }
        Ok(self.current_health)
    }

    /// Adds a random number of points, at least one and at most
    /// [`heal_roll_ceiling`] of what the bar shows, stopping at
    /// [`MAX_HEALTH`], and returns the new reading.
    ///
    /// A dead bar cannot be healed: the call is refused with `Dead`.
    pub fn incr_random(&mut self) -> (now: Result<u32, ComponentError>)
        ensures
            old(self)@ == 0 ==> final(self)@ == 0 && now == Err::<u32, ComponentError>(
                ComponentError::Dead,
            ),
            old(self)@ > 0 ==> now == Ok::<u32, ComponentError>(final(self)@ as u32)
                && exists|amount: nat|
                1 <= amount <= heal_roll_ceiling(old(self)@) && #[trigger] healed(
                    old(self)@,
                    amount,
                ) == Ok::<nat, ComponentError>(final(self)@),
    {
        if self.is_killed() {
            return Err(ComponentError::Dead);
        }
        let amount: u32 = random_in_range(1, self.max_random_incr());
        let ghost before = self@;
        let now = self.incr(amount);
        proof {
            assert(healed(before, amount as nat) == Ok::<nat, ComponentError>(self@));
        }
        now
    }

    /// Brings a dead bar back to full health.
    ///
    /// A bar that is above zero is left alone and the call is refused with
    /// `AlreadyAlive`.
    pub fn revive(&mut self) -> (done: Result<bool, ComponentError>)
        ensures
            match revived(old(self)@) {
                Ok(c) => final(self)@ == c && done == Ok::<bool, ComponentError>(true),
                Err(e) => final(self)@ == old(self)@ && done == Err::<bool, ComponentError>(e),
            },
    {
        if self.is_killed() {
            self.current_health = MAX_HEALTH;
            Ok(true)
        } else {
            Err(ComponentError::AlreadyAlive)
        }
    }

    /// One step of regenerating the bar to full health.
    ///
    /// A full bar is left alone and the answer is `Full`. A bar between zero
    /// and full gains one point and the answer is `Rest`: the caller waits
    /// the delay of its choice and steps again. A dead bar does not
    /// regenerate: the step is refused with `Dead`.
    pub fn regen_step(&mut self) -> (step: Result<RegenStep, ComponentError>)
        ensures
            match regenerated(old(self)@) {
                Ok((c, s)) => final(self)@ == c && step == Ok::<RegenStep, ComponentError>(s),
                Err(e) => final(self)@ == old(self)@ && step == Err::<RegenStep, ComponentError>(
                    e,
                ),
            },
    {
        proof {
            use_type_invariant(&*self);
        }
        if self.is_killed() {
            return Err(ComponentError::Dead);
        }
        if self.ok() {
            return Ok(RegenStep::Full);
        }
        self.current_health = self.current_health + 1;
        Ok(RegenStep::Rest)
    }

    /// Empties the bar, whatever it showed.
    pub fn kill(&mut self)
        ensures
            final(self)@ == killed(old(self)@),
    {
        self.current_health = 0;
    }
}

impl Default for Health {
    /// A full health bar.
    fn default() -> (health: Health)
        ensures
            health@ == MAX_HEALTH,
    {
        Health { current_health: MAX_HEALTH }
    }
}

impl PartialOrd for Health {
    /// Bars are ordered by the number they show.
    fn partial_cmp(&self, other: &Health) -> (order: Option<Ordering>) {
        if self.current_health < other.current_health {
            Some(Ordering::Less)
        } else if self.current_health > other.current_health {
            Some(Ordering::Greater)
        } else {
            Some(Ordering::Equal)
        }
    }

    fn lt(&self, other: &Health) -> (below: bool) {
        self.current_health < other.current_health
    }

    fn le(&self, other: &Health) -> (below: bool) {
        self.current_health <= other.current_health
    }

    fn gt(&self, other: &Health) -> (above: bool) {
        self.current_health > other.current_health
    }

    fn ge(&self, other: &Health) -> (above: bool) {
        self.current_health >= other.current_health
    }
}

impl PartialOrdSpecImpl for Health {
    open spec fn obeys_partial_cmp_spec() -> bool {
        true
    }

    open spec fn partial_cmp_spec(&self, other: &Health) -> Option<Ordering> {
        if self@ < other@ {
            Some(Ordering::Less)
        } else if self@ > other@ {
            Some(Ordering::Greater)
        } else {
            Some(Ordering::Equal)
        }
    }
}

/// Healing by nothing changes nothing, and taking back what a heal added
/// restores the reading: for a live bar showing `current`, `incr(0)` leaves
/// `current`, and `incr(by)` followed by `drip(by)` ends at `current` again
/// whenever the heal did not run into [`MAX_HEALTH`].
pub proof fn lemma_heal_then_drip_restores(current: nat, by: nat)
    requires
        0 < current <= MAX_HEALTH,
        by <= MAX_HEALTH - current,
    ensures
        healed(current, 0) == Ok::<nat, ComponentError>(current),
        healed(current, by) matches Ok(up) && dripped(up, by) == Ok::<nat, ComponentError>(
            current,
        ),
{
}

/// Taking more than a bar holds is refused and never wraps: `drip` answers
/// `Underflow` exactly when asked for more than the bar shows, and what it
/// leaves otherwise is the exact difference.
pub proof fn lemma_drip_never_wraps(current: nat, by: nat)
    ensures
        by > current <==> dripped(current, by) == Err::<nat, ComponentError>(
            ComponentError::Underflow,
        ),
        dripped(current, by) matches Ok(left) ==> left + by == current,
        dripped(current, by) matches Err(e) ==> e == ComponentError::Underflow,
{
}

/// A killed bar is dead whatever it showed before, a dead bar cannot be
/// healed by any amount, and a dead bar can be revived once: the first
/// `revive` fills it, the one straight after is refused with `AlreadyAlive`.
pub proof fn lemma_kill_then_revive_once(current: nat, by: nat)
    ensures
        is_dead(killed(current)),
        healed(killed(current), by) == Err::<nat, ComponentError>(ComponentError::Dead),
        revived(killed(current)) matches Ok(up) && up == MAX_HEALTH && revived(up) == Err::<
            nat,
            ComponentError,
        >(ComponentError::AlreadyAlive),
{
}

/// Only `revive` raises the dead: a dead bar stays dead under `drip`, is
/// refused by `incr` and by regeneration, and `revive` is refused to every
/// bar that is alive.
pub proof fn lemma_only_revive_raises_the_dead(current: nat, by: nat)
    ensures
        is_dead(current) ==> (dripped(current, by) matches Ok(left) ==> is_dead(left)),
        is_dead(current) ==> healed(current, by) is Err,
        is_dead(current) ==> regenerated(current) is Err,
        is_dead(current) <==> revived(current) is Ok,
{
}

/// No operation takes a bar out of its bounds: from a reading of at most
/// [`MAX_HEALTH`], whatever `drip`, `incr`, `revive` or a step of
/// regeneration leaves is at most [`MAX_HEALTH`] again.
pub proof fn lemma_reading_stays_bounded(current: nat, by: nat)
    requires
        current <= MAX_HEALTH,
    ensures
        dripped(current, by) matches Ok(left) ==> left <= current,
        healed(current, by) matches Ok(up) ==> current <= up <= MAX_HEALTH,
        revived(current) matches Ok(up) ==> up <= MAX_HEALTH,
        regenerated(current) matches Ok((up, _)) ==> current <= up <= MAX_HEALTH,
        killed(current) <= MAX_HEALTH,
{
}

/// Regeneration reaches a full bar and stops there: a live bar showing
/// `current` is full after `MAX_HEALTH - current` steps, and a step taken of
/// a full bar answers `Full` and leaves it as it is.
pub proof fn lemma_regeneration_fills(current: nat)
    requires
        0 < current <= MAX_HEALTH,
    ensures
        regenerated_by(current, (MAX_HEALTH - current) as nat) == MAX_HEALTH,
        regenerated(MAX_HEALTH as nat) == Ok::<(nat, RegenStep), ComponentError>(
            (MAX_HEALTH as nat, RegenStep::Full),
        ),
    decreases MAX_HEALTH - current,
{
    if current < MAX_HEALTH {
        lemma_regeneration_fills(current + 1);
    }
}

} // verus!
