//! The order in which a game's achievements are listed.
use vstd::prelude::*;

verus! {

/// Achievements are listed by the share of players that unlocked them.
#[derive(Clone, Copy, Debug, PartialEq, Eq, Structural)]
pub enum AchievementSortOrder {
    UnlockRateDesc,
    UnlockRateAsc,
}

impl AchievementSortOrder {
    /// Rarest last: the most unlocked achievements come first.
    pub fn is_descending(self) -> (r: bool)
        ensures
            r == (self == AchievementSortOrder::UnlockRateDesc),
    {
        match self {
            AchievementSortOrder::UnlockRateDesc => true,
            AchievementSortOrder::UnlockRateAsc => false,
        }
    }

    /// The other order.
    pub fn toggled(self) -> (r: Self)
        ensures
            r != self,
    {
        match self {
            AchievementSortOrder::UnlockRateDesc => AchievementSortOrder::UnlockRateAsc,
            AchievementSortOrder::UnlockRateAsc => AchievementSortOrder::UnlockRateDesc,
        }
    }
}

/// Toggling the order twice gives it back.
pub proof fn lemma_toggle_twice(order: AchievementSortOrder, once: AchievementSortOrder, twice: AchievementSortOrder)
    requires
        once != order,
        twice != once,
    ensures
        twice == order,
{
}

} // verus!
