//! The arithmetic of a flex container: clamping, the sharing out of free
//! space among growing items, and the offsets that justify and align them.

use vstd::prelude::*;
use crate::fixed::Fixed;
use crate::style::AlignItems;
use crate::style::JustifyContent;

verus! {

/// The most rounds in which free space is shared out.
pub const MAX_ROUNDS: usize = 10;

/// Free space below this many raw units counts as used up.
pub const EPSILON: i64 = 1;

/// `value` raised to `min` and then lowered to `max`, each where it is
/// definite. The lower bound is applied first, so `max` wins where the two
/// cross.
pub open spec fn spec_clamp(value: Fixed, min: Option<Fixed>, max: Option<Fixed>) -> Fixed {
    let raised = match min {
        Some(m) => value.at_least(m),
        None => value,
    };
    match max {
        Some(m) => raised.at_most(m),
        None => raised,
    }
}

/// Holds `value` between the bounds that are definite.
pub fn clamp(value: Fixed, min: Option<Fixed>, max: Option<Fixed>) -> (r: Fixed)
    ensures
        r == spec_clamp(value, min, max),
{
    let raised = match min {
        Some(m) => value.at_least(m),
        None => value,
    };
    match max {
        Some(m) => raised.at_most(m),
        None => raised,
    }
}

/// Where the first item starts and how much extra space follows each item,
/// for `count` items and `remaining` free space on the main axis.
///
/// `Center` starts half the space in, `End` all of it. `SpaceBetween` puts
/// the space between neighbours, `SpaceAround` gives each item half a gap on
/// either side, and `SpaceEvenly` makes the gaps before, between and after
/// the items equal. Where there are too few items to divide by, and for a
/// count so large that the gaps of `SpaceEvenly` cannot be counted, no space
/// is given out.
pub open spec fn spec_resolve_justify_content(justify: JustifyContent, remaining: Fixed, count: usize) -> (Fixed, Fixed) {
    match justify {
        JustifyContent::Start => (Fixed::zero(), Fixed::zero()),
        JustifyContent::Center => (remaining.div_count(2), Fixed::zero()),
        JustifyContent::End => (remaining, Fixed::zero()),
        JustifyContent::SpaceBetween => if count > 1 {
            (Fixed::zero(), remaining.div_count((count - 1) as usize))
        } else {
            (Fixed::zero(), Fixed::zero())
        },
        JustifyContent::SpaceAround => if count > 0 {
            (remaining.div_count(count).div_count(2), remaining.div_count(count))
        } else {
            (Fixed::zero(), Fixed::zero())
        },
        JustifyContent::SpaceEvenly => if 0 < count < usize::MAX {
            (
                remaining.div_count((count + 1) as usize),
                remaining.div_count((count + 1) as usize),
            )
        } else {
            (Fixed::zero(), Fixed::zero())
        },
    }
}

/// The start offset and the extra gap that a justification asks for.
pub fn resolve_justify_content(justify: JustifyContent, remaining: Fixed, count: usize) -> (r: (Fixed, Fixed))
    ensures
        r == spec_resolve_justify_content(justify, remaining, count),
{
    match justify {
        JustifyContent::Start => (Fixed::zero(), Fixed::zero()),
        JustifyContent::Center => (remaining.div_count(2), Fixed::zero()),
        JustifyContent::End => (remaining, Fixed::zero()),
        JustifyContent::SpaceBetween => {
            if count > 1 {
                (Fixed::zero(), remaining.div_count(count - 1))
            } else {
                (Fixed::zero(), Fixed::zero())
            }
        },
        JustifyContent::SpaceAround => {
            if count > 0 {
                let gap = remaining.div_count(count);
                (gap.div_count(2), gap)
            } else {
                (Fixed::zero(), Fixed::zero())
            }
        },
        JustifyContent::SpaceEvenly => {
            if count > 0 && count < usize::MAX {
                let gap = remaining.div_count(count + 1);
                (gap, gap)
            } else {
                (Fixed::zero(), Fixed::zero())
            }
        },
    }
}

/// How far an item of outer cross size `size` is moved from the start of a
/// container of inner cross size `container`.
pub open spec fn spec_resolve_align_position(align: AlignItems, size: Fixed, container: Fixed) -> Fixed {
    let free = container.saturating_sub(size);
    match align {
        AlignItems::Start => Fixed::zero(),
        AlignItems::Stretch => Fixed::zero(),
        AlignItems::Center => free.div_count(2),
        AlignItems::End => free,
    }
}

/// The cross-axis offset that an alignment asks for.
pub fn resolve_align_position(align: AlignItems, size: Fixed, container: Fixed) -> (r: Fixed)
    ensures
        r == spec_resolve_align_position(align, size, container),
{
    let free = container.saturating_sub(size);
    match align {
        AlignItems::Start => Fixed::zero(),
        AlignItems::Stretch => Fixed::zero(),
        AlignItems::Center => free.div_count(2),
        AlignItems::End => free,
    }
}

/// What the sharing out of free space knows of one item: its content size
/// on the main axis, its weight, its bounds, and whether it has stopped
/// taking part.
#[derive(Debug, Clone, Copy, PartialEq, Eq, Structural)]
pub struct FlexItem {
    pub size: Fixed,
    pub grow: Fixed,
    pub min: Option<Fixed>,
    pub max: Option<Fixed>,
    pub frozen: bool,
}

impl FlexItem {
    /// The weight with which the item takes part: its growth factor, or
    /// nothing where that is negative.
    pub open spec fn weight(self) -> Fixed {
        self.grow.non_negative()
    }

    /// The size the item is offered in a round: its share of `remaining`
    /// by weight, on top of what it has.
    pub open spec fn proposed(self, remaining: Fixed, total: Fixed) -> Fixed {
        self.size.saturating_add(remaining.mul_ratio(self.weight(), total))
    }

    /// The item after a round. A frozen item stays as it is; any other takes
    /// the offered size as far as its bounds allow, and freezes if they cut
    /// the offer.
    pub open spec fn grown(self, remaining: Fixed, total: Fixed) -> FlexItem {
        if self.frozen {
            self
        } else {
            let proposed = self.proposed(remaining, total);
            let clamped = spec_clamp(proposed, self.min, self.max);
            FlexItem { size: clamped, grow: self.grow, min: self.min, max: self.max, frozen: proposed != clamped }
        }
    }

    /// How much the item's size changes in a round.
    pub open spec fn absorbed(self, remaining: Fixed, total: Fixed) -> Fixed {
        if self.frozen {
            Fixed::zero()
        } else {
            self.grown(remaining, total).size.saturating_sub(self.size)
        }
    }
}

/// The weights of the first `n` items that are not frozen, added up.
pub open spec fn total_grow(items: Seq<FlexItem>, n: int) -> Fixed
    decreases n,
{
    if n <= 0 {
        Fixed::zero()
    } else if items[n - 1].frozen {
        total_grow(items, n - 1)
    } else {
        total_grow(items, n - 1).saturating_add(items[n - 1].weight())
    }
}

/// Every item after a round.
pub open spec fn grow_round(items: Seq<FlexItem>, remaining: Fixed, total: Fixed) -> Seq<FlexItem> {
    Seq::new(items.len(), |i: int| items[i].grown(remaining, total))
}

/// What the first `n` items absorb in a round, added up in order.
pub open spec fn round_used(items: Seq<FlexItem>, remaining: Fixed, total: Fixed, n: int) -> Fixed
    decreases n,
{
    if n <= 0 {
        Fixed::zero()
    } else if items[n - 1].frozen {
        round_used(items, remaining, total, n - 1)
    } else {
        round_used(items, remaining, total, n - 1).saturating_add(items[n - 1].absorbed(remaining, total))
    }
}

/// Whether one of the first `n` items freezes in a round.
pub open spec fn round_freezes(items: Seq<FlexItem>, remaining: Fixed, total: Fixed, n: int) -> bool
    decreases n,
{
    if n <= 0 {
        false
    } else {
        round_freezes(items, remaining, total, n - 1) || (!items[n - 1].frozen && items[n - 1].grown(
            remaining,
            total,
        ).frozen)
    }
}

/// Whether free space has shrunk below `EPSILON`.
pub open spec fn spent(remaining: Fixed) -> bool {
    -EPSILON < remaining@ < EPSILON
}

/// The items after free space has been shared out in at most `rounds` rounds.
///
/// A round offers every item that is not frozen its share of `remaining` by
/// weight. What the items took is then taken off `remaining`. Sharing stops
/// when no weight is left, when a round froze no item, when the free space
/// is spent, or when the rounds are.
pub open spec fn spec_distribute(items: Seq<FlexItem>, remaining: Fixed, rounds: nat) -> Seq<FlexItem>
    decreases rounds,
{
    let total = total_grow(items, items.len() as int);
    if rounds == 0 || total.is_zero() {
        items
    } else {
        let next = grow_round(items, remaining, total);
        let left = remaining.saturating_sub(round_used(items, remaining, total, items.len() as int));
        if !round_freezes(items, remaining, total, items.len() as int) || spent(left) {
            next
        } else {
            spec_distribute(next, left, (rounds - 1) as nat)
        }
    }
}

/// Adds up the weights of the items that still take part.
fn sum_grow(items: &Vec<FlexItem>) -> (total: Fixed)
    ensures
        total == total_grow(items@, items@.len() as int),
{
    let mut total = Fixed::zero();
    let mut i: usize = 0;
    while i < items.len()
        invariant
            0 <= i <= items@.len(),
            total == total_grow(items@, i as int),
        decreases items@.len() - i,
    {
        if !items[i].frozen {
            total = total.saturating_add(items[i].grow.non_negative());
        }
        i += 1;
    }
    total
}

/// Runs one round over all items; returns what they absorbed and whether
/// one of them froze.
fn run_round(items: &mut Vec<FlexItem>, remaining: Fixed, total: Fixed) -> (r: (Fixed, bool))
    ensures
        final(items)@ == grow_round(old(items)@, remaining, total),
        r.0 == round_used(old(items)@, remaining, total, old(items)@.len() as int),
        r.1 == round_freezes(old(items)@, remaining, total, old(items)@.len() as int),
{
    let n = items.len();
    let mut used = Fixed::zero();
    let mut froze = false;
    let mut i: usize = 0;
    while i < n
        invariant
            0 <= i <= n,
            n == items@.len(),
            n == old(items)@.len(),
            forall|j: int| 0 <= j < i ==> items@[j] == old(items)@[j].grown(remaining, total),
            forall|j: int| i <= j < n ==> items@[j] == old(items)@[j],
            used == round_used(old(items)@, remaining, total, i as int),
            froze == round_freezes(old(items)@, remaining, total, i as int),
        decreases n - i,
    {
        let item = items[i];
        if !item.frozen {
            let delta = remaining.mul_ratio(item.grow.non_negative(), total);
            let proposed = item.size.saturating_add(delta);
            let clamped = clamp(proposed, item.min, item.max);
            let cut = proposed.raw != clamped.raw;
            used = used.saturating_add(clamped.saturating_sub(item.size));
            if cut {
                froze = true;
            }
            items.set(i, FlexItem { size: clamped, grow: item.grow, min: item.min, max: item.max, frozen: cut });
        }
        i += 1;
    }
    proof {
        assert(items@ =~= grow_round(old(items)@, remaining, total));
    }
    (used, froze)
}

/// Shares `remaining` free space out among the items that grow.
///
/// Each round offers every item that is not frozen its share by weight and
/// freezes those whose bounds cut the offer; what they could not take is
/// offered again in the next round. At most `MAX_ROUNDS` rounds are run.
pub fn distribute(items: &mut Vec<FlexItem>, remaining: Fixed)
    ensures
        final(items)@ == spec_distribute(old(items)@, remaining, MAX_ROUNDS as nat),
{
    let mut left = remaining;
    let mut round: usize = 0;
    let mut done = false;
    while round < MAX_ROUNDS && !done
        invariant
            0 <= round <= MAX_ROUNDS,
            spec_distribute(old(items)@, remaining, MAX_ROUNDS as nat) == (if done {
                items@
            } else {
                spec_distribute(items@, left, (MAX_ROUNDS - round) as nat)
            }),
        decreases MAX_ROUNDS - round + (if done { 0int } else { 1int }),
    {
        let total = sum_grow(items);
        if total.is_zero() {
            done = true;
        } else {
            let (used, froze) = run_round(items, left, total);
            left = left.saturating_sub(used);
            round += 1;
            if !froze || (left.raw > -EPSILON && left.raw < EPSILON) {
                done = true;
            }
        }
    }
}

/// A clamped value lies below its upper bound, and above its lower bound
/// where the bounds do not cross; a value within its bounds is kept.
pub proof fn lemma_clamp_bounds(value: Fixed, min: Option<Fixed>, max: Option<Fixed>)
    ensures
        max is Some ==> spec_clamp(value, min, max)@ <= max->0@,
        min is Some && (max is None || min->0@ <= max->0@) ==> spec_clamp(value, min, max)@ >= min->0@,
        (min is None || min->0@ <= value@) && (max is None || value@ <= max->0@) ==> spec_clamp(value, min, max)
            == value,
{
}

/// A round keeps the weight and the bounds of an item, leaves a frozen item
/// as it is, and takes no item past its upper bound.
pub proof fn lemma_grown_keeps(item: FlexItem, remaining: Fixed, total: Fixed)
    ensures
        item.grown(remaining, total).grow == item.grow,
        item.grown(remaining, total).min == item.min,
        item.grown(remaining, total).max == item.max,
        item.frozen ==> item.grown(remaining, total) == item,
        !item.frozen && item.max is Some ==> item.grown(remaining, total).size@ <= item.max->0@,
{
}

/// Sharing out free space keeps the number of items, the weight and the
/// bounds of each, and every item that was frozen to begin with.
pub proof fn lemma_distribute_keeps(items: Seq<FlexItem>, remaining: Fixed, rounds: nat)
    ensures
        spec_distribute(items, remaining, rounds).len() == items.len(),
        forall|i: int|
            0 <= i < items.len() ==> {
                &&& (#[trigger] spec_distribute(items, remaining, rounds)[i]).grow == items[i].grow
                &&& spec_distribute(items, remaining, rounds)[i].min == items[i].min
                &&& spec_distribute(items, remaining, rounds)[i].max == items[i].max
                &&& items[i].frozen ==> spec_distribute(items, remaining, rounds)[i] == items[i]
            },
    decreases rounds,
{
    let total = total_grow(items, items.len() as int);
    if rounds == 0 || total.is_zero() {
    } else {
        let next = grow_round(items, remaining, total);
        let left = remaining.saturating_sub(round_used(items, remaining, total, items.len() as int));
        lemma_distribute_keeps(next, left, (rounds - 1) as nat);
    }
}

/// Without weight nothing is shared out: the items stay as they are.
pub proof fn lemma_distribute_without_weight(items: Seq<FlexItem>, remaining: Fixed, rounds: nat)
    requires
        total_grow(items, items.len() as int).is_zero(),
    ensures
        spec_distribute(items, remaining, rounds) == items,
{
}

} // verus!
