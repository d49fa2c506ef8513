//! The resize engine: owned layout state plus a drag-session state machine.
//!
//! One engine instance owns one percentage vector and one drag session, and
//! is driven by four pointer events. A pointer-down on a handle starts a
//! session; while a session is active, every pointer move projects the
//! pointer onto the container's axis and redistributes space between the two
//! panes flanking the dragged handle; pointer-up and pointer-leave both end
//! the session unconditionally. A pointer-down while a session is already
//! active re-targets it: the last pointer-down wins, matching single-pointer
//! hardware. Nested splits are built by composing independent engine
//! instances; no state is shared between instances.
//!
//! The layout invariant — every pane size nonnegative, all panes together
//! exactly the whole container — holds of the engine in every reachable
//! state: an update that would break it is rejected wholesale, never applied
//! in part.

use vstd::prelude::*;

use crate::bounds::axis_units;
use crate::bounds::degenerate;
use crate::bounds::to_axis_percentage;
use crate::bounds::ContainerBounds;
use crate::redistribute::copy_percentages;
use crate::redistribute::equal_split_spec;
use crate::redistribute::implied_last;
use crate::redistribute::lemma_equal_split_valid;
use crate::redistribute::prefix_total;
use crate::redistribute::redistribute;
use crate::redistribute::redistribute_spec;
use crate::redistribute::valid_percentages;
use crate::redistribute::TOTAL;
use crate::sums::lemma_sum_split;
use crate::sums::lemma_sum_take_step;
use crate::sums::sum;

verus! {

/// The direction of a split: panes side by side along the width, or stacked
/// along the height. Fixed for the lifetime of one engine instance, since
/// the meaning of a percentage flips axes with it.
#[derive(Clone, Copy, Debug, PartialEq, Eq, Structural)]
pub enum SplitDirection {
    /// Panes side by side: percentages apply to the width, the x axis.
    Row,
    /// Panes stacked: percentages apply to the height, the y axis.
    Column,
}

impl Default for SplitDirection {
    /// The default split direction is a row.
    fn default() -> (d: Self)
        ensures
            d == SplitDirection::Row,
    {
        SplitDirection::Row
    }
}

/// The drag session: either no drag is in progress, or one handle, named by
/// its index, is being dragged. At most one session is active per engine.
#[derive(Clone, Copy, Debug, PartialEq, Eq, Structural)]
pub enum DragSession {
    /// No handle is being dragged; pointer moves are no-ops.
    Idle,
    /// The handle with this index is being dragged.
    Dragging(usize),
}

/// Why an engine could not be built. Configuration errors are fatal for the
/// instance: nothing is constructed. Later degenerate bounds or out-of-window
/// drags are recovered silently and never surface as errors.
#[derive(Clone, Copy, Debug, PartialEq, Eq, Structural)]
pub enum ConfigurationError {
    /// Fewer than two panes: there is nothing to split.
    TooFewPanes,
    /// The initial sizes do not count one fewer than the panes.
    LengthMismatch,
    /// The initial sizes hold a negative entry, or sum past the whole
    /// container, leaving no valid remainder for the last pane.
    InvalidPercentages,
}

/// The resize engine for one split container: the direction, the stored pane
/// sizes in fixed-point units, and the drag session.
pub struct SplitEngine {
    direction: SplitDirection,
    percentages: Vec<i64>,
    session: DragSession,
}

/// The target offset a pointer move aims at: the pointer coordinate on the
/// active axis, projected onto the container.
pub open spec fn move_target_spec(
    e: SplitEngine,
    x: int,
    y: int,
    bounds: ContainerBounds,
) -> int {
    let coord = if e.direction_spec() == SplitDirection::Row {
        x
    } else {
        y
    };
    axis_units(coord, bounds.origin_axis as int, bounds.length_axis as int)
}

/// The stored sizes after a pointer move: unchanged when no session is
/// active or the bounds are degenerate, and otherwise the dragged handle's
/// redistribution at the projected target.
pub open spec fn moved_percentages_spec(
    e: SplitEngine,
    x: int,
    y: int,
    bounds: ContainerBounds,
) -> Seq<i64> {
    match e.session_spec() {
        DragSession::Idle => e.percentages_spec(),
        DragSession::Dragging(i) => if degenerate(bounds) {
            e.percentages_spec()
        } else {
            redistribute_spec(e.percentages_spec(), i as int, move_target_spec(e, x, y, bounds))
        },
    }
}

impl SplitEngine {
    /// The stored pane sizes: one fixed-point value per pane but the last.
    pub closed spec fn percentages_spec(self) -> Seq<i64> {
        self.percentages@
    }

    /// The current drag session.
    pub closed spec fn session_spec(self) -> DragSession {
        self.session
    }

    /// The split direction the engine was built with.
    pub closed spec fn direction_spec(self) -> SplitDirection {
        self.direction
    }

    #[verifier::type_invariant]
    spec fn wf(self) -> bool {
        &&& valid_percentages(self.percentages@)
        &&& self.percentages@.len() < usize::MAX
        &&& match self.session {
            DragSession::Idle => true,
            DragSession::Dragging(i) => (i as int) < self.percentages@.len(),
        }
    }

    /// Builds an engine over `pane_count` panes. When initial sizes are
    /// given there must be one fewer than the panes, each nonnegative, their
    /// sum at most the whole container; when omitted, every pane gets an
    /// equal share, the whole container divided by the pane count. A pane
    /// count below two, or initial sizes of the wrong length or breaking the
    /// layout invariant, is refused with the matching error.
    pub fn initialize(
        pane_count: usize,
        direction: SplitDirection,
        initial: Option<Vec<i64>>,
    ) -> (result: Result<SplitEngine, ConfigurationError>)
        ensures
            match result {
                Ok(engine) => {
                    &&& pane_count >= 2
                    &&& engine.direction_spec() == direction
                    &&& engine.session_spec() == DragSession::Idle
                    &&& valid_percentages(engine.percentages_spec())
                    &&& match initial {
                        Some(v) => engine.percentages_spec() == v@ && v@.len() == pane_count - 1
                            && valid_percentages(v@),
                        None => engine.percentages_spec() == equal_split_spec(pane_count as int),
                    }
                },
                Err(e) => {
                    &&& (e == ConfigurationError::TooFewPanes <==> pane_count < 2)
                    &&& (e == ConfigurationError::LengthMismatch <==> pane_count >= 2 && (match initial {
                        Some(v) => v@.len() != pane_count - 1,
                        None => false,
                    }))
                    &&& (e == ConfigurationError::InvalidPercentages <==> pane_count >= 2 && (match initial {
                        Some(v) => v@.len() == pane_count - 1 && !valid_percentages(v@),
                        None => false,
                    }))
                },
            },
    {
        if pane_count < 2 {
            return Err(ConfigurationError::TooFewPanes);
        }
        match initial {
            Some(v) => {
                if v.len() != pane_count - 1 {
                    return Err(ConfigurationError::LengthMismatch);
                }
                if !percentages_are_valid(&v) {
                    return Err(ConfigurationError::InvalidPercentages);
                }
                Ok(SplitEngine { direction, percentages: v, session: DragSession::Idle })
            },
            None => {
                let share = ((TOTAL as u64) / (pane_count as u64)) as i64;
                let mut v: Vec<i64> = Vec::new();
                let mut j: usize = 0;
                while j < pane_count - 1
                    invariant
                        2 <= pane_count,
                        j <= pane_count - 1,
                        share == TOTAL as int / pane_count as int,
                        v@.len() == j,
                        forall|x: int| 0 <= x < j ==> #[trigger] v@[x] == share,
                    decreases pane_count - 1 - j,
                {
                    v.push(share);
                    j = j + 1;
                }
                proof {
                    lemma_equal_split_valid(pane_count as int);
                    assert(v@ =~= equal_split_spec(pane_count as int));
                }
                Ok(SplitEngine { direction, percentages: v, session: DragSession::Idle })
            },
        }
    }

    /// A pointer-down on the handle with the given index starts a drag
    /// session for it, re-targeting any session already active. An index
    /// naming no handle changes nothing.
    pub fn on_pointer_down(&mut self, index: usize)
        ensures
            final(self).direction_spec() == old(self).direction_spec(),
            final(self).percentages_spec() == old(self).percentages_spec(),
            final(self).session_spec() == (if (index as int) < old(
                self,
            ).percentages_spec().len() {
                DragSession::Dragging(index)
            } else {
                old(self).session_spec()
            }),
    {
        proof {
            use_type_invariant(&*self);
        }
        if index < self.percentages.len() {
            self.session = DragSession::Dragging(index);
        }
    }

    /// A pointer move. With no active session this is a no-op, the common
    /// case. With a session over handle `i`, the pointer coordinate on the
    /// active axis is projected onto the container and the layout is
    /// redistributed at the projected target; degenerate bounds (a container
    /// not yet measured) skip the update silently, leaving the state as it
    /// was. The layout invariant holds afterwards in every case.
    pub fn on_pointer_move(&mut self, pointer_x: i32, pointer_y: i32, bounds: ContainerBounds)
        ensures
            final(self).direction_spec() == old(self).direction_spec(),
            final(self).session_spec() == old(self).session_spec(),
            final(self).percentages_spec() == moved_percentages_spec(
                *old(self),
                pointer_x as int,
                pointer_y as int,
                bounds,
            ),
            valid_percentages(final(self).percentages_spec()),
    {
        proof {
            use_type_invariant(&*self);
        }
        let session = self.session;
        match session {
            DragSession::Idle => {},
            DragSession::Dragging(index) => {
                if bounds.length_axis > 0 {
                    let coord = match self.direction {
                        SplitDirection::Row => pointer_x,
                        SplitDirection::Column => pointer_y,
                    };
                    let target = to_axis_percentage(coord, &bounds);
                    let updated = redistribute(&self.percentages, index, target);
                    self.percentages = updated;
                }
            },
        }
    }

    /// A pointer-up ends any active drag session; the layout is untouched.
    pub fn on_pointer_up(&mut self)
        ensures
            final(self).direction_spec() == old(self).direction_spec(),
            final(self).percentages_spec() == old(self).percentages_spec(),
            final(self).session_spec() == DragSession::Idle,
    {
        proof {
            use_type_invariant(&*self);
        }
        self.session = DragSession::Idle;
    }

    /// The pointer leaving the container ends any active drag session, the
    /// same way a pointer-up does; no pending move is replayed.
    pub fn on_pointer_leave(&mut self)
        ensures
            final(self).direction_spec() == old(self).direction_spec(),
            final(self).percentages_spec() == old(self).percentages_spec(),
            final(self).session_spec() == DragSession::Idle,
    {
        proof {
            use_type_invariant(&*self);
        }
        self.session = DragSession::Idle;
    }

    /// A read-only snapshot of the stored pane sizes. The snapshot satisfies
    /// the layout invariant, as every reachable engine state does.
    pub fn current_percentages(&self) -> (result: Vec<i64>)
        ensures
            result@ == self.percentages_spec(),
            valid_percentages(result@),
    {
        proof {
            use_type_invariant(&*self);
        }
        copy_percentages(&self.percentages)
    }

    /// All pane sizes, the implicit last pane included: one value per pane,
    /// summing to exactly the whole container.
    pub fn all_percentages(&self) -> (result: Vec<i64>)
        ensures
            result@.len() == self.percentages_spec().len() + 1,
            result@.take(self.percentages_spec().len() as int) == self.percentages_spec(),
            result@[self.percentages_spec().len() as int] == implied_last(self.percentages_spec()),
            sum(result@) == TOTAL,
    {
        proof {
            use_type_invariant(&*self);
        }
        let mut result = copy_percentages(&self.percentages);
        let total = prefix_total(&self.percentages, self.percentages.len());
        proof {
            assert(self.percentages@.take(self.percentages@.len() as int) =~= self.percentages@);
        }
        result.push(TOTAL - total);
        proof {
            assert(result@.drop_last() =~= self.percentages@);
            assert(result@.take(self.percentages@.len() as int) =~= self.percentages@);
        }
        result
    }

    /// The offset at which the handle with the given index sits: the sum of
    /// the pane sizes up to and including the pane left of the handle.
    pub fn handle_offset(&self, index: usize) -> (r: i64)
        requires
            (index as int) < self.percentages_spec().len(),
        ensures
            r == sum(self.percentages_spec().take(index as int + 1)),
            0 <= r <= TOTAL,
    {
        proof {
            use_type_invariant(&*self);
        }
        prefix_total(&self.percentages, index + 1)
    }

    /// How many handles the split has: one fewer than the panes.
    pub fn handle_count(&self) -> (r: usize)
        ensures
            r == self.percentages_spec().len(),
    {
        self.percentages.len()
    }

    /// How many panes the split has.
    pub fn pane_count(&self) -> (r: usize)
        ensures
            r == self.percentages_spec().len() + 1,
    {
        proof {
            use_type_invariant(&*self);
        }
        self.percentages.len() + 1
    }

    /// The split direction the engine was built with.
    pub fn direction(&self) -> (r: SplitDirection)
        ensures
            r == self.direction_spec(),
    {
        self.direction
    }
}

/// Checks the layout invariant of candidate initial sizes: every entry
/// nonnegative and the sum at most the whole container.
fn percentages_are_valid(v: &Vec<i64>) -> (r: bool)
    ensures
        r == valid_percentages(v@),
{
    let mut acc: i64 = 0;
    let mut j: usize = 0;
    while j < v.len()
        invariant
            j <= v@.len(),
            forall|x: int| 0 <= x < j ==> 0 <= #[trigger] v@[x],
            acc == sum(v@.take(j as int)),
            0 <= acc <= TOTAL,
        decreases v@.len() - j,
    {
        let e = v[j];
        if e < 0 {
            return false;
        }
        proof {
            lemma_sum_take_step(v@, j as int);
        }
        if e > TOTAL - acc {
            proof {
                if valid_percentages(v@) {
                    lemma_sum_split(v@, j as int + 1);
                    assert(forall|x: int|
                        0 <= x < v@.len() - j - 1 ==> 0 <= #[trigger] v@.skip(j as int + 1)[x]);
                    crate::sums::lemma_sum_nonneg(v@.skip(j as int + 1));
                    assert(false);
                }
            }
            return false;
        }
        acc = acc + e;
        j = j + 1;
    }
    proof {
        assert(v@.take(v@.len() as int) =~= v@);
    }
    true
}

} // verus!
