use vstd::prelude::*;

verus! {

/// The compute lifecycle of one tile.
///
/// `J` is the handle of a running compute job (with its cancel flag), `B`
/// the buffer that a finished job filled. A `Computing` tile always holds
/// its job and the ticket it was started under; a `WaitForUpload` tile
/// always holds its buffer.
#[derive(Debug)]
pub enum TileState<J, B> {
    Idle,
    Computing { job: J, ticket: u64 },
    WaitForUpload { buffer: B },
}

/// What one scheduler pass did to a tile: the state it took out of the tile
/// (the job to cancel, or the buffer to drop; `Idle` when nothing), and
/// whether a new compute job is to be started for the tile.
#[derive(Debug)]
pub struct UpdateStep<J, B> {
    pub displaced: TileState<J, B>,
    pub schedule: bool,
}

/// The pass leaves a visible tile alone: the frame did not change and the
/// tile is already computing or waiting for upload.
pub open spec fn update_keeps<J, B>(s: TileState<J, B>, in_view: bool, frame_changed: bool) -> bool {
    in_view && !frame_changed && !(s is Idle)
}

/// The pass starts a new compute job for the tile: it is visible, and either
/// the frame changed or it is idle.
pub open spec fn update_schedules<J, B>(s: TileState<J, B>, in_view: bool, frame_changed: bool) -> bool {
    in_view && (frame_changed || s is Idle)
}

/// The tile's state once the pass has run (before a scheduled job starts).
pub open spec fn state_after_update<J, B>(s: TileState<J, B>, in_view: bool, frame_changed: bool) -> TileState<
    J,
    B,
> {
    if update_keeps(s, in_view, frame_changed) {
        s
    } else {
        TileState::Idle
    }
}

impl<J, B> TileState<J, B> {
    pub fn is_computing(&self) -> (r: bool)
        ensures
            r == (self is Computing),
    {
        match self {
            TileState::Computing { .. } => true,
            _ => false,
        }
    }

    pub fn is_waiting_upload(&self) -> (r: bool)
        ensures
            r == (self is WaitForUpload),
    {
        match self {
            TileState::WaitForUpload { .. } => true,
            _ => false,
        }
    }

    /// Sets the tile idle and hands back what it held: the caller raises the
    /// job's cancel flag and aborts it, or drops the buffer.
    pub fn cancel(&mut self) -> (previous: TileState<J, B>)
        ensures
            previous == *old(self),
            *final(self) == TileState::<J, B>::Idle,
    {
        let mut previous = TileState::Idle;
        std::mem::swap(self, &mut previous);
        previous
    }

    /// One scheduler pass over this tile. A tile out of view is cancelled.
    /// A visible tile is cancelled and rescheduled when the frame changed;
    /// otherwise it is left alone while computing or waiting for upload,
    /// and scheduled when idle.
    pub fn begin_update(&mut self, in_view: bool, frame_changed: bool) -> (r: UpdateStep<J, B>)
        ensures
            r.schedule == update_schedules(*old(self), in_view, frame_changed),
            *final(self) == state_after_update(*old(self), in_view, frame_changed),
            update_keeps(*old(self), in_view, frame_changed) ==> r.displaced == TileState::<J, B>::Idle,
            !update_keeps(*old(self), in_view, frame_changed) ==> r.displaced == *old(self),
    {
        if in_view && !frame_changed {
            match self {
                TileState::Idle => {
                    return UpdateStep { displaced: TileState::Idle, schedule: true };
                },
                _ => {
                    return UpdateStep { displaced: TileState::Idle, schedule: false };
                },
            }
        }
        let displaced = self.cancel();
        UpdateStep { displaced, schedule: in_view }
    }

    /// Records the job just started for an idle tile.
    pub fn start(&mut self, job: J, ticket: u64)
        requires
            *old(self) == TileState::<J, B>::Idle,
        ensures
            *final(self) == (TileState::<J, B>::Computing { job, ticket }),
    {
        *self = TileState::Computing { job, ticket };
    }

    /// A job finished its compute into `buffer`. If the tile still runs the
    /// job started under `ticket`, the tile now waits for upload with that
    /// buffer; otherwise the job was superseded, the tile is unchanged, and
    /// the buffer comes back to the caller.
    pub fn complete(&mut self, ticket: u64, buffer: B) -> (rejected: Option<B>)
        ensures
            (*old(self) matches TileState::Computing { ticket: t, .. } && t == ticket) ==> {
                &&& rejected is None
                &&& *final(self) == (TileState::<J, B>::WaitForUpload { buffer })
            },
            !(*old(self) matches TileState::Computing { ticket: t, .. } && t == ticket) ==> {
                &&& rejected == Some(buffer)
                &&& *final(self) == *old(self)
            },
    {
        let current = match self {
            TileState::Computing { ticket: t, .. } => *t == ticket,
            _ => false,
        };
        if current {
            *self = TileState::WaitForUpload { buffer };
            None
        } else {
            Some(buffer)
        }
    }

    /// Upload pickup: a tile waiting for upload becomes idle and hands out
    /// its buffer; any other tile is left as it is.
    pub fn take_ready(&mut self) -> (r: Option<B>)
        ensures
            (*old(self) matches TileState::WaitForUpload { buffer } && r == Some(buffer) && *final(self)
                == TileState::<J, B>::Idle) || (!(*old(self) is WaitForUpload) && r is None && *final(self)
                == *old(self)),
    {
        if self.is_waiting_upload() {
            match self.cancel() {
                TileState::WaitForUpload { buffer } => Some(buffer),
                _ => None,
            }
        } else {
            None
        }
    }
}

/// Running the scheduler pass twice over the same view schedules nothing
/// the second time: after the first pass a visible tile is either computing
/// the job that pass started or still busy with earlier work, and the second
/// pass (whose frame did not change) leaves such a tile alone.
pub proof fn lemma_repeat_update_schedules_nothing<J, B>(
    s: TileState<J, B>,
    in_view: bool,
    frame_changed: bool,
    job: J,
    ticket: u64,
)
    ensures
        ({
            let after = state_after_update(s, in_view, frame_changed);
            let started = if update_schedules(s, in_view, frame_changed) {
                TileState::Computing { job, ticket }
            } else {
                after
            };
            !update_schedules(started, in_view, false)
        }),
{
}

/// A job that finishes between the two passes does not change that: the
/// tile then waits for upload, and the second pass leaves it alone too.
pub proof fn lemma_completed_tile_not_rescheduled<J, B>(ticket: u64, buffer: B, job: J)
    ensures
        !update_schedules(TileState::<J, B>::WaitForUpload { buffer }, true, false),
        !update_schedules(TileState::<J, B>::Computing { job, ticket }, true, false),
{
}

} // verus!
