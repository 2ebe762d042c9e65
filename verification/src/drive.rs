//! The decisions of the actor that drives registered streams on each tick.
use vstd::prelude::*;

verus! {

/// A command sent to the drive actor.
#[derive(Debug, Clone, Copy, PartialEq, Eq, Structural)]
pub enum StreamDriveCommand {
    /// Registers the stream with this handle identifier.
    Register { id: u64 },
    /// Drives every registered stream once.
    Tick,
    /// Cancels every registered stream and refuses new ones.
    Shutdown,
}

/// What the actor's host must do after a command.
#[derive(Debug, PartialEq, Eq)]
pub enum DriveAction {
    /// Nothing.
    Idle,
    /// Cancel these streams (refused on registration, or shut down).
    Cancel(Vec<u64>),
    /// Drive these streams once each, in this order, and report which became terminal.
    Drive(Vec<u64>),
}

/// Whether `ids` is strictly increasing.
pub open spec fn ascending(ids: Seq<u64>) -> bool {
    forall|i: int, j: int| 0 <= i < j < ids.len() ==> ids[i] < ids[j]
}

/// The registry of the drive actor: the registered stream handles, in identifier order, and
/// whether shutdown was requested.
pub struct StreamDriveActor {
    handles: Vec<u64>,
    shutdown_requested: bool,
}

impl StreamDriveActor {
    /// The registered handles, in identifier order.
    pub closed spec fn registered(self) -> Seq<u64> {
        self.handles@
    }

    /// Whether shutdown was requested.
    pub closed spec fn stopping(self) -> bool {
        self.shutdown_requested
    }

    /// The registry holds each handle once, in identifier order.
    pub open spec fn well_formed(self) -> bool {
        ascending(self.registered())
    }

    /// Creates an actor with no streams.
    pub fn new() -> (r: Self)
        ensures r.registered().len() == 0, !r.stopping(), r.well_formed(),
    {
        StreamDriveActor { handles: Vec::new(), shutdown_requested: false }
    }

    /// Registers a handle; after shutdown the handle is refused and must be cancelled.
    pub fn register(&mut self, id: u64) -> (accepted: bool)
        requires old(self).well_formed(),
        ensures
            final(self).well_formed(),
            final(self).stopping() == old(self).stopping(),
            accepted == !old(self).stopping(),
            !accepted ==> final(self).registered() == old(self).registered(),
            accepted ==> final(self).registered().to_set() == old(self).registered().to_set().insert(id),
    {
        if self.shutdown_requested {
            return false;
        }
        let ghost h0 = self.handles@;
        let mut i: usize = 0;
        while i < self.handles.len() && self.handles[i] < id
            invariant
                self.handles@ == h0,
                ascending(h0),
                0 <= i <= h0.len(),
                forall|j: int| 0 <= j < i ==> h0[j] < id,
            decreases h0.len() - i,
        {
            i = i + 1;
        }
        if i < self.handles.len() && self.handles[i] == id {
            return true;
        }
        self.handles.insert(i, id);
        proof {
            let h1 = self.handles@;
            assert(h1 == h0.insert(i as int, id));
            assert forall|a: int, b: int| 0 <= a < b < h1.len() implies h1[a] < h1[b] by {
                if b < i { } else if a < i && b == i { } else if a < i { assert(h1[b] == h0[b - 1]); }
                else if a == i { assert(h1[b] == h0[b - 1]); assert(h0[i as int] > id); if b - 1 > i { assert(h0[i as int] < h0[b - 1]); } }
                else { assert(h1[a] == h0[a - 1]); assert(h1[b] == h0[b - 1]); }
            }
            assert(h1.to_set() =~= h0.to_set().insert(id)) by {
                assert forall|x: u64| h1.to_set().contains(x) implies h0.to_set().insert(id).contains(x) by {
                    let k = choose|k: int| 0 <= k < h1.len() && h1[k] == x;
                    if k < i { assert(h0[k] == x); } else if k > i { assert(h0[k - 1] == x); }
                }
                assert forall|x: u64| h0.to_set().insert(id).contains(x) implies h1.to_set().contains(x) by {
                    if x == id { assert(h1[i as int] == id); } else {
                        let k = choose|k: int| 0 <= k < h0.len() && h0[k] == x;
                        if k < i { assert(h1[k] == x); } else { assert(h1[k + 1] == x); }
                    }
                }
            }
        }
        true
    }

    /// The handles to drive on a tick, in identifier order.
    pub fn tick_targets(&self) -> (r: Vec<u64>)
        ensures r@ == self.registered(),
    {
        let mut out: Vec<u64> = Vec::new();
        let mut i: usize = 0;
        while i < self.handles.len()
            invariant 0 <= i <= self.handles@.len(), out@ == self.handles@.take(i as int),
            decreases self.handles@.len() - i,
        {
            out.push(self.handles[i]);
            i = i + 1;
            proof { assert(self.handles@.take(i as int) == self.handles@.take(i - 1).push(self.handles@[i - 1])); }
        }
        proof { assert(self.handles@.take(self.handles@.len() as int) == self.handles@); }
        out
    }

    /// Removes the handles whose streams became terminal while being driven.
    pub fn remove_finished(&mut self, finished: &Vec<u64>)
        requires old(self).well_formed(),
        ensures
            final(self).well_formed(),
            final(self).stopping() == old(self).stopping(),
            final(self).registered() == old(self).registered().filter(|id: u64| !finished@.contains(id)),
    {
        let ghost h0 = self.handles@;
        let ghost keep = |id: u64| !finished@.contains(id);
        let mut kept: Vec<u64> = Vec::new();
        let mut i: usize = 0;
        while i < self.handles.len()
            invariant
                self.handles@ == h0,
                ascending(h0),
                0 <= i <= h0.len(),
                keep == (|id: u64| !finished@.contains(id)),
                kept@ == h0.take(i as int).filter(keep),
                forall|a: int, b: int| 0 <= a < b < kept@.len() ==> kept@[a] < kept@[b],
                forall|a: int| 0 <= a < kept@.len() ==> exists|k: int| 0 <= k < i && h0[k] == #[trigger] kept@[a],
            decreases h0.len() - i,
        {
            let id = self.handles[i];
            let mut done = false;
            let mut j: usize = 0;
            while j < finished.len()
                invariant 0 <= j <= finished@.len(), done <==> (exists|k: int| 0 <= k < j && finished@[k] == id),
                decreases finished@.len() - j,
            {
                if finished[j] == id {
                    done = true;
                }
                j = j + 1;
            }
            proof {
                assert(done == finished@.contains(id));
                let prefix = h0.take(i + 1);
                assert(prefix.drop_last() == h0.take(i as int));
                assert(prefix.last() == id);
                reveal(Seq::filter);
                assert(prefix.filter(keep) == (if keep(id) { h0.take(i as int).filter(keep).push(id) } else { h0.take(i as int).filter(keep) })) by {
                    assert(prefix == h0.take(i as int).push(id));
                }
                assert forall|a: int| 0 <= a < kept@.len() implies #[trigger] kept@[a] < id by {
                    let k = choose|k: int| 0 <= k < i && h0[k] == kept@[a];
                }
            }
            let ghost old_kept = kept@;
            if !done {
                kept.push(id);
            }
            i = i + 1;
            proof {
                let prefix = h0.take(i as int);
                assert(prefix.drop_last() == h0.take(i - 1));
                assert(prefix.last() == id);
                reveal(Seq::filter);
                assert(keep(id) == !done);
                assert(prefix.filter(keep) == (if keep(id) { old_kept.push(id) } else { old_kept }));
                assert forall|a: int| 0 <= a < kept@.len() implies exists|k: int| 0 <= k < i && h0[k] == #[trigger] kept@[a] by {
                    if a < kept@.len() - 1 || done {
                        let k = choose|k: int| 0 <= k < i - 1 && h0[k] == kept@[a];
                    } else {
                        assert(h0[i - 1] == kept@[a]);
                    }
                }
            }
        }
        proof { assert(h0.take(h0.len() as int) == h0); }
        self.handles = kept;
    }

    /// Requests shutdown: every registered handle is returned for cancellation and forgotten.
    pub fn shutdown(&mut self) -> (cancelled: Vec<u64>)
        ensures
            cancelled@ == old(self).registered(),
            final(self).registered().len() == 0,
            final(self).stopping(),
            final(self).well_formed(),
    {
        let mut cancelled: Vec<u64> = Vec::new();
        core::mem::swap(&mut cancelled, &mut self.handles);
        self.shutdown_requested = true;
        cancelled
    }

    /// Whether the actor should stop itself: shutdown was requested and no stream remains.
    pub fn should_stop(&self) -> (r: bool)
        ensures r == (self.stopping() && self.registered().len() == 0),
    {
        self.shutdown_requested && self.handles.len() == 0
    }

    /// Handles one command and says what the host must do.
    pub fn receive(&mut self, command: StreamDriveCommand) -> (r: DriveAction)
        requires old(self).well_formed(),
        ensures
            final(self).well_formed(),
            command matches StreamDriveCommand::Register { id } ==> if old(self).stopping() {
                (r matches DriveAction::Cancel(ids) && ids@ == seq![id]) && final(self).registered() == old(self).registered()
            } else {
                r == DriveAction::Idle && final(self).registered().to_set() == old(self).registered().to_set().insert(id)
            },
            command is Tick ==> (r matches DriveAction::Drive(ids) && ids@ == old(self).registered())
                && final(self).registered() == old(self).registered() && final(self).stopping() == old(self).stopping(),
            command is Shutdown ==> (r matches DriveAction::Cancel(ids) && ids@ == old(self).registered())
                && final(self).registered().len() == 0 && final(self).stopping(),
    {
        match command {
            StreamDriveCommand::Register { id } => {
                if self.register(id) {
                    DriveAction::Idle
                } else {
                    let mut refused: Vec<u64> = Vec::new();
                    refused.push(id);
                    DriveAction::Cancel(refused)
                }
            },
            StreamDriveCommand::Tick => DriveAction::Drive(self.tick_targets()),
            StreamDriveCommand::Shutdown => DriveAction::Cancel(self.shutdown()),
        }
    }
}

} // verus!
