//! The disk that the plans work on, as far as they depend on it, and what a
//! plan comes to when the world answers its actions.

use crate::error::ErrorView;
use crate::plan::{outcome_spec, pending_spec, step, ActionView, EventView, Place, StageView};
use crate::tools::Tool;
use vstd::prelude::*;
use vstd::utf8::encode_utf8;

verus! {

/// The state of an instance on disk.
pub struct Disk {
    /// Whether the instance directory is there.
    pub root: bool,
    /// What the port marker holds, where there is one.
    pub marker: Option<Seq<u8>>,
    /// Whether the data directory is there.
    pub data: bool,
}

impl Disk {
    /// The disk without an instance directory.
    pub open spec fn empty() -> Disk {
        Disk { root: false, marker: None, data: false }
    }

    /// The port marker and the data directory lie in the instance directory.
    pub open spec fn well_formed(self) -> bool {
        (self.marker is Some || self.data) ==> self.root
    }

    /// Whether the world, in this state, may answer `action` with `event` and be
    /// in the state `next` afterwards.
    ///
    /// A look at the disk tells the truth and changes nothing. What succeeds has
    /// its effect; what fails may leave anything of the thing it worked on.
    /// Only the init tool, among the tools, touches what is modelled here: when
    /// it reports success the data directory is there.
    pub open spec fn answers(self, action: ActionView, event: EventView, next: Disk) -> bool {
        &&& next.well_formed()
        &&& match action {
            ActionView::Exists { place, path } => {
                &&& next == self
                &&& event == EventView::Present(
                    match place {
                        Place::Root => self.root,
                        Place::Data => self.data,
                    },
                )
            },
            ActionView::CreateDir { path } => match event {
                EventView::Done => !self.root && next == (Disk { root: true, ..self }),
                EventView::Failed(_) => next == self,
                _ => false,
            },
            ActionView::Write { path, contents } => match event {
                EventView::Done => self.root && next == (Disk {
                    marker: Some(encode_utf8(contents)),
                    ..self
                }),
                EventView::Failed(_) => next.root == self.root && next.data == self.data,
                _ => false,
            },
            ActionView::Read { path } => {
                &&& next == self
                &&& match event {
                    EventView::Contents(bytes) => self.marker == Some(bytes),
                    EventView::Missing => self.marker is None,
                    EventView::Failed(_) => true,
                    _ => false,
                }
            },
            ActionView::RemoveTree { path } => match event {
                EventView::Done => next == Disk::empty(),
                EventView::Failed(_) => true,
                _ => false,
            },
            ActionView::Run { tool, invocation } => {
                &&& event is Exited || event is Failed
                &&& match tool {
                    Tool::Init => {
                        &&& next.root == self.root
                        &&& next.marker == self.marker
                        &&& (event matches EventView::Exited(exit) && exit.success) ==> next.data
                    },
                    _ => next == self,
                }
            },
        }
    }
}

/// One exchange between a plan and the world: what the world answered to the
/// pending action, and the state it was in afterwards.
pub struct Exchange {
    pub event: EventView,
    pub disk: Disk,
}

/// What an operation came to.
pub struct End {
    /// How it ended.
    pub outcome: Result<(), ErrorView>,
    /// The state of the disk at its end.
    pub disk: Disk,
    /// The actions that it asked for, in order.
    pub asked: Seq<ActionView>,
}

/// What the plan for the instance directory `root` comes to from `stage` on
/// `disk`, when the world answers its actions as `trace` says: `None` where the
/// world cannot answer so, or where the trace ends before the operation, or
/// goes on after it.
pub open spec fn follow(root: Seq<char>, stage: StageView, disk: Disk, trace: Seq<Exchange>)
    -> Option<End>
    decreases trace.len(),
{
    match pending_spec(root, stage) {
        None => if trace.len() == 0 {
            match outcome_spec(stage) {
                Some(outcome) => Some(End { outcome, disk, asked: Seq::empty() }),
                None => None,
            }
        } else {
            None
        },
        Some(action) => if trace.len() == 0 {
            None
        } else if disk.answers(action, trace[0].event, trace[0].disk) {
            match follow(root, step(root, stage, trace[0].event), trace[0].disk, trace.drop_first()) {
                Some(end) => Some(End { asked: seq![action] + end.asked, ..end }),
                None => None,
            }
        } else {
            None
        },
    }
}

} // verus!
