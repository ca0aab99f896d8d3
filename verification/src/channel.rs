//! The channel on which the interceptor tells the tray its status.

use crate::status::AppStatus;
use std::collections::VecDeque;
use vstd::prelude::*;

verus! {

/// The status that has waited longest, if any waits.
pub open spec fn oldest(waiting: Seq<AppStatus>) -> Option<AppStatus> {
    if waiting.len() > 0 {
        Some(waiting[0])
    } else {
        None
    }
}

/// What waits once the oldest has been taken.
pub open spec fn rest(waiting: Seq<AppStatus>) -> Seq<AppStatus> {
    if waiting.len() > 0 {
        waiting.drop_first()
    } else {
        waiting
    }
}

/// An unbounded queue of statuses. What was sent first is received first,
/// and nothing is skipped.
pub struct StatusChannel {
    queue: VecDeque<AppStatus>,
}

impl View for StatusChannel {
    type V = Seq<AppStatus>;

    /// The statuses sent and not yet received, oldest first.
    closed spec fn view(&self) -> Seq<AppStatus> {
        self.queue@
    }
}

impl StatusChannel {
    /// An empty channel.
    pub fn new() -> (channel: StatusChannel)
        ensures
            channel@ == Seq::<AppStatus>::empty(),
    {
        StatusChannel { queue: VecDeque::new() }
    }

    /// Puts `status` behind all that wait.
    pub fn send(&mut self, status: AppStatus)
        ensures
            final(self)@ == old(self)@.push(status),
    {
        self.queue.push_back(status);
    }

    /// Takes the oldest waiting status, if there is one, and leaves the
    /// others in their order. Never blocks.
    pub fn try_recv(&mut self) -> (received: Option<AppStatus>)
        ensures
            received == oldest(old(self)@),
            final(self)@ == rest(old(self)@),
    {
        let received = self.queue.pop_front();
        proof {
            if old(self)@.len() > 0 {
                assert(old(self)@.subrange(1, old(self)@.len() as int) =~= old(self)@.drop_first());
            }
        }
        received
    }
}

} // verus!
