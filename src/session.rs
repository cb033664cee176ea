//! One client session: which device reads it receives, and how its reader
//! tasks answer the cancellation signals of its channel.
use crate::text::text_eq;
use crate::types::{AbortProcess, ChannelMessage, NotificationEvent};
use vstd::prelude::*;

verus! {

pub struct Session {
    id: u64,
    reads: Vec<String>,
}

/// Whether a reader task stops on this message: on `Abort(Read)` and
/// `Abort(Disconnect)` it does, on anything else it goes on.
pub open spec fn reader_stops(msg: ChannelMessage) -> bool {
    msg matches ChannelMessage::Abort(k) && (k == AbortProcess::Read || k == AbortProcess::Disconnect)
}

impl Session {
    pub closed spec fn id(&self) -> u64 {
        self.id
    }

    /// Devices whose notifications this session reads.
    pub closed spec fn reading(&self) -> Set<Seq<char>> {
        Set::new(|u: Seq<char>| exists|i: int| 0 <= i < self.reads@.len() && #[trigger] self.reads@[i]@ == u)
    }

    /// Whether the session delivers a notification: a device read only
    /// while the session reads that device, anything else always.
    pub open spec fn delivers(&self, event: NotificationEvent) -> bool {
        match event {
            NotificationEvent::DeviceRead { uuid, .. } => self.reading().contains(uuid@),
            _ => true,
        }
    }

    pub fn new(id: u64) -> (r: Session)
        ensures
            r.id() == id,
            r.reading() == Set::<Seq<char>>::empty(),
    {
        let r = Session { id, reads: Vec::new() };
        proof {
            assert(r.reading() =~= Set::<Seq<char>>::empty());
        }
        r
    }

    pub fn session_id(&self) -> (r: u64)
        ensures
            r == self.id(),
    {
        self.id
    }

    /// Whether the session reads this device.
    pub fn is_reading(&self, uuid: &str) -> (r: bool)
        ensures
            r == self.reading().contains(uuid@),
    {
        let mut i: usize = 0;
        while i < self.reads.len()
            invariant
                i <= self.reads@.len(),
                forall|j: int| 0 <= j < i ==> #[trigger] self.reads@[j]@ != uuid@,
            decreases self.reads@.len() - i,
        {
            if text_eq(self.reads[i].as_str(), uuid) {
                return true;
            }
            i = i + 1;
        }
        false
    }

    /// Registers a reader for the device; false when one already runs, as
    /// a session has at most one reader per device.
    pub fn start_reading(&mut self, uuid: &str) -> (started: bool)
        ensures
            started == !old(self).reading().contains(uuid@),
            final(self).reading() == old(self).reading().insert(uuid@),
            final(self).id() == old(self).id(),
    {
        if self.is_reading(uuid) {
            proof {
                assert(self.reading().insert(uuid@) =~= self.reading());
            }
            return false;
        }
        let ghost before = self.reading();
        self.reads.push(uuid.to_owned());
        proof {
            assert forall|u: Seq<char>| #[trigger] self.reading().contains(u) <==> before.insert(uuid@).contains(u) by {
                if before.contains(u) {
                    let i = choose|i: int| 0 <= i < old(self).reads@.len() && #[trigger] old(self).reads@[i]@ == u;
                    assert(self.reads@[i]@ == u);
                }
                if u == uuid@ {
                    assert(self.reads@[self.reads@.len() - 1]@ == u);
                }
            }
            assert(self.reading() =~= before.insert(uuid@));
        }
        true
    }

    /// Applies a cancellation signal of the session's channel: `Read` and
    /// `Disconnect` stop every reader of the session.
    pub fn handle_abort(&mut self, kind: AbortProcess)
        ensures
            kind == AbortProcess::Scan ==> *final(self) == *old(self),
            kind != AbortProcess::Scan ==> final(self).reading() == Set::<Seq<char>>::empty(),
            final(self).id() == old(self).id(),
    {
        match kind {
            AbortProcess::Scan => {},
            _ => {
                self.reads = Vec::new();
                proof {
                    assert(self.reading() =~= Set::<Seq<char>>::empty());
                }
            },
        }
    }

    /// Whether a notification is delivered to the session: a device read
    /// only while the session reads that device, anything else always.
    pub fn forward(&self, event: &NotificationEvent) -> (r: bool)
        ensures
            r == self.delivers(*event),
    {
        match event {
            NotificationEvent::DeviceRead { uuid, .. } => self.is_reading(uuid.as_str()),
            _ => true,
        }
    }

    /// Once a session's readers were stopped (by closing a device, or by
    /// the session ending), no read of any device is delivered to it until
    /// a reader is started again.
    pub proof fn lemma_no_reads_after_close(self, uuid: String, data: Vec<u8>)
        requires
            self.reading() == Set::<Seq<char>>::empty(),
        ensures
            !self.delivers(NotificationEvent::DeviceRead { uuid, data }),
    {
    }
}

/// Whether a reader task stops on a message of its session's channel.
pub fn reader_step(msg: &ChannelMessage) -> (stop: bool)
    ensures
        stop == reader_stops(*msg),
{
    match msg {
        ChannelMessage::Abort(k) => match k {
            AbortProcess::Scan => false,
            _ => true,
        },
        _ => false,
    }
}

} // verus!
