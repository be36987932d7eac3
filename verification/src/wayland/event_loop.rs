use vstd::prelude::*;

use crate::wayland::connection::{nodup, Connection, ProxySlot};
use crate::wayland::data::ObjectData;
use crate::wayland::{Interface, ObjectId};

verus! {

/// A handle to one event queue of a connection.
#[derive(Clone, Copy, Debug)]
pub struct EventQueue {
    pub q: usize,
}

/// A queue handle that does not keep the queue alive; it must be upgraded
/// against the connection before use.
#[derive(Clone, Copy, Debug)]
pub struct WeakQueue {
    pub q: usize,
}

impl EventQueue {
    /// Give up the strong handle, keeping only the queue's index.
    pub fn downgrade(&self) -> (r: WeakQueue)
        ensures
            r.q == self.q,
    {
        WeakQueue { q: self.q }
    }

    /// Bind a freshly created proxy to this queue and register its handler:
    /// the object gets a new wire id, a new liveness flag set to true, and a
    /// place in this queue's known-object set.
    pub fn manage<D: ObjectData>(
        &self,
        conn: &mut Connection<D>,
        iface: Interface,
        data: D,
    ) -> (r: ObjectId)
        requires
            old(conn).wf(),
            self.q < old(conn).queues@.len(),
        ensures
            final(conn).wf(),
            crate::wayland::connection::flags_monotone(old(conn).flags@, final(conn).flags@),
            r.proxy == Some(old(conn).proxies@.len() as usize),
            r.id == old(conn).next_wire_id,
            r.iface@ == iface@,
            r.alive == Some(old(conn).flags@.len() as usize),
            final(conn).spec_flag(r.alive, false),
            final(conn).flags@ =~= old(conn).flags@.push(true),
            final(conn).proxies@.len() == old(conn).proxies@.len() + 1,
            forall|h: int|
                0 <= h < old(conn).proxies@.len() ==> final(conn).proxies@[h] == old(conn).proxies@[h],
            final(conn).proxies@.last() is Some,
            final(conn).proxies@.last().unwrap().wire_id == old(conn).next_wire_id,
            final(conn).proxies@.last().unwrap().version == iface.version,
            final(conn).proxies@.last().unwrap().iface == iface,
            final(conn).proxies@.last().unwrap().data == Some(data),
            final(conn).proxies@.last().unwrap().queue == self.q,
            final(conn).queues@.len() == old(conn).queues@.len(),
            forall|qi: int|
                0 <= qi < final(conn).queues@.len() && qi != self.q ==> final(conn).queues@[qi] == old(
                    conn,
                ).queues@[qi],
            final(conn).queues@[self.q as int].known@ =~= old(conn).queues@[self.q as int].known@.push(
                old(conn).proxies@.len() as usize,
            ),
            final(conn).schema == old(conn).schema,
            final(conn).outbound == old(conn).outbound,
            final(conn).inbound == old(conn).inbound,
            final(conn).flushed == old(conn).flushed,
            final(conn).prepared == old(conn).prepared,
            final(conn).reads == old(conn).reads,
            final(conn).cancels == old(conn).cancels,
            final(conn).dispatch_passes == old(conn).dispatch_passes,
    {
        let h = conn.proxies.len();
        let flag = conn.flags.len();
        let wire_id = conn.next_wire_id;
        let version = iface.version;
        let id = ObjectId {
            proxy: Some(h),
            id: wire_id,
            iface: iface.clone(),
            alive: Some(flag),
        };
        conn.flags.push(true);
        conn.proxies.push(
            Some(ProxySlot { wire_id, version, iface, flag, data: Some(data), queue: self.q }),
        );
        if conn.next_wire_id < u32::MAX {
            conn.next_wire_id = conn.next_wire_id + 1;
        }
        let qs = &mut conn.queues[self.q];
        qs.known.push(h);
        proof {
            assert forall|hh: int|
                0 <= hh < conn.proxies@.len() && (#[trigger] conn.proxies@[hh])
                    is Some implies conn.slot_wf(conn.proxies@[hh].unwrap()) by {
                if hh < old(conn).proxies@.len() {
                    assert(old(conn).slot_wf(old(conn).proxies@[hh].unwrap()));
                }
            }
            assert forall|qi: int, i: int|
                0 <= qi < conn.queues@.len() && 0 <= i < conn.queues@[qi].known@.len() implies {
                    let hh = #[trigger] conn.queues@[qi].known@[i] as int;
                    &&& hh < conn.proxies@.len()
                    &&& conn.proxies@[hh] is Some
                    &&& conn.proxies@[hh].unwrap().queue == qi
                } by {
                if qi == self.q && i == conn.queues@[qi].known@.len() - 1 {
                    assert(conn.queues@[qi].known@[i] == h);
                } else {
                    assert(conn.queues@[qi].known@[i] == old(conn).queues@[qi].known@[i]);
                    assert(old(conn).known_ok());
                }
            }
            assert forall|qi: int|
                0 <= qi < conn.queues@.len() implies nodup(
                #[trigger] conn.queues@[qi].known@,
            ) by {
                assert(nodup(old(conn).queues@[qi].known@));
                if qi == self.q {
                    let kn = conn.queues@[qi].known@;
                    let kn0 = old(conn).queues@[qi].known@;
                    assert(kn =~= kn0.push(h));
                    assert forall|a: int, b: int|
                        #![trigger kn[a], kn[b]]
                        0 <= a < b < kn.len() implies kn[a] != kn[b] by {
                        if b < kn0.len() {
                            assert(kn[a] == kn0[a] && kn[b] == kn0[b]);
                        } else {
                            assert(kn[b] == h);
                            assert(kn[a] == kn0[a]);
                            assert(old(conn).known_ok());
                            assert(kn0[a] < old(conn).proxies@.len());
                        }
                    }
                }
            }
        }
        id
    }
}

impl WeakQueue {
    /// Recover a strong handle if the queue still exists on the connection.
    pub fn upgrade<D>(&self, conn: &Connection<D>) -> (r: Option<EventQueue>)
        ensures
            match r {
                Some(eq) => self.q < conn.queues@.len() && eq.q == self.q,
                None => self.q >= conn.queues@.len(),
            },
    {
        if self.q < conn.queues.len() {
            Some(EventQueue { q: self.q })
        } else {
            None
        }
    }
}

} // verus!
