//! Scripted upstream sequence: a finite script of timed arrivals.

use vstd::prelude::*;

use crate::{Source, StreamPoll};

verus! {

/// The items of a timed script, in arrival order.
pub open spec fn script_items<T>(script: Seq<(u64, T)>) -> Seq<T> {
    script.map_values(|p: (u64, T)| p.1)
}

/// The latest scheduled instant of a timed script; zero for an empty one.
pub open spec fn latest_arrival<T>(script: Seq<(u64, T)>) -> u64
    decreases script.len(),
{
    if script.len() == 0 {
        0
    } else {
        let rest = latest_arrival(script.drop_first());
        if script.first().0 > rest {
            script.first().0
        } else {
            rest
        }
    }
}

/// A finite upstream sequence on the virtual clock: each item of the script
/// arrives at its scheduled instant, and the producer reports exhaustion
/// once the whole script has been handed out.
pub struct ScriptedSource<T> {
    upcoming: Vec<(u64, T)>,
    played: Ghost<Seq<T>>,
    done: bool,
}

impl<T> ScriptedSource<T> {
    /// The timed arrivals that have not been handed out yet.
    pub closed spec fn upcoming(&self) -> Seq<(u64, T)> {
        self.upcoming@
    }

    /// Creates a producer that yields the items of `script` in order, each
    /// no earlier than its scheduled instant.
    pub fn new(script: Vec<(u64, T)>) -> (r: Self)
        ensures
            r.wf(),
            !r.exhausted(),
            r.yielded() == Seq::<T>::empty(),
            r.script() == script_items(script@),
            r.remaining() == script@.len(),
            r.upcoming() == script@,
            r.ready_bound() == latest_arrival(script@),
    {
        let ghost all = script@;
        let r = ScriptedSource { upcoming: script, played: Ghost(Seq::empty()), done: false };
        proof {
            assert(Seq::<T>::empty() + script_items(all) =~= script_items(all));
        }
        r
    }
}

impl<T> Source<T> for ScriptedSource<T> {
    closed spec fn wf(&self) -> bool {
        self.done ==> self.upcoming@.len() == 0
    }

    closed spec fn yielded(&self) -> Seq<T> {
        self.played@
    }

    closed spec fn script(&self) -> Seq<T> {
        self.played@ + script_items(self.upcoming@)
    }

    closed spec fn exhausted(&self) -> bool {
        self.done
    }

    closed spec fn remaining(&self) -> nat {
        self.upcoming@.len()
    }

    closed spec fn ready_by(&self) -> u64 {
        if self.upcoming@.len() == 0 {
            0
        } else {
            self.upcoming@.first().0
        }
    }

    closed spec fn ready_bound(&self) -> u64 {
        latest_arrival(self.upcoming@)
    }

    proof fn wf_script_facts(&self) {
        assert((self.played@ + script_items(self.upcoming@)).take(self.played@.len() as int)
            =~= self.played@);
        if self.done {
            assert(self.played@ + script_items(self.upcoming@) =~= self.played@);
        }
    }

    fn poll_next(&mut self, now: u64) -> (r: StreamPoll<T>)
        ensures
            r is Item <==> old(self).upcoming().len() > 0 && old(self).upcoming()[0].0 <= now,
            r matches StreamPoll::Item(item) ==> item == old(self).upcoming()[0].1
                && final(self).upcoming() == old(self).upcoming().remove(0),
            r is Finished <==> old(self).upcoming().len() == 0,
            !(r is Item) ==> final(self).upcoming() == old(self).upcoming(),
    {
        if self.upcoming.len() == 0 {
            self.done = true;
            return StreamPoll::Finished;
        }
        if self.upcoming[0].0 <= now {
            let ghost played0 = self.played@;
            let ghost before = self.upcoming@;
            let (_at, item) = self.upcoming.remove(0);
            self.played = Ghost(self.played@.push(item));
            proof {
                before.remove_ensures(0);
                assert(before.remove(0) =~= before.drop_first());
                assert forall|i: int| 0 <= i < self.upcoming@.len() implies script_items(
                    self.upcoming@,
                )[i] == script_items(before)[i + 1] by {
                    assert(self.upcoming@[i] == before[i + 1]);
                }
                assert(self.played@ + script_items(self.upcoming@) =~= played0 + script_items(
                    before,
                ));
            }
            StreamPoll::Item(item)
        } else {
            StreamPoll::NotReady
        }
    }
}

} // verus!
