//! Which thrusters belong to which vehicle. Each thruster has at most one
//! vehicle (its `ThrusterOf`); each vehicle lists its thrusters (`Thrusters`)
//! in the order they were attached. Both are read from one table of links,
//! so they always agree.

use vstd::prelude::*;

use crate::control::ThrusterOf;

verus! {

/// The thruster entities of one vehicle, in the order they were attached.
#[derive(Debug)]
pub struct Thrusters(pub Vec<u64>);

/// No thruster entity appears twice among the links.
pub open spec fn unique_links(l: Seq<(u64, ThrusterOf)>) -> bool {
    forall|i: int, j: int| 0 <= i < j < l.len() ==> l[i].0 != l[j].0
}

/// The thrusters of vehicle `sub`, in link order.
pub open spec fn thrusters_of(l: Seq<(u64, ThrusterOf)>, sub: u64) -> Seq<u64>
    decreases l.len(),
{
    if l.len() == 0 {
        seq![]
    } else if l.last().1.sub == sub {
        thrusters_of(l.drop_last(), sub).push(l.last().0)
    } else {
        thrusters_of(l.drop_last(), sub)
    }
}

/// A vehicle lists a thruster exactly when the thruster names that vehicle:
/// the two directions of the table agree.
pub proof fn lemma_thrusters_agree(l: Seq<(u64, ThrusterOf)>, sub: u64, t: u64)
    ensures
        thrusters_of(l, sub).contains(t) <==> exists|i: int|
            0 <= i < l.len() && l[i].0 == t && l[i].1.sub == sub,
    decreases l.len(),
{
    if l.len() > 0 {
        let init = l.drop_last();
        lemma_thrusters_agree(init, sub, t);
        if thrusters_of(l, sub).contains(t) {
            if l.last().1.sub == sub && l.last().0 == t {
                assert(l[l.len() - 1].0 == t);
            } else {
                let k = thrusters_of(l, sub).index_of(t);
                if l.last().1.sub == sub {
                    assert(thrusters_of(init, sub).contains(t)) by {
                        assert(k < thrusters_of(init, sub).len() || thrusters_of(l, sub)[k] == l.last().0);
                        assert(thrusters_of(init, sub)[k] == t);
                    }
                }
                let i = choose|i: int| 0 <= i < init.len() && init[i].0 == t && init[i].1.sub == sub;
                assert(l[i] == init[i]);
            }
        } else {
            assert forall|i: int| 0 <= i < l.len() && l[i].0 == t implies l[i].1.sub != sub by {
                if i < l.len() - 1 {
                    assert(l[i] == init[i]);
                    if l[i].1.sub == sub {
                        let s = thrusters_of(init, sub);
                        let k = s.index_of(t);
                        if l.last().1.sub == sub {
                            assert(thrusters_of(l, sub)[k] == t);
                        }
                    }
                } else {
                    if l.last().1.sub == sub {
                        assert(thrusters_of(l, sub).last() == t);
                    }
                }
            }
        }
    }
}

/// The links between thrusters and vehicles.
pub struct ThrusterTable {
    links: Vec<(u64, ThrusterOf)>,
}

impl View for ThrusterTable {
    type V = Seq<(u64, ThrusterOf)>;

    closed spec fn view(&self) -> Seq<(u64, ThrusterOf)> {
        self.links@
    }
}

impl ThrusterTable {
    pub open spec fn wf(&self) -> bool {
        unique_links(self@)
    }

    pub fn new() -> (r: ThrusterTable)
        ensures
            r.wf(),
            r@ == Seq::<(u64, ThrusterOf)>::empty(),
    {
        ThrusterTable { links: Vec::new() }
    }

    /// Where thruster `t` stands among the links.
    fn position(&self, t: u64) -> (r: Option<usize>)
        ensures
            r matches Some(i) ==> i < self@.len() && self@[i as int].0 == t,
            r is None ==> forall|i: int| 0 <= i < self@.len() ==> self@[i].0 != t,
    {
        let mut i: usize = 0;
        while i < self.links.len()
            invariant
                i <= self@.len(),
                forall|j: int| 0 <= j < i ==> self@[j].0 != t,
            decreases self@.len() - i,
        {
            if self.links[i].0 == t {
                return Some(i);
            }
            i += 1;
        }
        None
    }

    /// The vehicle and id of thruster `t`, if it belongs to one.
    pub fn owner(&self, t: u64) -> (r: Option<ThrusterOf>)
        requires
            self.wf(),
        ensures
            r matches Some(of) ==> self@.contains((t, of)),
            r is None ==> forall|i: int| 0 <= i < self@.len() ==> self@[i].0 != t,
    {
        match self.position(t) {
            Some(i) => {
                let of = self.links[i].1;
                assert(self@[i as int] == (t, of));
                Some(of)
            },
            None => None,
        }
    }

    /// Makes thruster `t` belong to `of.sub` with id `of.id`. A thruster that
    /// belonged elsewhere leaves its old vehicle; it goes last in the list of
    /// its new one.
    pub fn attach(&mut self, t: u64, of: ThrusterOf)
        requires
            old(self).wf(),
        ensures
            final(self).wf(),
            (forall|i: int| 0 <= i < old(self)@.len() ==> old(self)@[i].0 != t) ==> final(self)@
                == old(self)@.push((t, of)),
            forall|i: int|
                0 <= i < old(self)@.len() && old(self)@[i].0 == t ==> final(self)@ == old(
                    self,
                )@.remove(i).push((t, of)),
    {
        match self.position(t) {
            Some(i) => {
                self.links.remove(i);
            },
            None => {},
        }
        self.links.push((t, of));
    }

    /// Removes thruster `t` from the table, and so from its vehicle's list.
    pub fn detach(&mut self, t: u64)
        requires
            old(self).wf(),
        ensures
            final(self).wf(),
            (forall|i: int| 0 <= i < old(self)@.len() ==> old(self)@[i].0 != t) ==> final(self)@
                == old(self)@,
            forall|i: int|
                0 <= i < old(self)@.len() && old(self)@[i].0 == t ==> final(self)@ == old(
                    self,
                )@.remove(i),
    {
        match self.position(t) {
            Some(i) => {
                self.links.remove(i);
            },
            None => {},
        }
    }

    /// The thrusters of vehicle `sub`, in the order they were attached.
    pub fn thrusters(&self, sub: u64) -> (r: Thrusters)
        ensures
            r.0@ == thrusters_of(self@, sub),
    {
        let mut out: Vec<u64> = Vec::new();
        let mut i: usize = 0;
        while i < self.links.len()
            invariant
                i <= self@.len(),
                out@ == thrusters_of(self@.take(i as int), sub),
            decreases self@.len() - i,
        {
            assert(self@.take(i + 1).drop_last() =~= self@.take(i as int));
            if self.links[i].1.sub == sub {
                out.push(self.links[i].0);
            }
            i += 1;
        }
        assert(self@.take(i as int) =~= self@);
        Thrusters(out)
    }
}

} // verus!
