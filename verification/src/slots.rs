//! Per-command child slots of a skeleton: one mesh, one material and one
//! child entity per render command, kept index-parallel.

use vstd::prelude::*;

verus! {

/// Index-parallel mesh / material / child buffers, one slot per render
/// command seen so far. Slots are only ever appended: a frame with fewer
/// commands hides the extra children instead of dropping them.
pub struct ChildSlots<M, T, E> {
    meshes: Vec<M>,
    materials: Vec<T>,
    children: Vec<E>,
}

/// How many slots must be appended to `len` existing ones before
/// `cmd_count` commands each have one.
pub open spec fn spec_missing(len: nat, cmd_count: nat) -> nat {
    if cmd_count > len {
        (cmd_count - len) as nat
    } else {
        0
    }
}

/// Growing a slot set by its missing slots leaves it with exactly as many
/// slots as the larger of its old size and the command count: slots are
/// added for new commands and never dropped when commands go away.
pub proof fn lemma_growth_reaches_command_count(len: nat, cmd_count: nat)
    ensures
        len + spec_missing(len, cmd_count) == (if cmd_count > len {
            cmd_count
        } else {
            len
        }),
        len + spec_missing(len, cmd_count) >= cmd_count,
        spec_missing(len + spec_missing(len, cmd_count), cmd_count) == 0,
{
}

impl<M, T, E> ChildSlots<M, T, E> {
    /// The three buffers have one entry per slot.
    pub closed spec fn wf(&self) -> bool {
        self.meshes.len() == self.materials.len() && self.materials.len() == self.children.len()
    }

    /// The slots, in command order.
    pub closed spec fn slots(&self) -> Seq<(M, T, E)> {
        Seq::new(
            self.meshes.len() as nat,
            |i: int| (self.meshes@[i], self.materials@[i], self.children@[i]),
        )
    }

    /// No slots.
    pub fn new() -> (s: Self)
        ensures
            s.wf(),
            s.slots() == Seq::<(M, T, E)>::empty(),
    {
        let s = ChildSlots { meshes: Vec::new(), materials: Vec::new(), children: Vec::new() };
        assert(s.slots() =~= Seq::<(M, T, E)>::empty());
        s
    }

    /// Number of slots.
    pub fn len(&self) -> (n: usize)
        requires
            self.wf(),
        ensures
            n == self.slots().len(),
    {
        self.meshes.len()
    }

    /// Appends a slot after the existing ones, which stay as they were.
    pub fn push(&mut self, mesh: M, material: T, child: E)
        requires
            old(self).wf(),
        ensures
            final(self).wf(),
            final(self).slots() == old(self).slots().push((mesh, material, child)),
    {
        self.meshes.push(mesh);
        self.materials.push(material);
        self.children.push(child);
        assert(self.slots() =~= old(self).slots().push((mesh, material, child)));
    }

    /// Grows the slots for a frame with `cmd_count` commands by appending
    /// `new_slots`, one for each missing slot, after the existing ones. The
    /// existing slots stay as they were, there are then as many slots as
    /// the larger of the old count and `cmd_count`, and none are missing.
    pub fn grow(&mut self, cmd_count: usize, new_slots: Vec<(M, T, E)>)
        requires
            old(self).wf(),
            new_slots@.len() == spec_missing(old(self).slots().len(), cmd_count as nat),
        ensures
            final(self).wf(),
            final(self).slots() == old(self).slots() + new_slots@,
            final(self).slots().len() == (if cmd_count > old(self).slots().len() {
                cmd_count as nat
            } else {
                old(self).slots().len()
            }),
            forall|i: int|
                0 <= i < old(self).slots().len() ==> #[trigger] final(self).slots()[i] == old(
                    self,
                ).slots()[i],
            spec_missing(final(self).slots().len(), cmd_count as nat) == 0,
    {
        let ghost start = self.slots();
        let ghost added = new_slots@;
        let mut rest = new_slots;
        let n = rest.len();
        let mut k: usize = 0;
        while k < n
            invariant
                self.wf(),
                n == added.len(),
                k <= n,
                rest@ == added.subrange(k as int, n as int),
                self.slots() == start + added.subrange(0, k as int),
            decreases n - k,
        {
            let (m, t, e) = rest.remove(0);
            proof {
                assert(added.subrange(k as int, n as int)[0] == added[k as int]);
            }
            self.push(m, t, e);
            proof {
                assert(added.subrange(0, k as int).push(added[k as int]) =~= added.subrange(
                    0,
                    k + 1,
                ));
                assert(rest@ =~= added.subrange(k + 1, n as int));
            }
            k = k + 1;
        }
        proof {
            assert(added.subrange(0, n as int) =~= added);
            lemma_growth_reaches_command_count(start.len(), cmd_count as nat);
        }
    }

    /// The mesh of slot `i`.
    pub fn mesh(&self, i: usize) -> (r: &M)
        requires
            self.wf(),
            i < self.slots().len(),
        ensures
            *r == self.slots()[i as int].0,
    {
        &self.meshes[i]
    }

    /// The material of slot `i`.
    pub fn material(&self, i: usize) -> (r: &T)
        requires
            self.wf(),
            i < self.slots().len(),
        ensures
            *r == self.slots()[i as int].1,
    {
        &self.materials[i]
    }

    /// The child entity of slot `i`.
    pub fn child(&self, i: usize) -> (r: &E)
        requires
            self.wf(),
            i < self.slots().len(),
        ensures
            *r == self.slots()[i as int].2,
    {
        &self.children[i]
    }

    /// How many slots must be appended before `cmd_count` commands each
    /// have one.
    pub fn missing(&self, cmd_count: usize) -> (n: usize)
        requires
            self.wf(),
        ensures
            n == spec_missing(self.slots().len(), cmd_count as nat),
            cmd_count > self.slots().len() ==> self.slots().len() + n == cmd_count,
            cmd_count <= self.slots().len() ==> n == 0,
    {
        let len = self.meshes.len();
        if cmd_count > len {
            cmd_count - len
        } else {
            0
        }
    }

    /// Visibility of each slot's child for a frame with `cmd_count`
    /// commands: the first `cmd_count` are shown, the rest hidden.
    pub fn visibility(&self, cmd_count: usize) -> (v: Vec<bool>)
        requires
            self.wf(),
        ensures
            v@.len() == self.slots().len(),
            forall|i: int| 0 <= i < v@.len() ==> #[trigger] v@[i] == (i < cmd_count),
    {
        let len = self.meshes.len();
        let mut v: Vec<bool> = Vec::with_capacity(len);
        let mut i: usize = 0;
        while i < len
            invariant
                i <= len,
                v@.len() == i,
                forall|j: int| 0 <= j < i ==> #[trigger] v@[j] == (j < cmd_count),
            decreases len - i,
        {
            v.push(i < cmd_count);
            i = i + 1;
        }
        v
    }
}

} // verus!
