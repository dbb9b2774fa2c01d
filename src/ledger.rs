//! The protected-socket ledger: the descriptors the host has already been
//! asked to protect.

use vstd::prelude::*;

verus! {

/// A set of socket descriptors, held without repetition.
pub struct ProtectedSockets {
    fds: Vec<i32>,
}

impl View for ProtectedSockets {
    type V = Set<i32>;

    closed spec fn view(&self) -> Set<i32> {
        self.fds@.to_set()
    }
}

impl ProtectedSockets {
    /// No descriptor is held twice.
    pub closed spec fn wf(&self) -> bool {
        self.fds@.no_duplicates()
    }

    pub fn new() -> (r: Self)
        ensures
            r.wf(),
            r@ == Set::<i32>::empty(),
    {
        let r = ProtectedSockets { fds: Vec::new() };
        proof {
            assert(r.fds@ =~= Seq::<i32>::empty());
        }
        r
    }

    pub fn is_protected(&self, fd: i32) -> (r: bool)
        requires
            self.wf(),
        ensures
            r == self@.contains(fd),
    {
        let mut i: usize = 0;
        while i < self.fds.len()
            invariant
                i <= self.fds@.len(),
                forall|j: int| 0 <= j < i ==> self.fds@[j] != fd,
            decreases self.fds@.len() - i,
        {
            if self.fds[i] == fd {
                proof {
                    assert(self.fds@.contains(fd));
                }
                return true;
            }
            i = i + 1;
        }
        proof {
            assert(!self.fds@.contains(fd));
        }
        false
    }

    pub fn mark_protected(&mut self, fd: i32)
        requires
            old(self).wf(),
        ensures
            final(self).wf(),
            final(self)@ == old(self)@.insert(fd),
    {
        if !self.is_protected(fd) {
            self.fds.push(fd);
            proof {
                let s = self.fds@;
                assert(s.drop_last() == old(self).fds@);
                assert forall|i: int, j: int| 0 <= i < s.len() && 0 <= j < s.len() && i != j
                    implies s[i] != s[j] by {
                    if i == s.len() - 1 {
                        assert(old(self).fds@.contains(s[j]));
                    } else if j == s.len() - 1 {
                        assert(old(self).fds@.contains(s[i]));
                    }
                }
                old(self).fds@.lemma_push_to_set_commute(fd);
            }
        } else {
            proof {
                assert(old(self)@.insert(fd) =~= old(self)@);
            }
        }
    }

    pub fn clear(&mut self)
        ensures
            final(self).wf(),
            final(self)@ == Set::<i32>::empty(),
    {
        self.fds.clear();
        proof {
            assert(self.fds@ =~= Seq::<i32>::empty());
        }
    }

    pub fn len(&self) -> (r: usize)
        requires
            self.wf(),
        ensures
            r == self@.len(),
    {
        proof {
            self.fds@.unique_seq_to_set();
        }
        self.fds.len()
    }
}

} // verus!
