//! The window registry: the set of native windows that are currently open,
//! each identified by its native window identity.
//!
//! The foreground dispatcher owns the registry. A window is registered when
//! it is created, and removed when the native "destroyed" notification for
//! it arrives. Removing a window that is not registered is a no-op, so a
//! duplicate or late close notification has no effect.

use vstd::prelude::*;

verus! {

/// The set of currently open windows, by native window identity.
pub struct WindowRegistry {
    ids: Vec<u64>,
}

impl View for WindowRegistry {
    type V = Set<u64>;

    closed spec fn view(&self) -> Set<u64> {
        self.ids@.to_set()
    }
}

impl WindowRegistry {
    #[verifier::type_invariant]
    spec fn wf(&self) -> bool {
        self.ids@.no_duplicates()
    }

    /// The set of open windows is always finite: it is the contents of one
    /// in-memory list.
    pub proof fn lemma_windows_finite(&self)
        ensures
            self@.finite(),
    {
        vstd::seq_lib::seq_to_set_is_finite::<u64>(self.ids@);
    }

    /// An empty registry: no window is open.
    pub fn new() -> (r: WindowRegistry)
        ensures
            r@ == Set::<u64>::empty(),
            r@.finite(),
    {
        let r = WindowRegistry { ids: Vec::new() };
        proof {
            assert(r.ids@.to_set() =~= Set::<u64>::empty());
            r.lemma_windows_finite();
        }
        r
    }

    /// How many windows are open.
    pub fn len(&self) -> (n: usize)
        ensures
            n == self@.len(),
    {
        proof {
            use_type_invariant(&*self);
            self.ids@.unique_seq_to_set();
        }
        self.ids.len()
    }

    /// Whether no window is open.
    pub fn is_empty(&self) -> (r: bool)
        ensures
            r == (self@.len() == 0),
    {
        proof {
            use_type_invariant(&*self);
            self.ids@.lemma_cardinality_of_empty_set_is_0();
        }
        self.ids.len() == 0
    }

    /// Whether the window with this identity is open.
    pub fn contains(&self, id: u64) -> (r: bool)
        ensures
            r == self@.contains(id),
    {
        let n = self.ids.len();
        let mut i: usize = 0;
        while i < n
            invariant
                n == self.ids@.len(),
                0 <= i <= n,
                forall|j: int| 0 <= j < i ==> self.ids@[j] != id,
            decreases n - i,
        {
            if self.ids[i] == id {
                proof {
                    assert(self.ids@[i as int] == id);
                    assert(self.ids@.contains(id));
                }
                return true;
            }
            i += 1;
        }
        proof {
            assert(!self.ids@.contains(id));
        }
        false
    }

    /// Some open window's identity, if any window is open at all. This is
    /// the surface the dispatcher applies drained batches to.
    pub fn first(&self) -> (r: Option<u64>)
        ensures
            r matches Some(w) ==> self@.contains(w),
            (r is None) <==> (self@.len() == 0),
    {
        proof {
            use_type_invariant(&*self);
            self.ids@.lemma_cardinality_of_empty_set_is_0();
        }
        if self.ids.len() > 0 {
            let w = self.ids[0];
            proof {
                assert(self.ids@.contains(w));
            }
            Some(w)
        } else {
            None
        }
    }

    /// Register a newly created window. Registering an identity that is
    /// already present leaves the registry unchanged.
    pub fn insert(&mut self, id: u64)
        ensures
            final(self)@ == old(self)@.insert(id),
            final(self)@.finite(),
    {
        proof {
            use_type_invariant(&*self);
        }
        if !self.contains(id) {
            let ghost s = self.ids@;
            let mut ids: Vec<u64> = Vec::new();
            std::mem::swap(&mut ids, &mut self.ids);
            ids.push(id);
            proof {
                s.lemma_push_to_set_commute(id);
                assert(ids@.to_set() == old(self)@.insert(id));
                assert forall|a: int, b: int|
                    0 <= a < ids@.len() && 0 <= b < ids@.len() && a != b
                        implies ids@[a] != ids@[b] by {
                    if a < s.len() && b < s.len() {
                        assert(s[a] != s[b]);
                    } else if a < s.len() {
                        assert(s[a] != id) by {
                            assert(!s.contains(id));
                        }
                    } else {
                        assert(s[b] != id) by {
                            assert(!s.contains(id));
                        }
                    }
                }
            }
            std::mem::swap(&mut ids, &mut self.ids);
        } else {
            proof {
                assert(old(self)@.insert(id) =~= old(self)@);
            }
        }
        proof {
            self.lemma_windows_finite();
        }
    }

    /// Remove the window with this identity, if it is open. Exactly that one
    /// entry disappears; removing an identity that is not registered is a
    /// no-op. Returns whether the window had been registered.
    pub fn remove(&mut self, id: u64) -> (was_present: bool)
        ensures
            final(self)@ == old(self)@.remove(id),
            was_present == old(self)@.contains(id),
            final(self)@.finite(),
    {
        proof {
            use_type_invariant(&*self);
        }
        let n = self.ids.len();
        let mut i: usize = 0;
        while i < n
            invariant
                n == self.ids@.len(),
                0 <= i <= n,
                forall|j: int| 0 <= j < i ==> self.ids@[j] != id,
                self.ids@ == old(self).ids@,
                self.ids@.no_duplicates(),
            decreases n - i,
        {
            if self.ids[i] == id {
                let ghost s = self.ids@;
                let mut ids: Vec<u64> = Vec::new();
                std::mem::swap(&mut ids, &mut self.ids);
                ids.remove(i);
                proof {
                    Self::lemma_remove_at_to_set(s, i as int, id);
                    assert(ids@.to_set() == old(self)@.remove(id));
                }
                std::mem::swap(&mut ids, &mut self.ids);
                proof {
                    self.lemma_windows_finite();
                }
                return true;
            }
            i += 1;
        }
        proof {
            assert(!old(self).ids@.contains(id));
            assert(!old(self)@.contains(id));
            assert(old(self)@.remove(id) =~= old(self)@);
            self.lemma_windows_finite();
        }
        false
    }

    /// Removing the sole occurrence of a value from a duplicate-free
    /// sequence removes exactly that value from the set of its elements, and
    /// keeps the sequence duplicate-free.
    proof fn lemma_remove_at_to_set(s: Seq<u64>, i: int, id: u64)
        requires
            s.no_duplicates(),
            0 <= i < s.len(),
            s[i] == id,
        ensures
            s.remove(i).to_set() == s.to_set().remove(id),
            s.remove(i).no_duplicates(),
    {
        let t = s.remove(i);
        s.remove_ensures(i);
        assert forall|x: u64| t.contains(x) <==> (s.contains(x) && x != id) by {
            if t.contains(x) {
                let k = choose|k: int| 0 <= k < t.len() && t[k] == x;
                if k < i {
                    assert(s[k] == x);
                    assert(s[k] != s[i]);
                } else {
                    assert(s[k + 1] == x);
                    assert(s[k + 1] != s[i]);
                }
                assert(s.contains(x));
            }
            if s.contains(x) && x != id {
                let k = choose|k: int| 0 <= k < s.len() && s[k] == x;
                assert(k != i);
                if k < i {
                    assert(t[k] == x);
                    assert(t.contains(x));
                } else {
                    assert(t[k - 1] == x);
                    assert(t.contains(x));
                }
            }
        }
        assert(t.to_set() =~= s.to_set().remove(id));
        assert forall|a: int, b: int|
            0 <= a < t.len() && 0 <= b < t.len() && a != b implies t[a] != t[b] by {
            let a2: int = if a < i { a } else { a + 1 };
            let b2: int = if b < i { b } else { b + 1 };
            assert(t[a] == s[a2]);
            assert(t[b] == s[b2]);
            assert(s[a2] != s[b2]);
        }
    }
}

/// Idempotence law for closing windows: removing an identity that is not in
/// the set of open windows changes nothing, and removing the same identity a
/// second time is a no-op.
pub proof fn lemma_close_idempotent(windows: Set<u64>, id: u64)
    ensures
        !windows.contains(id) ==> windows.remove(id) == windows,
        windows.remove(id).remove(id) == windows.remove(id),
{
    if !windows.contains(id) {
        assert(windows.remove(id) =~= windows);
    }
    assert(windows.remove(id).remove(id) =~= windows.remove(id));
}

/// Quit-on-empty law: closing an open window shrinks the set of open windows
/// by exactly one, and empties it exactly when that window was the last one.
/// With "quit on last window close" enabled, N distinct windows therefore
/// take exactly N close events to reach the empty state that signals
/// termination, and no earlier close reaches it.
pub proof fn lemma_quit_on_last_close(windows: Set<u64>, id: u64)
    requires
        windows.finite(),
        windows.contains(id),
    ensures
        windows.remove(id).len() == windows.len() - 1,
        windows.remove(id).len() == 0 <==> windows.len() == 1,
{
    broadcast use vstd::set::group_set_axioms;

}

} // verus!
