//! The table of resources, keyed by string identifiers, each bound once.
use crate::resource::{mesh3d_of, InterpreterError, Pnt3d, Resource, ResourceView};
use vstd::prelude::*;

verus! {

/// What a store holds: each bound identifier and its resource.
pub type Bindings = Map<Seq<char>, ResourceView>;

/// Looking an identifier up.
pub open spec fn resolve_spec(m: Bindings, id: Seq<char>) -> Result<ResourceView, InterpreterError> {
    if m.contains_key(id) {
        Ok(m[id])
    } else {
        Err(InterpreterError::UndefinedId)
    }
}

/// Binding a fresh identifier; an identifier already bound is refused.
pub open spec fn bind_spec(m: Bindings, id: Seq<char>, r: ResourceView) -> Result<Bindings, InterpreterError> {
    if m.contains_key(id) {
        Err(InterpreterError::DuplicateId)
    } else {
        Ok(m.insert(id, r))
    }
}

/// Appending a vertex to the mesh bound to `id`.
pub open spec fn push_vertex_spec(m: Bindings, id: Seq<char>, p: Pnt3d) -> Result<Bindings, InterpreterError> {
    match resolve_spec(m, id) {
        Err(e) => Err(e),
        Ok(r) => match mesh3d_of(r) {
            Err(e) => Err(e),
            Ok(vs) => Ok(m.insert(id, ResourceView::Mesh3d(vs.push(p)))),
        },
    }
}

/// A call whose intended effect is `outcome` left `before` as `after` and
/// returned `res`: on success the new bindings, on failure the same error and
/// the bindings untouched.
pub open spec fn commits(
    before: Bindings,
    after: Bindings,
    res: Result<(), InterpreterError>,
    outcome: Result<Bindings, InterpreterError>,
) -> bool {
    match outcome {
        Ok(m) => res is Ok && after == m,
        Err(e) => res == Err::<(), InterpreterError>(e) && after == before,
    }
}

/// A mapping from identifiers to resources, where each identifier is bound at
/// most once and a binding is never removed.
pub struct ResourceStore {
    entries: Vec<(String, Resource)>,
    bindings: Ghost<Bindings>,
}

impl View for ResourceStore {
    type V = Bindings;

    closed spec fn view(&self) -> Bindings {
        self.bindings@
    }
}

impl ResourceStore {
    /// The entries hold distinct identifiers and agree with the bindings.
    pub closed spec fn wf(&self) -> bool {
        &&& forall|i: int, j: int|
            0 <= i < j < self.entries@.len() ==> #[trigger] self.entries@[i].0@
                != #[trigger] self.entries@[j].0@
        &&& forall|i: int|
            0 <= i < self.entries@.len() ==> self.bindings@.contains_key(
                #[trigger] self.entries@[i].0@,
            ) && self.bindings@[self.entries@[i].0@] == self.entries@[i].1@
        &&& forall|k: Seq<char>|
            #[trigger] self.bindings@.contains_key(k) ==> exists|i: int|
                0 <= i < self.entries@.len() && #[trigger] self.entries@[i].0@ == k
    }

    /// An empty store.
    pub fn new() -> (s: ResourceStore)
        ensures
            s.wf(),
            s@ == Bindings::empty(),
    {
        ResourceStore { entries: Vec::new(), bindings: Ghost(Bindings::empty()) }
    }

    /// The number of bound identifiers.
    pub fn len(&self) -> (n: usize)
        requires
            self.wf(),
        ensures
            n == self@.dom().len(),
    {
        proof {
            self.lemma_dom_is_keys();
        }
        self.entries.len()
    }

    proof fn lemma_dom_is_keys(&self)
        requires
            self.wf(),
        ensures
            self@.dom().len() == self.entries@.len(),
            self@.dom() =~= self.entries@.map_values(|e: (String, Resource)| e.0@).to_set(),
    {
        let keys = self.entries@.map_values(|e: (String, Resource)| e.0@);
        assert forall|k: Seq<char>| self@.dom().contains(k) <==> keys.to_set().contains(k) by {
            if self@.dom().contains(k) {
                let i = choose|i: int| 0 <= i < self.entries@.len() && #[trigger] self.entries@[i].0@ == k;
                assert(keys[i] == k);
            }
            if keys.to_set().contains(k) {
                let i = choose|i: int| 0 <= i < keys.len() && keys[i] == k;
                assert(self.entries@[i].0@ == k);
            }
        }
        assert(keys.no_duplicates()) by {
            assert forall|i: int, j: int| 0 <= i < keys.len() && 0 <= j < keys.len() && i != j implies keys[i] != keys[j] by {
                if i < j {
                    assert(self.entries@[i].0@ != self.entries@[j].0@);
                } else {
                    assert(self.entries@[j].0@ != self.entries@[i].0@);
                }
            }
        }
        assert(self@.dom() =~= keys.to_set());
        keys.unique_seq_to_set();
    }

    /// The position of the entry for `id`, if it is bound.
    fn find(&self, id: &str) -> (r: Option<usize>)
        requires
            self.wf(),
        ensures
            match r {
                Some(i) => i < self.entries@.len() && self.entries@[i as int].0@ == id@,
                None => !self@.contains_key(id@),
            },
    {
        let key = id.to_owned();
        let mut i: usize = 0;
        while i < self.entries.len()
            invariant
                self.wf(),
                key@ == id@,
                i <= self.entries@.len(),
                forall|j: int| 0 <= j < i ==> self.entries@[j].0@ != key@,
            decreases self.entries@.len() - i,
        {
            if self.entries[i].0 == key {
                return Some(i);
            }
            i += 1;
        }
        None
    }

    /// Whether `id` is bound.
    pub fn contains(&self, id: &str) -> (b: bool)
        requires
            self.wf(),
        ensures
            b == self@.contains_key(id@),
    {
        self.find(id).is_some()
    }

    /// The resource bound to `id`, or `UndefinedId`.
    pub fn resolve(&self, id: &str) -> (r: Result<&Resource, InterpreterError>)
        requires
            self.wf(),
        ensures
            match r {
                Ok(res) => resolve_spec(self@, id@) == Ok::<ResourceView, InterpreterError>(res@),
                Err(e) => resolve_spec(self@, id@) == Err::<ResourceView, InterpreterError>(e),
            },
    {
        match self.find(id) {
            Some(i) => Ok(&self.entries[i].1),
            None => Err(InterpreterError::UndefinedId),
        }
    }

    /// Binds `id` to `r` if `id` is not bound yet; otherwise fails with
    /// `DuplicateId` and leaves the store as it was.
    pub fn bind(&mut self, id: &str, r: Resource) -> (res: Result<(), InterpreterError>)
        requires
            old(self).wf(),
        ensures
            final(self).wf(),
            commits(old(self)@, final(self)@, res, bind_spec(old(self)@, id@, r@)),
    {
        if self.find(id).is_some() {
            return Err(InterpreterError::DuplicateId);
        }
        let ghost rv = r@;
        let key = id.to_owned();
        self.entries.push((key, r));
        self.bindings = Ghost(self.bindings@.insert(id@, rv));
        proof {
            let n = self.entries@.len() - 1;
            assert(self.entries@[n].0@ == id@);
            assert forall|k: Seq<char>| #[trigger] self.bindings@.contains_key(k) implies exists|i: int|
                0 <= i < self.entries@.len() && #[trigger] self.entries@[i].0@ == k by {
                if k == id@ {
                    assert(self.entries@[n].0@ == k);
                } else {
                    assert(old(self).bindings@.contains_key(k));
                    let i = choose|i: int| 0 <= i < old(self).entries@.len() && #[trigger] old(self).entries@[i].0@ == k;
                    assert(self.entries@[i].0@ == k);
                }
            }
        }
        Ok(())
    }

    /// Appends `p` to the mesh bound to `mesh_id`; fails with `UndefinedId` or
    /// `TypeMismatch` and leaves the store as it was when there is no such mesh.
    pub fn push_vertex3d(&mut self, mesh_id: &str, p: Pnt3d) -> (res: Result<(), InterpreterError>)
        requires
            old(self).wf(),
        ensures
            final(self).wf(),
            commits(old(self)@, final(self)@, res, push_vertex_spec(old(self)@, mesh_id@, p)),
    {
        let i = match self.find(mesh_id) {
            Some(i) => i,
            None => {
                return Err(InterpreterError::UndefinedId);
            },
        };
        if self.entries[i].1.as_mesh3d().is_err() {
            return Err(InterpreterError::TypeMismatch);
        }
        match &mut self.entries[i].1 {
            Resource::Mesh3d(m) => {
                m.push(p);
            },
            _ => {},
        }
        let ghost nv = self.entries@[i as int].1@;
        self.bindings = Ghost(self.bindings@.insert(mesh_id@, nv));
        proof {
            assert forall|k: Seq<char>| #[trigger] self.bindings@.contains_key(k) implies exists|j: int|
                0 <= j < self.entries@.len() && #[trigger] self.entries@[j].0@ == k by {
                assert(old(self).bindings@.contains_key(k));
                let j = choose|j: int| 0 <= j < old(self).entries@.len() && #[trigger] old(self).entries@[j].0@ == k;
                assert(self.entries@[j].0@ == k);
            }
            assert(self.bindings@ =~= push_vertex_spec(old(self)@, mesh_id@, p)->Ok_0);
        }
        Ok(())
    }
}

} // verus!
