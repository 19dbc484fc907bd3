//! The interpreter: a resource store together with the log of the commands
//! applied to it.
use crate::command::{apply_spec, step, Cmd, CmdView};
use crate::resource::{InterpreterError, Mesh3d, Pnt3d, Resource, ResourceView};
use crate::store::{commits, resolve_spec, Bindings, ResourceStore};
use std::collections::VecDeque;
use vstd::prelude::*;

verus! {

/// Owns a store of resources and the ordered log of the commands that were
/// applied to it successfully.
pub struct Interpreter {
    resources: ResourceStore,
    cmd_history: VecDeque<Cmd>,
}

impl Interpreter {
    /// The store is well formed.
    pub closed spec fn wf(&self) -> bool {
        self.resources.wf()
    }

    /// What the store binds.
    pub closed spec fn bindings(&self) -> Bindings {
        self.resources@
    }

    /// The commands applied so far, oldest first.
    pub closed spec fn log(&self) -> Seq<CmdView> {
        self.cmd_history@.map_values(|c: Cmd| c@)
    }

    /// An interpreter with no resources and an empty log.
    pub fn new() -> (r: Interpreter)
        ensures
            r.wf(),
            r.bindings() == Bindings::empty(),
            r.log() == Seq::<CmdView>::empty(),
    {
        let r = Interpreter { resources: ResourceStore::new(), cmd_history: VecDeque::new() };
        assert(r.log() =~= Seq::<CmdView>::empty());
        r
    }

    /// The store, for reading.
    pub fn resources(&self) -> (r: &ResourceStore)
        requires
            self.wf(),
        ensures
            r.wf(),
            r@ == self.bindings(),
    {
        &self.resources
    }

    /// The command log, oldest first.
    pub fn cmd_history(&self) -> (r: &VecDeque<Cmd>)
        ensures
            r@.map_values(|c: Cmd| c@) == self.log(),
    {
        &self.cmd_history
    }

    /// The resource bound to `id`, or `UndefinedId`.
    pub fn resolve(&self, id: &str) -> (r: Result<&Resource, InterpreterError>)
        requires
            self.wf(),
        ensures
            match r {
                Ok(res) => resolve_spec(self.bindings(), id@) == Ok::<ResourceView, InterpreterError>(res@),
                Err(e) => resolve_spec(self.bindings(), id@) == Err::<ResourceView, InterpreterError>(e),
            },
    {
        self.resources.resolve(id)
    }

    /// Applies `cmd`. On success its effect is made and `cmd` is appended to
    /// the log; on failure the store and the log stay as they were.
    pub fn apply_cmd(&mut self, cmd: Cmd) -> (res: Result<(), InterpreterError>)
        requires
            old(self).wf(),
        ensures
            final(self).wf(),
            commits(old(self).bindings(), final(self).bindings(), res, step(old(self).bindings(), cmd@)),
            (final(self).bindings(), final(self).log()) == apply_spec(
                old(self).bindings(),
                old(self).log(),
                cmd@,
            ),
    {
        let res = match &cmd {
            Cmd::NewUInt { input, output_id } => self.new_uint(*input, output_id.as_str()),
            Cmd::NewVecFloat { input, output_id } => self.new_vec_float(
                input.as_slice(),
                output_id.as_str(),
            ),
            Cmd::NewMesh3d { output_id } => self.new_mesh3d(output_id.as_str()),
            Cmd::PushVertex3d { mesh_id, coords_id } => self.push_vertex3d(
                mesh_id.as_str(),
                coords_id.as_str(),
            ),
            Cmd::GetVertex3d { mesh_id, idx_id, output_id } => self.get_vertex3d(
                mesh_id.as_str(),
                idx_id.as_str(),
                output_id.as_str(),
            ),
        };
        if res.is_ok() {
            self.cmd_history.push_back(cmd);
            assert(self.log() =~= old(self).log().push(cmd@));
        }
        res
    }

    /// Binds the unsigned integer `input` to `output_id`; fails with
    /// `DuplicateId` if `output_id` is bound. The log is not touched.
    pub fn new_uint(&mut self, input: usize, output_id: &str) -> (res: Result<(), InterpreterError>)
        requires
            old(self).wf(),
        ensures
            final(self).wf(),
            final(self).log() == old(self).log(),
            commits(
                old(self).bindings(),
                final(self).bindings(),
                res,
                step(old(self).bindings(), CmdView::NewUInt { input, output_id: output_id@ }),
            ),
    {
        self.resources.bind(output_id, Resource::UInt(input))
    }

    /// Binds a copy of the float sequence `input` to `output_id`; fails with
    /// `DuplicateId` if `output_id` is bound. The log is not touched.
    pub fn new_vec_float(&mut self, input: &[u64], output_id: &str) -> (res: Result<(), InterpreterError>)
        requires
            old(self).wf(),
        ensures
            final(self).wf(),
            final(self).log() == old(self).log(),
            commits(
                old(self).bindings(),
                final(self).bindings(),
                res,
                step(old(self).bindings(), CmdView::NewVecFloat { input: input@, output_id: output_id@ }),
            ),
    {
        let mut copy: Vec<u64> = Vec::with_capacity(input.len());
        let mut i: usize = 0;
        while i < input.len()
            invariant
                i <= input@.len(),
                copy@ == input@.subrange(0, i as int),
            decreases input@.len() - i,
        {
            copy.push(input[i]);
            i += 1;
            assert(copy@ =~= input@.subrange(0, i as int));
        }
        assert(copy@ =~= input@);
        self.resources.bind(output_id, Resource::VecFloat(copy))
    }

    /// Binds a new empty mesh to `output_id`; fails with `DuplicateId` if
    /// `output_id` is bound. The log is not touched.
    pub fn new_mesh3d(&mut self, output_id: &str) -> (res: Result<(), InterpreterError>)
        requires
            old(self).wf(),
        ensures
            final(self).wf(),
            final(self).log() == old(self).log(),
            commits(
                old(self).bindings(),
                final(self).bindings(),
                res,
                step(old(self).bindings(), CmdView::NewMesh3d { output_id: output_id@ }),
            ),
    {
        self.resources.bind(output_id, Resource::Mesh3d(Mesh3d::new()))
    }

    /// Appends to the mesh `mesh_id` the point made of the first three
    /// elements of the float sequence `coords_id`. Fails with `UndefinedId`
    /// or `TypeMismatch` when either is missing or of another variant, and
    /// with `InvalidShape` when the sequence has fewer than three elements.
    /// The log is not touched.
    pub fn push_vertex3d(&mut self, mesh_id: &str, coords_id: &str) -> (res: Result<(), InterpreterError>)
        requires
            old(self).wf(),
        ensures
            final(self).wf(),
            final(self).log() == old(self).log(),
            commits(
                old(self).bindings(),
                final(self).bindings(),
                res,
                step(old(self).bindings(), CmdView::PushVertex3d { mesh_id: mesh_id@, coords_id: coords_id@ }),
            ),
    {
        let p = match self.resources.resolve(coords_id) {
            Err(e) => {
                return Err(e);
            },
            Ok(r) => match r.as_vec_float() {
                Err(e) => {
                    return Err(e);
                },
                Ok(v) => {
                    if v.len() < 3 {
                        return Err(InterpreterError::InvalidShape);
                    }
                    Pnt3d { x: v[0], y: v[1], z: v[2] }
                },
            },
        };
        self.resources.push_vertex3d(mesh_id, p)
    }

    /// Binds to `output_id` a new float sequence holding the three coordinates
    /// of the vertex of `mesh_id` at the index held by `idx_id`. Fails with
    /// `UndefinedId` or `TypeMismatch` when either is missing or of another
    /// variant, with `IndexOutOfRange` when the index is not below the number
    /// of vertices, and with `DuplicateId` when `output_id` is bound. The log
    /// is not touched.
    pub fn get_vertex3d(&mut self, mesh_id: &str, idx_id: &str, output_id: &str) -> (res: Result<
        (),
        InterpreterError,
    >)
        requires
            old(self).wf(),
        ensures
            final(self).wf(),
            final(self).log() == old(self).log(),
            commits(
                old(self).bindings(),
                final(self).bindings(),
                res,
                step(
                    old(self).bindings(),
                    CmdView::GetVertex3d { mesh_id: mesh_id@, idx_id: idx_id@, output_id: output_id@ },
                ),
            ),
    {
        let i = match self.resources.resolve(idx_id) {
            Err(e) => {
                return Err(e);
            },
            Ok(r) => match r.as_uint() {
                Err(e) => {
                    return Err(e);
                },
                Ok(i) => i,
            },
        };
        let p = match self.resources.resolve(mesh_id) {
            Err(e) => {
                return Err(e);
            },
            Ok(r) => match r.as_mesh3d() {
                Err(e) => {
                    return Err(e);
                },
                Ok(m) => {
                    if i >= m.len() {
                        return Err(InterpreterError::IndexOutOfRange);
                    }
                    m.vertex(i)
                },
            },
        };
        let coords: Vec<u64> = vec![p.x, p.y, p.z];
        assert(coords@ =~= seq![p.x, p.y, p.z]);
        self.resources.bind(output_id, Resource::VecFloat(coords))
    }
}

impl Default for Interpreter {
    fn default() -> (r: Interpreter)
        ensures
            r.wf(),
            r.bindings() == Bindings::empty(),
            r.log() == Seq::<CmdView>::empty(),
    {
        Interpreter::new()
    }
}

} // verus!
