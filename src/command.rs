//! Commands, the state transitions an interpreter accepts, and what each one
//! does to the bindings of a store.
use crate::resource::{mesh3d_of, uint_of, vec_float_of, InterpreterError, Pnt3d, ResourceView};
use crate::store::{bind_spec, push_vertex_spec, resolve_spec, Bindings};
use vstd::prelude::*;

verus! {

/// A request for one state transition, naming the identifiers it reads and
/// writes.
#[derive(PartialEq, Eq, Debug)]
pub enum Cmd {
    /// Binds a new unsigned integer.
    NewUInt { input: usize, output_id: String },
    /// Binds a new float sequence, a copy of `input`.
    NewVecFloat { input: Vec<u64>, output_id: String },
    /// Binds a new empty 3d mesh.
    NewMesh3d { output_id: String },
    /// Appends the point held by `coords_id` to the mesh `mesh_id`.
    PushVertex3d { mesh_id: String, coords_id: String },
    /// Binds the coordinates of a vertex of `mesh_id`, at the index held by
    /// `idx_id`, as a new float sequence.
    GetVertex3d { mesh_id: String, idx_id: String, output_id: String },
}

/// The mathematical value of a command.
pub enum CmdView {
    NewUInt { input: usize, output_id: Seq<char> },
    NewVecFloat { input: Seq<u64>, output_id: Seq<char> },
    NewMesh3d { output_id: Seq<char> },
    PushVertex3d { mesh_id: Seq<char>, coords_id: Seq<char> },
    GetVertex3d { mesh_id: Seq<char>, idx_id: Seq<char>, output_id: Seq<char> },
}

impl View for Cmd {
    type V = CmdView;

    open spec fn view(&self) -> CmdView {
        match self {
            Cmd::NewUInt { input, output_id } => CmdView::NewUInt { input: *input, output_id: output_id@ },
            Cmd::NewVecFloat { input, output_id } => CmdView::NewVecFloat {
                input: input@,
                output_id: output_id@,
            },
            Cmd::NewMesh3d { output_id } => CmdView::NewMesh3d { output_id: output_id@ },
            Cmd::PushVertex3d { mesh_id, coords_id } => CmdView::PushVertex3d {
                mesh_id: mesh_id@,
                coords_id: coords_id@,
            },
            Cmd::GetVertex3d { mesh_id, idx_id, output_id } => CmdView::GetVertex3d {
                mesh_id: mesh_id@,
                idx_id: idx_id@,
                output_id: output_id@,
            },
        }
    }
}

/// The point made of the first three elements of a float sequence.
pub open spec fn point_of(s: Seq<u64>) -> Pnt3d {
    Pnt3d { x: s[0], y: s[1], z: s[2] }
}

/// The three coordinates of a point, as a float sequence.
pub open spec fn coords_of(p: Pnt3d) -> Seq<u64> {
    seq![p.x, p.y, p.z]
}

/// Appending the point held by `coords_id` to the mesh `mesh_id`.
pub open spec fn push_vertex_step(m: Bindings, mesh_id: Seq<char>, coords_id: Seq<char>) -> Result<
    Bindings,
    InterpreterError,
> {
    match resolve_spec(m, coords_id) {
        Err(e) => Err(e),
        Ok(r) => match vec_float_of(r) {
            Err(e) => Err(e),
            Ok(s) => if s.len() < 3 {
                Err(InterpreterError::InvalidShape)
            } else {
                push_vertex_spec(m, mesh_id, point_of(s))
            },
        },
    }
}

/// Binding a copy of a vertex of `mesh_id`, at the index held by `idx_id`,
/// to `output_id`.
pub open spec fn get_vertex_step(
    m: Bindings,
    mesh_id: Seq<char>,
    idx_id: Seq<char>,
    output_id: Seq<char>,
) -> Result<Bindings, InterpreterError> {
    match resolve_spec(m, idx_id) {
        Err(e) => Err(e),
        Ok(ri) => match uint_of(ri) {
            Err(e) => Err(e),
            Ok(i) => match resolve_spec(m, mesh_id) {
                Err(e) => Err(e),
                Ok(rm) => match mesh3d_of(rm) {
                    Err(e) => Err(e),
                    Ok(vs) => if i >= vs.len() {
                        Err(InterpreterError::IndexOutOfRange)
                    } else {
                        bind_spec(m, output_id, ResourceView::VecFloat(coords_of(vs[i as int])))
                    },
                },
            },
        },
    }
}

/// What applying `c` does to the bindings `m`: the new bindings, or the error
/// that stops it.
pub open spec fn step(m: Bindings, c: CmdView) -> Result<Bindings, InterpreterError> {
    match c {
        CmdView::NewUInt { input, output_id } => bind_spec(m, output_id, ResourceView::UInt(input)),
        CmdView::NewVecFloat { input, output_id } => bind_spec(
            m,
            output_id,
            ResourceView::VecFloat(input),
        ),
        CmdView::NewMesh3d { output_id } => bind_spec(
            m,
            output_id,
            ResourceView::Mesh3d(Seq::empty()),
        ),
        CmdView::PushVertex3d { mesh_id, coords_id } => push_vertex_step(m, mesh_id, coords_id),
        CmdView::GetVertex3d { mesh_id, idx_id, output_id } => get_vertex_step(
            m,
            mesh_id,
            idx_id,
            output_id,
        ),
    }
}

/// Applying `c` to bindings `m` and command log `log`: on success the new
/// bindings and `c` appended to the log, on failure both as they were.
pub open spec fn apply_spec(m: Bindings, log: Seq<CmdView>, c: CmdView) -> (Bindings, Seq<CmdView>) {
    match step(m, c) {
        Ok(m2) => (m2, log.push(c)),
        Err(_) => (m, log),
    }
}

} // verus!
