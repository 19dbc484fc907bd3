//! Laws of the interpreter, stated over the meaning of commands and proved.
use crate::command::{apply_spec, step, CmdView};
use crate::resource::{mesh3d_of, uint_of, vec_float_of, InterpreterError, ResourceView};
use crate::store::{resolve_spec, Bindings};
use vstd::prelude::*;

verus! {

/// The identifier a command binds when it succeeds, if it binds one.
pub open spec fn output_of(c: CmdView) -> Option<Seq<char>> {
    match c {
        CmdView::NewUInt { output_id, .. } => Some(output_id),
        CmdView::NewVecFloat { output_id, .. } => Some(output_id),
        CmdView::NewMesh3d { output_id } => Some(output_id),
        CmdView::PushVertex3d { .. } => None,
        CmdView::GetVertex3d { output_id, .. } => Some(output_id),
    }
}

/// The identifier a creation command (one that reads nothing) binds.
pub open spec fn creation_target(c: CmdView) -> Option<Seq<char>> {
    match c {
        CmdView::NewUInt { output_id, .. } => Some(output_id),
        CmdView::NewVecFloat { output_id, .. } => Some(output_id),
        CmdView::NewMesh3d { output_id } => Some(output_id),
        _ => None,
    }
}

/// Applying the commands `cmds` one after another, from bindings `m` and log
/// `log`.
pub open spec fn replay(m: Bindings, log: Seq<CmdView>, cmds: Seq<CmdView>) -> (Bindings, Seq<CmdView>)
    decreases cmds.len(),
{
    if cmds.len() == 0 {
        (m, log)
    } else {
        let (m1, log1) = apply_spec(m, log, cmds[0]);
        replay(m1, log1, cmds.drop_first())
    }
}

/// The commands of `cmds` that succeed when applied one after another from
/// bindings `m`, in the order they were applied.
pub open spec fn successes(m: Bindings, cmds: Seq<CmdView>) -> Seq<CmdView>
    decreases cmds.len(),
{
    if cmds.len() == 0 {
        Seq::empty()
    } else {
        match step(m, cmds[0]) {
            Ok(m1) => seq![cmds[0]] + successes(m1, cmds.drop_first()),
            Err(_) => successes(m, cmds.drop_first()),
        }
    }
}

/// The number of commands of `cmds` that fail when applied one after another
/// from bindings `m`.
pub open spec fn failures(m: Bindings, cmds: Seq<CmdView>) -> nat
    decreases cmds.len(),
{
    if cmds.len() == 0 {
        0
    } else {
        match step(m, cmds[0]) {
            Ok(m1) => failures(m1, cmds.drop_first()),
            Err(_) => 1 + failures(m, cmds.drop_first()),
        }
    }
}

/// Once `NewUInt { input: v, output_id: id }` succeeds, `id` resolves to the
/// unsigned integer `v`.
pub proof fn lemma_new_uint_resolves(m: Bindings, v: usize, id: Seq<char>)
    requires
        step(m, CmdView::NewUInt { input: v, output_id: id }) is Ok,
    ensures
        resolve_spec(step(m, CmdView::NewUInt { input: v, output_id: id })->Ok_0, id)
            == Ok::<ResourceView, InterpreterError>(ResourceView::UInt(v)),
{
}

/// Once a command that binds `id` has succeeded, a creation command that
/// binds `id` again fails with `DuplicateId`, and leaves the bindings and the
/// log as they were.
pub proof fn lemma_bind_twice(m: Bindings, log: Seq<CmdView>, c1: CmdView, c2: CmdView, id: Seq<char>)
    requires
        output_of(c1) == Some(id),
        creation_target(c2) == Some(id),
        step(m, c1) is Ok,
    ensures
        step(step(m, c1)->Ok_0, c2) == Err::<Bindings, InterpreterError>(InterpreterError::DuplicateId),
        apply_spec(step(m, c1)->Ok_0, log, c2) == (step(m, c1)->Ok_0, log),
{
    assert(step(m, c1)->Ok_0.contains_key(id));
}

/// `PushVertex3d` whose coordinates resolve to a float sequence of fewer than
/// three elements fails with `InvalidShape`.
pub proof fn lemma_push_short_coords(m: Bindings, mesh_id: Seq<char>, coords_id: Seq<char>)
    requires
        m.contains_key(coords_id),
        vec_float_of(m[coords_id]) is Ok,
        vec_float_of(m[coords_id])->Ok_0.len() < 3,
    ensures
        step(m, CmdView::PushVertex3d { mesh_id, coords_id }) == Err::<Bindings, InterpreterError>(
            InterpreterError::InvalidShape,
        ),
{
}

/// `GetVertex3d` with an index not below the number of vertices of the mesh
/// fails with `IndexOutOfRange`, and leaves the bindings and the log as they
/// were.
pub proof fn lemma_get_out_of_range(
    m: Bindings,
    log: Seq<CmdView>,
    mesh_id: Seq<char>,
    idx_id: Seq<char>,
    output_id: Seq<char>,
)
    requires
        m.contains_key(idx_id),
        m.contains_key(mesh_id),
        uint_of(m[idx_id]) is Ok,
        mesh3d_of(m[mesh_id]) is Ok,
        uint_of(m[idx_id])->Ok_0 >= mesh3d_of(m[mesh_id])->Ok_0.len(),
    ensures
        step(m, CmdView::GetVertex3d { mesh_id, idx_id, output_id }) == Err::<
            Bindings,
            InterpreterError,
        >(InterpreterError::IndexOutOfRange),
        apply_spec(m, log, CmdView::GetVertex3d { mesh_id, idx_id, output_id }) == (m, log),
{
}

/// A command that reads a resource as a variant it does not hold fails with
/// `TypeMismatch`: an index that is no unsigned integer, coordinates that are
/// no float sequence, a mesh that is no mesh.
pub proof fn lemma_wrong_variant(m: Bindings, mesh_id: Seq<char>, idx_id: Seq<char>, coords_id: Seq<char>, output_id: Seq<char>)
    ensures
        m.contains_key(idx_id) && !(m[idx_id] is UInt) ==> step(
            m,
            CmdView::GetVertex3d { mesh_id, idx_id, output_id },
        ) == Err::<Bindings, InterpreterError>(InterpreterError::TypeMismatch),
        m.contains_key(coords_id) && !(m[coords_id] is VecFloat) ==> step(
            m,
            CmdView::PushVertex3d { mesh_id, coords_id },
        ) == Err::<Bindings, InterpreterError>(InterpreterError::TypeMismatch),
        m.contains_key(coords_id) && vec_float_of(m[coords_id]) is Ok && vec_float_of(
            m[coords_id],
        )->Ok_0.len() >= 3 && m.contains_key(mesh_id) && !(m[mesh_id] is Mesh3d) ==> step(
            m,
            CmdView::PushVertex3d { mesh_id, coords_id },
        ) == Err::<Bindings, InterpreterError>(InterpreterError::TypeMismatch),
        m.contains_key(idx_id) && m[idx_id] is UInt && m.contains_key(mesh_id) && !(
        m[mesh_id] is Mesh3d) ==> step(m, CmdView::GetVertex3d { mesh_id, idx_id, output_id })
            == Err::<Bindings, InterpreterError>(InterpreterError::TypeMismatch),
{
}

/// After a run of commands the log holds exactly the ones that succeeded, in
/// the order they were applied, after what it held before; together with the
/// ones that failed they are all the commands of the run.
pub proof fn lemma_log_holds_successes(m: Bindings, log: Seq<CmdView>, cmds: Seq<CmdView>)
    ensures
        replay(m, log, cmds).1 == log + successes(m, cmds),
        successes(m, cmds).len() + failures(m, cmds) == cmds.len(),
    decreases cmds.len(),
{
    if cmds.len() > 0 {
        let rest = cmds.drop_first();
        match step(m, cmds[0]) {
            Ok(m1) => {
                lemma_log_holds_successes(m1, log.push(cmds[0]), rest);
                assert(log.push(cmds[0]) + successes(m1, rest) =~= log + (seq![cmds[0]] + successes(m1, rest)));
            },
            Err(_) => {
                lemma_log_holds_successes(m, log, rest);
            },
        }
    } else {
        assert(log + Seq::<CmdView>::empty() =~= log);
    }
}

} // verus!
