use mersh_interpreter::command::Cmd;
use mersh_interpreter::interpreter::Interpreter;
use mersh_interpreter::resource::{InterpreterError, Mesh3d, Pnt3d, Resource};
use mersh_interpreter::store::ResourceStore;

fn bits(v: &[f64]) -> Vec<u64> {
    v.iter().map(|f| f.to_bits()).collect()
}

fn floats(v: &[u64]) -> Vec<f64> {
    v.iter().map(|b| f64::from_bits(*b)).collect()
}

fn resolved_floats(interpreter: &Interpreter, id: &str) -> Vec<f64> {
    match interpreter.resolve(id) {
        Ok(Resource::VecFloat(v)) => floats(v),
        _ => panic!("no float sequence under {}", id),
    }
}

#[test]
fn apply_cmd() {
    let mut interpreter = Interpreter::default();

    let res = interpreter.apply_cmd(Cmd::NewUInt { input: 12, output_id: "MyInt".to_string() });
    assert_eq!(res, Ok(()));
    assert!(interpreter.resolve("MyInt").is_ok());
}

#[test]
fn new_uint_0() {
    let mut interpreter = Interpreter::default();
    let id = String::from("MyInt");

    assert_eq!(interpreter.new_uint(12, &id), Ok(()));
    match interpreter.resolve(&id) {
        Ok(&Resource::UInt(uint)) => assert_eq!(uint, 12),
        _ => assert!(false),
    }
}

#[test]
fn new_uint_1() {
    let mut interpreter = Interpreter::default();

    let id = String::from("MyInt");
    assert_eq!(interpreter.new_uint(12, &id), Ok(()));
    assert_eq!(interpreter.new_uint(223, &id), Err(InterpreterError::DuplicateId));
    assert_eq!(interpreter.resolve(&id), Ok(&Resource::UInt(12)));
}

#[test]
fn new_vec_float_0() {
    let mut interpreter = Interpreter::default();
    let id = String::from("MyId");

    assert_eq!(interpreter.new_vec_float(&bits(&[0., 25.0, 6.0]), &id), Ok(()));
    match interpreter.resolve(&id) {
        Ok(Resource::VecFloat(vec_float)) => assert_eq!(f64::from_bits(vec_float[1]), 25.0),
        _ => assert!(false),
    }
}

#[test]
fn new_vec_float_1() {
    let mut interpreter = Interpreter::default();

    let id = String::from("MyInt");
    assert_eq!(interpreter.new_vec_float(&bits(&[0., 25.0, 6.0]), &id), Ok(()));
    assert_eq!(
        interpreter.new_vec_float(&bits(&[0., 9.0]), &id),
        Err(InterpreterError::DuplicateId)
    );
    assert_eq!(resolved_floats(&interpreter, &id), vec![0., 25.0, 6.0]);
}

#[test]
fn new_mesh3d_0() {
    let mut interpreter = Interpreter::default();
    let id = String::from("MyMesh");

    assert_eq!(interpreter.new_mesh3d(&id), Ok(()));
    match interpreter.resolve(&id) {
        Ok(Resource::Mesh3d(mesh)) => assert_eq!(mesh.len(), 0),
        _ => assert!(false),
    }
}

#[test]
fn new_mesh3d_1() {
    let mut interpreter = Interpreter::default();

    let id = String::from("MyMesh");
    assert_eq!(interpreter.new_mesh3d(&id), Ok(()));
    assert_eq!(interpreter.new_mesh3d(&id), Err(InterpreterError::DuplicateId));
}

#[test]
fn push_vertex3d() {
    let mut interpreter = Interpreter::default();

    let coords_id = String::from("MyCoords");
    assert_eq!(interpreter.new_vec_float(&bits(&[0.0, 1.0, 2.0]), &coords_id), Ok(()));

    let mesh_id = String::from("MyMesh");
    assert_eq!(interpreter.new_mesh3d(&mesh_id), Ok(()));

    assert_eq!(interpreter.push_vertex3d(&mesh_id, &coords_id), Ok(()));

    match interpreter.resolve(&mesh_id) {
        Ok(Resource::Mesh3d(mesh)) => {
            assert_eq!(f64::from_bits(mesh.vertex(0).x), 0.0);
            assert_eq!(f64::from_bits(mesh.vertex(0).y), 1.0);
            assert_eq!(f64::from_bits(mesh.vertex(0).z), 2.0);
        }
        _ => assert!(false),
    }
}

#[test]
fn get_vertex3d() {
    let mut interpreter = Interpreter::default();

    let mesh_id = String::from("MyMesh");
    assert_eq!(interpreter.new_mesh3d(&mesh_id), Ok(()));

    let coords_id = String::from("MyCoords");
    assert_eq!(interpreter.new_vec_float(&bits(&[6.0, 1.0, 2.0]), &coords_id), Ok(()));

    assert_eq!(interpreter.push_vertex3d(&mesh_id, &coords_id), Ok(()));

    let idx_id = String::from("MyId");
    assert_eq!(interpreter.new_uint(0, &idx_id), Ok(()));

    let output_id = String::from("MyVertex");
    assert_eq!(interpreter.get_vertex3d(&mesh_id, &idx_id, &output_id), Ok(()));

    match interpreter.resolve(&output_id) {
        Ok(Resource::VecFloat(vec)) => {
            assert_eq!(f64::from_bits(vec[0]), 6.0);
            assert_eq!(f64::from_bits(vec[1]), 1.0);
            assert_eq!(f64::from_bits(vec[2]), 2.0);
        }
        _ => assert!(false),
    }
}

#[test]
fn new_uint_then_resolve_gives_value() {
    let mut interpreter = Interpreter::new();
    let res = interpreter.apply_cmd(Cmd::NewUInt { input: usize::MAX, output_id: "n".to_string() });
    assert_eq!(res, Ok(()));
    assert_eq!(interpreter.resolve("n"), Ok(&Resource::UInt(usize::MAX)));
    assert_eq!(interpreter.resolve("n").unwrap().as_uint(), Ok(usize::MAX));
}

#[test]
fn second_binding_fails_and_keeps_store() {
    let mut interpreter = Interpreter::new();
    assert_eq!(interpreter.apply_cmd(Cmd::NewMesh3d { output_id: "x".to_string() }), Ok(()));
    let res = interpreter.apply_cmd(Cmd::NewUInt { input: 3, output_id: "x".to_string() });
    assert_eq!(res, Err(InterpreterError::DuplicateId));
    let res = interpreter.apply_cmd(Cmd::NewVecFloat { input: bits(&[1.5]), output_id: "x".to_string() });
    assert_eq!(res, Err(InterpreterError::DuplicateId));
    assert_eq!(interpreter.resolve("x"), Ok(&Resource::Mesh3d(Mesh3d::new())));
    assert_eq!(interpreter.resources().len(), 1);
    assert_eq!(interpreter.cmd_history().len(), 1);
}

#[test]
fn vec_float_copied_exactly() {
    let mut interpreter = Interpreter::new();
    let input = bits(&[0.0, 25.0, 6.0]);
    let res = interpreter.apply_cmd(Cmd::NewVecFloat { input: input.clone(), output_id: "id".to_string() });
    assert_eq!(res, Ok(()));
    assert_eq!(resolved_floats(&interpreter, "id"), vec![0.0, 25.0, 6.0]);
    match interpreter.resolve("id") {
        Ok(r) => assert_eq!(r.as_vec_float(), Ok(&input)),
        Err(_) => assert!(false),
    }
}

#[test]
fn vertex_round_trip() {
    let mut interpreter = Interpreter::new();
    let cmds = vec![
        Cmd::NewMesh3d { output_id: "m".to_string() },
        Cmd::NewVecFloat { input: bits(&[6.0, 1.0, 2.0]), output_id: "c".to_string() },
        Cmd::PushVertex3d { mesh_id: "m".to_string(), coords_id: "c".to_string() },
        Cmd::NewUInt { input: 0, output_id: "i".to_string() },
        Cmd::GetVertex3d { mesh_id: "m".to_string(), idx_id: "i".to_string(), output_id: "out".to_string() },
    ];
    for cmd in cmds {
        assert_eq!(interpreter.apply_cmd(cmd), Ok(()));
    }
    assert_eq!(resolved_floats(&interpreter, "out"), vec![6.0, 1.0, 2.0]);
    assert_eq!(interpreter.cmd_history().len(), 5);
}

#[test]
fn push_short_coords_is_invalid_shape() {
    let mut interpreter = Interpreter::new();
    assert_eq!(interpreter.new_mesh3d("m"), Ok(()));
    assert_eq!(interpreter.new_vec_float(&bits(&[1.0, 2.0]), "c"), Ok(()));
    let res = interpreter.apply_cmd(Cmd::PushVertex3d { mesh_id: "m".to_string(), coords_id: "c".to_string() });
    assert_eq!(res, Err(InterpreterError::InvalidShape));
    assert_eq!(interpreter.resolve("m"), Ok(&Resource::Mesh3d(Mesh3d::new())));
    assert_eq!(interpreter.new_vec_float(&[], "e"), Ok(()));
    assert_eq!(interpreter.push_vertex3d("m", "e"), Err(InterpreterError::InvalidShape));
    assert_eq!(interpreter.cmd_history().len(), 0);
}

#[test]
fn push_uses_first_three_coords() {
    let mut interpreter = Interpreter::new();
    assert_eq!(interpreter.new_mesh3d("m"), Ok(()));
    assert_eq!(interpreter.new_vec_float(&bits(&[1.0, -2.0, 3.5, 9.0]), "c"), Ok(()));
    assert_eq!(interpreter.push_vertex3d("m", "c"), Ok(()));
    assert_eq!(interpreter.push_vertex3d("m", "c"), Ok(()));
    match interpreter.resolve("m") {
        Ok(Resource::Mesh3d(mesh)) => {
            assert_eq!(mesh.len(), 2);
            let p = Pnt3d { x: 1.0f64.to_bits(), y: (-2.0f64).to_bits(), z: 3.5f64.to_bits() };
            assert_eq!(mesh.vertex(1), p);
        }
        _ => assert!(false),
    }
}

#[test]
fn get_out_of_range_keeps_store() {
    let mut interpreter = Interpreter::new();
    assert_eq!(interpreter.new_mesh3d("m"), Ok(()));
    assert_eq!(interpreter.new_vec_float(&bits(&[6.0, 1.0, 2.0]), "c"), Ok(()));
    assert_eq!(interpreter.push_vertex3d("m", "c"), Ok(()));
    assert_eq!(interpreter.new_uint(1, "i"), Ok(()));
    let res = interpreter.apply_cmd(Cmd::GetVertex3d {
        mesh_id: "m".to_string(),
        idx_id: "i".to_string(),
        output_id: "out".to_string(),
    });
    assert_eq!(res, Err(InterpreterError::IndexOutOfRange));
    assert!(interpreter.resolve("out").is_err());
    assert_eq!(interpreter.resources().len(), 3);
    assert_eq!(interpreter.cmd_history().len(), 0);
}

#[test]
fn get_into_bound_output_is_duplicate() {
    let mut interpreter = Interpreter::new();
    assert_eq!(interpreter.new_mesh3d("m"), Ok(()));
    assert_eq!(interpreter.new_vec_float(&bits(&[6.0, 1.0, 2.0]), "c"), Ok(()));
    assert_eq!(interpreter.push_vertex3d("m", "c"), Ok(()));
    assert_eq!(interpreter.new_uint(0, "i"), Ok(()));
    assert_eq!(interpreter.get_vertex3d("m", "i", "c"), Err(InterpreterError::DuplicateId));
    assert_eq!(resolved_floats(&interpreter, "c"), vec![6.0, 1.0, 2.0]);
}

#[test]
fn wrong_variant_is_type_mismatch() {
    let mut interpreter = Interpreter::new();
    assert_eq!(interpreter.new_uint(0, "i"), Ok(()));
    assert_eq!(interpreter.new_vec_float(&bits(&[6.0, 1.0, 2.0]), "c"), Ok(()));
    assert_eq!(interpreter.new_mesh3d("m"), Ok(()));
    assert_eq!(interpreter.push_vertex3d("i", "c"), Err(InterpreterError::TypeMismatch));
    assert_eq!(interpreter.push_vertex3d("m", "i"), Err(InterpreterError::TypeMismatch));
    assert_eq!(interpreter.get_vertex3d("m", "c", "o"), Err(InterpreterError::TypeMismatch));
    assert_eq!(interpreter.get_vertex3d("c", "i", "o"), Err(InterpreterError::TypeMismatch));
    let r = interpreter.resolve("i").unwrap();
    assert_eq!(r.as_mesh3d(), Err(InterpreterError::TypeMismatch));
    assert_eq!(r.as_vec_float(), Err(InterpreterError::TypeMismatch));
    let m = interpreter.resolve("m").unwrap();
    assert_eq!(m.as_uint(), Err(InterpreterError::TypeMismatch));
}

#[test]
fn undefined_id_is_reported() {
    let mut interpreter = Interpreter::new();
    assert_eq!(interpreter.resolve("nothing"), Err(InterpreterError::UndefinedId));
    assert_eq!(interpreter.push_vertex3d("m", "c"), Err(InterpreterError::UndefinedId));
    assert_eq!(interpreter.new_vec_float(&bits(&[6.0, 1.0, 2.0]), "c"), Ok(()));
    assert_eq!(interpreter.push_vertex3d("m", "c"), Err(InterpreterError::UndefinedId));
    assert_eq!(interpreter.get_vertex3d("m", "i", "o"), Err(InterpreterError::UndefinedId));
    assert_eq!(interpreter.new_uint(0, "i"), Ok(()));
    assert_eq!(interpreter.get_vertex3d("m", "i", "o"), Err(InterpreterError::UndefinedId));
}

#[test]
fn log_holds_successes_in_order() {
    let mut interpreter = Interpreter::new();
    let cmds = vec![
        Cmd::NewUInt { input: 4, output_id: "a".to_string() },
        Cmd::NewUInt { input: 5, output_id: "a".to_string() },
        Cmd::NewMesh3d { output_id: "m".to_string() },
        Cmd::PushVertex3d { mesh_id: "m".to_string(), coords_id: "a".to_string() },
        Cmd::NewVecFloat { input: bits(&[1.0, 2.0, 3.0]), output_id: "c".to_string() },
        Cmd::GetVertex3d { mesh_id: "m".to_string(), idx_id: "a".to_string(), output_id: "o".to_string() },
        Cmd::PushVertex3d { mesh_id: "m".to_string(), coords_id: "c".to_string() },
    ];
    let mut outcomes = Vec::new();
    for cmd in cmds {
        outcomes.push(interpreter.apply_cmd(cmd).is_ok());
    }
    assert_eq!(outcomes, vec![true, false, true, false, true, false, true]);
    let expected = vec![
        Cmd::NewUInt { input: 4, output_id: "a".to_string() },
        Cmd::NewMesh3d { output_id: "m".to_string() },
        Cmd::NewVecFloat { input: bits(&[1.0, 2.0, 3.0]), output_id: "c".to_string() },
        Cmd::PushVertex3d { mesh_id: "m".to_string(), coords_id: "c".to_string() },
    ];
    let log: Vec<&Cmd> = interpreter.cmd_history().iter().collect();
    assert_eq!(log, expected.iter().collect::<Vec<&Cmd>>());
}

#[test]
fn store_binds_once() {
    let mut store = ResourceStore::new();
    assert_eq!(store.len(), 0);
    assert!(!store.contains("k"));
    assert_eq!(store.bind("k", Resource::UInt(1)), Ok(()));
    assert!(store.contains("k"));
    assert_eq!(store.bind("k", Resource::UInt(2)), Err(InterpreterError::DuplicateId));
    assert_eq!(store.resolve("k"), Ok(&Resource::UInt(1)));
    assert_eq!(store.resolve("K"), Err(InterpreterError::UndefinedId));
    assert_eq!(store.len(), 1);
}

#[test]
fn store_push_vertex() {
    let mut store = ResourceStore::new();
    let p = Pnt3d { x: 1, y: 2, z: 3 };
    assert_eq!(store.push_vertex3d("m", p), Err(InterpreterError::UndefinedId));
    assert_eq!(store.bind("u", Resource::UInt(1)), Ok(()));
    assert_eq!(store.push_vertex3d("u", p), Err(InterpreterError::TypeMismatch));
    assert_eq!(store.bind("m", Resource::Mesh3d(Mesh3d::new())), Ok(()));
    assert_eq!(store.push_vertex3d("m", p), Ok(()));
    let mut expected = Mesh3d::new();
    expected.push(p);
    assert_eq!(store.resolve("m"), Ok(&Resource::Mesh3d(expected)));
}
