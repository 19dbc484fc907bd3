//! Resources, the values an interpreter holds under identifiers.
//!
//! A float is held by its IEEE-754 binary64 bit pattern (`f64::to_bits`), so
//! every copy made here is exact, bit for bit.
use vstd::prelude::*;

verus! {

/// The error kinds an interpreter command can fail with.
#[derive(PartialEq, Eq, Structural, Clone, Copy, Debug)]
pub enum InterpreterError {
    /// A creation command targets an identifier that is already bound.
    DuplicateId,
    /// A command names an identifier that has no binding.
    UndefinedId,
    /// A command expects a resource of one variant and finds another.
    TypeMismatch,
    /// A float sequence does not have the length the command needs.
    InvalidShape,
    /// An index is not below the length of the collection it addresses.
    IndexOutOfRange,
}

/// A 3d point; each coordinate is the bit pattern of a binary64 float.
#[derive(PartialEq, Eq, Structural, Clone, Copy, Debug)]
pub struct Pnt3d {
    pub x: u64,
    pub y: u64,
    pub z: u64,
}

/// A 3d mesh: an ordered sequence of vertices.
#[derive(PartialEq, Eq, Debug)]
pub struct Mesh3d {
    vertices: Vec<Pnt3d>,
}

impl View for Mesh3d {
    type V = Seq<Pnt3d>;

    closed spec fn view(&self) -> Seq<Pnt3d> {
        self.vertices@
    }
}

impl Mesh3d {
    /// An empty mesh.
    pub fn new() -> (m: Mesh3d)
        ensures
            m@ == Seq::<Pnt3d>::empty(),
    {
        Mesh3d { vertices: Vec::new() }
    }

    /// Appends a vertex at the end.
    pub fn push(&mut self, p: Pnt3d)
        ensures
            final(self)@ == old(self)@.push(p),
    {
        self.vertices.push(p);
    }

    /// The number of vertices.
    pub fn len(&self) -> (n: usize)
        ensures
            n == self@.len(),
    {
        self.vertices.len()
    }

    /// The vertex at index `i`.
    pub fn vertex(&self, i: usize) -> (p: Pnt3d)
        requires
            i < self@.len(),
        ensures
            p == self@[i as int],
    {
        self.vertices[i]
    }
}

/// A tagged value held by the interpreter.
#[derive(PartialEq, Eq, Debug)]
pub enum Resource {
    /// Unsigned integer.
    UInt(usize),
    /// Sequence of floats, each by its binary64 bit pattern.
    VecFloat(Vec<u64>),
    /// 3d mesh.
    Mesh3d(Mesh3d),
}

/// The mathematical value of a resource.
pub enum ResourceView {
    UInt(usize),
    VecFloat(Seq<u64>),
    Mesh3d(Seq<Pnt3d>),
}

impl View for Resource {
    type V = ResourceView;

    open spec fn view(&self) -> ResourceView {
        match self {
            Resource::UInt(u) => ResourceView::UInt(*u),
            Resource::VecFloat(v) => ResourceView::VecFloat(v@),
            Resource::Mesh3d(m) => ResourceView::Mesh3d(m@),
        }
    }
}

/// Reading a resource as an unsigned integer.
pub open spec fn uint_of(r: ResourceView) -> Result<usize, InterpreterError> {
    match r {
        ResourceView::UInt(u) => Ok(u),
        _ => Err(InterpreterError::TypeMismatch),
    }
}

/// Reading a resource as a float sequence.
pub open spec fn vec_float_of(r: ResourceView) -> Result<Seq<u64>, InterpreterError> {
    match r {
        ResourceView::VecFloat(s) => Ok(s),
        _ => Err(InterpreterError::TypeMismatch),
    }
}

/// Reading a resource as a mesh.
pub open spec fn mesh3d_of(r: ResourceView) -> Result<Seq<Pnt3d>, InterpreterError> {
    match r {
        ResourceView::Mesh3d(s) => Ok(s),
        _ => Err(InterpreterError::TypeMismatch),
    }
}

impl Resource {
    /// The unsigned integer held, or `TypeMismatch` for another variant.
    pub fn as_uint(&self) -> (r: Result<usize, InterpreterError>)
        ensures
            r == uint_of(self@),
            r is Err <==> !(self is UInt),
    {
        match self {
            Resource::UInt(u) => Ok(*u),
            _ => Err(InterpreterError::TypeMismatch),
        }
    }

    /// The float sequence held, or `TypeMismatch` for another variant.
    pub fn as_vec_float(&self) -> (r: Result<&Vec<u64>, InterpreterError>)
        ensures
            match r {
                Ok(v) => vec_float_of(self@) == Ok::<Seq<u64>, InterpreterError>(v@),
                Err(e) => vec_float_of(self@) == Err::<Seq<u64>, InterpreterError>(e),
            },
            r is Err <==> !(self is VecFloat),
    {
        match self {
            Resource::VecFloat(v) => Ok(v),
            _ => Err(InterpreterError::TypeMismatch),
        }
    }

    /// The mesh held, or `TypeMismatch` for another variant.
    pub fn as_mesh3d(&self) -> (r: Result<&Mesh3d, InterpreterError>)
        ensures
            match r {
                Ok(m) => mesh3d_of(self@) == Ok::<Seq<Pnt3d>, InterpreterError>(m@),
                Err(e) => mesh3d_of(self@) == Err::<Seq<Pnt3d>, InterpreterError>(e),
            },
            r is Err <==> !(self is Mesh3d),
    {
        match self {
            Resource::Mesh3d(m) => Ok(m),
            _ => Err(InterpreterError::TypeMismatch),
        }
    }
}

} // verus!
