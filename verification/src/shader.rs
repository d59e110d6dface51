//! Compiled shader programs.

use vstd::prelude::*;
use vstd::slice::slice_to_vec;

verus! {

/// One compiled shader stage: the handle under which the backend keeps it
/// and the bytecode it was made from.
#[derive(Debug)]
pub struct ShaderModule {
    id: usize,
    code: Vec<u8>,
}

impl View for ShaderModule {
    type V = Seq<u8>;

    closed spec fn view(&self) -> Seq<u8> {
        self.code@
    }
}

impl ShaderModule {
    /// The handle under which the backend keeps the module.
    pub closed spec fn handle(self) -> usize {
        self.id
    }

    /// A module under handle `id` that holds a copy of `code`.
    pub fn new(id: usize, code: &[u8]) -> (module: ShaderModule)
        ensures
            module.handle() == id,
            module@ == code@,
    {
        ShaderModule { id, code: slice_to_vec(code) }
    }

    pub fn id(&self) -> (id: usize)
        ensures
            id == self.handle(),
    {
        self.id
    }

    /// The bytecode of the stage.
    pub fn code(&self) -> (code: &[u8])
        ensures
            code@ == self@,
    {
        self.code.as_slice()
    }
}

/// A vertex stage and, where there is one, a fragment stage.
#[derive(Debug)]
pub struct Shader {
    pub vert: ShaderModule,
    pub frag: Option<ShaderModule>,
}

impl Shader {
    pub fn new(vert: ShaderModule, frag: Option<ShaderModule>) -> (shader: Shader)
        ensures
            shader.vert == vert,
            shader.frag == frag,
    {
        Shader { vert, frag }
    }
}

} // verus!
