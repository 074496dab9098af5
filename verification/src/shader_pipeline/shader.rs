//! Shader modules from compiled GLSL.

use crate::error::Error;
use crate::render_client::resource::{Device, Resource, ShaderModuleDescriptor, ShaderModuleId, ShaderSource};
use vstd::prelude::*;

verus! {

/// The stage that a shader is compiled for.
#[derive(Clone, Copy, Debug, PartialEq, Eq, Structural)]
pub enum ShaderKind {
    Vertex,
    Fragment,
    Compute,
}

/// How an attempt to compile a GLSL shader to SPIR-V ended.
#[derive(Debug, PartialEq, Eq)]
pub enum Compilation {
    /// No compiler could be made.
    NoCompiler,
    /// No set of compile options could be made.
    NoOptions,
    /// The compiler refused the shader, with this report.
    Failed(String),
    /// The shader's SPIR-V words.
    Binary(Vec<u32>),
}

/// The words of a compilation that succeeded, and the error of one that did not.
pub open spec fn compiled(compilation: Compilation) -> Result<Vec<u32>, Error> {
    match compilation {
        Compilation::NoCompiler => Err(Error::ShaderCompilerUnavailable),
        Compilation::NoOptions => Err(Error::ShaderOptionsUnavailable),
        Compilation::Failed(report) => Err(Error::ShaderCompilation(report)),
        Compilation::Binary(words) => Ok(words),
    }
}

/// The label of the module of the shader `shader_name` with the entry point
/// `entry_point`.
pub open spec fn module_label(shader_name: Seq<char>, entry_point: Seq<char>) -> Seq<char> {
    shader_name + "_"@ + entry_point
}

/// `resource` is a shader module with this label, made of these SPIR-V words.
pub open spec fn is_spirv_module(resource: Resource, label: Seq<char>, words: Vec<u32>) -> bool {
    &&& resource matches Resource::ShaderModule(desc)
    &&& desc.label matches Some(text)
    &&& text@ == label
    &&& desc.source == ShaderSource::SpirV(words)
}

/// The SPIR-V words of a compilation, or the reason why there are none.
pub fn compile_glsl(compilation: Compilation) -> (r: Result<Vec<u32>, Error>)
    ensures
        r == compiled(compilation),
{
    match compilation {
        Compilation::NoCompiler => Err(Error::ShaderCompilerUnavailable),
        Compilation::NoOptions => Err(Error::ShaderOptionsUnavailable),
        Compilation::Failed(report) => Err(Error::ShaderCompilation(report)),
        Compilation::Binary(words) => Ok(words),
    }
}

/// Creates the module of a compiled shader, labelled with the shader's name,
/// an underscore and the entry point. A compilation that failed creates
/// nothing and hands its error on.
pub fn create_shader_module(
    device: &mut Device,
    compilation: Compilation,
    shader_name: &str,
    entry_point: &str,
) -> (r: Result<ShaderModuleId, Error>)
    ensures
        match compiled(compilation) {
            Err(e) => r == Err::<ShaderModuleId, Error>(e) && final(device)@ == old(device)@,
            Ok(words) => {
                &&& r == Ok::<ShaderModuleId, Error>(ShaderModuleId(old(device)@.len() as usize))
                &&& final(device)@.len() == old(device)@.len() + 1
                &&& old(device)@.is_prefix_of(final(device)@)
                &&& is_spirv_module(
                    final(device)@.last(),
                    module_label(shader_name@, entry_point@),
                    words,
                )
            },
        },
{
    let words = match compile_glsl(compilation) {
        Ok(words) => words,
        Err(e) => {
            return Err(e);
        },
    };
    let mut label = String::from_str(shader_name);
    label.append("_");
    label.append(entry_point);
    let id = device.create_shader_module(
        ShaderModuleDescriptor { label: Some(label), source: ShaderSource::SpirV(words) },
    );
    Ok(id)
}

} // verus!
