//! What can go wrong while a scene is loaded or a pass is built.

use vstd::prelude::*;

verus! {

/// The fields that every material has to carry.
#[derive(Clone, Copy, Debug, PartialEq, Eq, Structural)]
pub enum MaterialField {
    Ambient,
    Diffuse,
    Specular,
    Shininess,
}

#[derive(Debug, PartialEq, Eq)]
pub enum Error {
    /// A material lacks a field that every material has to carry.
    MissingMaterialField(MaterialField),
    /// The faces of a mesh do not fit its indices: a face has fewer than three
    /// corners, or the faces do not use up the indices exactly.
    MalformedFaces,
    /// A mesh names a material that the material library does not hold.
    UnknownMaterial,
    /// No shader compiler could be made.
    ShaderCompilerUnavailable,
    /// No set of compile options could be made.
    ShaderOptionsUnavailable,
    /// The compiler refused the shader; the text is its report.
    ShaderCompilation(String),
}

impl Error {
    /// The message of each error.
    pub open spec fn spec_message(self) -> Seq<char> {
        match self {
            Error::MissingMaterialField(MaterialField::Ambient) => {
                "Essential material field 'ambient' missing"@
            },
            Error::MissingMaterialField(MaterialField::Diffuse) => {
                "Essential material field 'diffuse' missing"@
            },
            Error::MissingMaterialField(MaterialField::Specular) => {
                "Essential material field 'specular' missing"@
            },
            Error::MissingMaterialField(MaterialField::Shininess) => {
                "Essential material field 'shininess' missing"@
            },
            Error::MalformedFaces => "Faces of a mesh do not fit its indices"@,
            Error::UnknownMaterial => "Mesh names a material that is not in the library"@,
            Error::ShaderCompilerUnavailable => "Failed to create shaderc compiler"@,
            Error::ShaderOptionsUnavailable => "Failed to create shaderc Options"@,
            Error::ShaderCompilation(report) => report@,
        }
    }

    /// A description of the error for the user.
    pub fn message(&self) -> (text: String)
        ensures
            text@ == self.spec_message(),
    {
        match self {
            Error::MissingMaterialField(MaterialField::Ambient) => {
                String::from_str("Essential material field 'ambient' missing")
            },
            Error::MissingMaterialField(MaterialField::Diffuse) => {
                String::from_str("Essential material field 'diffuse' missing")
            },
            Error::MissingMaterialField(MaterialField::Specular) => {
                String::from_str("Essential material field 'specular' missing")
            },
            Error::MissingMaterialField(MaterialField::Shininess) => {
                String::from_str("Essential material field 'shininess' missing")
            },
            Error::MalformedFaces => String::from_str("Faces of a mesh do not fit its indices"),
            Error::UnknownMaterial => String::from_str(
                "Mesh names a material that is not in the library",
            ),
            Error::ShaderCompilerUnavailable => String::from_str(
                "Failed to create shaderc compiler",
            ),
            Error::ShaderOptionsUnavailable => String::from_str(
                "Failed to create shaderc Options",
            ),
            Error::ShaderCompilation(report) => report.clone(),
        }
    }
}

} // verus!
