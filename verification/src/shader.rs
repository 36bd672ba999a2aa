//! Shaders: which form a shader file has, and what becomes of a shader
//! once the graphics API has tried to compile it.

use vstd::prelude::*;
use vstd::string::*;
use crate::commands::Command;

verus! {

/// The pipeline stage a shader runs in.
#[derive(Clone, Copy, Debug, PartialEq, Eq)]
pub enum ShaderType {
    VertexShader,
    FragmentShader,
}

/// The form in which a shader file holds its shader.
#[derive(Clone, Copy, Debug, PartialEq, Eq)]
pub enum ShaderFormat {
    /// A compiled binary, to be specialized.
    Binary,
    /// Source text, to be compiled.
    Source,
}

/// What came of reading and compiling a shader file.
#[derive(Debug)]
pub enum CompileOutcome {
    /// The file could not be read.
    Unreadable,
    /// The graphics API rejected the shader; its log says why.
    Failed(String),
    /// The shader is ready for linking.
    Compiled,
}

/// The graphics API's code for a shader type.
pub open spec fn shader_type_code(shader_type: ShaderType) -> u32 {
    match shader_type {
        ShaderType::VertexShader => 0x8B31,
        ShaderType::FragmentShader => 0x8B30,
    }
}

/// Whether `extension` is `spv` in any mix of upper and lower case.
pub open spec fn is_spirv_extension(extension: Seq<char>) -> bool {
    &&& extension.len() == 3
    &&& (extension[0] == 's' || extension[0] == 'S')
    &&& (extension[1] == 'p' || extension[1] == 'P')
    &&& (extension[2] == 'v' || extension[2] == 'V')
}

/// The text `prefix` followed by `name`, by `format!`.
#[verifier::external_body]
pub(crate) fn message_with_name(prefix: &str, name: &str) -> (message: String)
    ensures
        message@ == prefix@ + name@,
{
    format!("{}{}", prefix, name)
}

/// The form that the extension `extension` stands for: `spv` in any case
/// is a binary, all else is source text.
pub open spec fn format_for(extension: Seq<char>) -> ShaderFormat {
    if is_spirv_extension(extension) {
        ShaderFormat::Binary
    } else {
        ShaderFormat::Source
    }
}

/// Whether `extension` can be the extension of a file that `name` names:
/// it holds no dot, and it stands in `name` right after a dot that is not
/// the first character of `name`.
pub open spec fn names_extension(name: Seq<char>, extension: Seq<char>) -> bool {
    &&& !extension.contains('.')
    &&& exists|dot: int|
        1 <= dot && dot + 1 + extension.len() <= name.len() && #[trigger] name[dot] == '.'
            && name.subrange(dot + 1, dot + 1 + extension.len()) == extension
}

/// Whether `name` holds a dot after its first character.
pub open spec fn has_inner_dot(name: Seq<char>) -> bool {
    exists|dot: int| 1 <= dot < name.len() && #[trigger] name[dot] == '.'
}

/// The extension of the file that `filename` names, by
/// `std::path::Path::extension`, as text. The contract claims what the
/// documentation of that function gives whatever the platform takes for
/// the parts of a path: an extension is the portion of the file name
/// after its final dot, so it holds no dot and stands in `filename` right
/// after one; and a file name that only begins with a dot has none, so
/// that dot is not the first character. Where the file name begins and
/// ends is the platform's affair, and nothing is claimed of it.
#[verifier::external_body]
pub(crate) fn file_extension(filename: &str) -> (extension: Option<String>)
    ensures
        extension is Some ==> names_extension(filename@, extension->Some_0@),
{
    std::path::Path::new(filename).extension().and_then(|e| e.to_str()).map(|e| e.to_string())
}

/// A compiled shader.
#[derive(Debug)]
pub struct Shader {
    id: u32,
    _shader_type: ShaderType,
    _filename: String,
}

impl Shader {
    /// The native handle; 0 once released.
    pub closed spec fn handle(&self) -> u32 {
        self.id
    }

    pub closed spec fn kind(&self) -> ShaderType {
        self._shader_type
    }

    /// The name of the file the shader was loaded from.
    pub closed spec fn filename(&self) -> Seq<char> {
        self._filename@
    }

    /// The code of `shader_type` in the graphics API.
    pub fn map_shader_type(shader_type: ShaderType) -> (code: u32)
        ensures
            code == shader_type_code(shader_type),
    {
        match shader_type {
            ShaderType::VertexShader => 0x8B31,
            ShaderType::FragmentShader => 0x8B30,
        }
    }

    /// The form of the shader in a file with the given extension: a file
    /// without extension is refused, `spv` in any case is a binary, all
    /// else is source text.
    pub fn format_of(filename: &str, extension: Option<&str>) -> (result: Result<
        ShaderFormat,
        String,
    >)
        ensures
            extension is None ==> result is Err && result->Err_0@
                == "failed to access shader file "@ + filename@,
            extension is Some ==> result == Ok::<ShaderFormat, String>(
                format_for(extension->Some_0@),
            ),
    {
        match extension {
            None => Err(message_with_name("failed to access shader file ", filename)),
            Some(extension) => {
                if extension.unicode_len() != 3 {
                    return Ok(ShaderFormat::Source);
                }
                let c0 = extension.get_char(0);
                let c1 = extension.get_char(1);
                let c2 = extension.get_char(2);
                if (c0 == 's' || c0 == 'S') && (c1 == 'p' || c1 == 'P') && (c2 == 'v' || c2
                    == 'V') {
                    Ok(ShaderFormat::Binary)
                } else {
                    Ok(ShaderFormat::Source)
                }
            },
        }
    }

    /// The form of the shader in the file `filename`, by its extension.
    ///
    /// A name without a dot after its first character names no extension
    /// and is refused, as is every name whose file has none. Where the
    /// answer is a form, it is the form of an extension that stands in
    /// `filename` after a dot: a binary only where `.spv`, in any case,
    /// stands there.
    pub fn format(filename: &str) -> (result: Result<ShaderFormat, String>)
        ensures
            !has_inner_dot(filename@) ==> result is Err,
            result is Err ==> result->Err_0@ == "failed to access shader file "@ + filename@,
            result is Ok ==> exists|extension: Seq<char>| #[trigger]
                names_extension(filename@, extension) && result->Ok_0 == format_for(extension),
    {
        match file_extension(filename) {
            None => Shader::format_of(filename, None),
            Some(extension) => {
                assert(names_extension(filename@, extension@));
                Shader::format_of(filename, Some(extension.as_str()))
            },
        }
    }

    /// The shader with native handle `id`, once the graphics API has
    /// tried to compile the file `filename` into it. A shader that could
    /// not be read or compiled is released and the reason reported: for an
    /// unreadable file its name, for a failed compilation the API's log.
    pub fn new(
        queue: &mut Vec<Command>,
        shader_type: ShaderType,
        filename: &str,
        id: u32,
        outcome: CompileOutcome,
    ) -> (result: Result<Shader, String>)
        ensures
            result is Ok <==> outcome is Compiled,
            result is Ok ==> {
                let shader = result->Ok_0;
                &&& shader.handle() == id
                &&& shader.kind() == shader_type
                &&& shader.filename() == filename@
                &&& final(queue)@ == old(queue)@
            },
            result is Err ==> final(queue)@ == old(queue)@.push(Command::DeleteShader { id }),
            outcome is Unreadable ==> result is Err && result->Err_0@
                == "failed to read shader file "@ + filename@,
            outcome is Failed ==> result is Err && result->Err_0@ == outcome->Failed_0@,
    {
        match outcome {
            CompileOutcome::Unreadable => {
                queue.push(Command::DeleteShader { id });
                Err(message_with_name("failed to read shader file ", filename))
            },
            CompileOutcome::Failed(log) => {
                queue.push(Command::DeleteShader { id });
                Err(log)
            },
            CompileOutcome::Compiled => Ok(
                Shader { id, _shader_type: shader_type, _filename: filename.to_string() },
            ),
        }
    }

    pub fn shader_type(&self) -> (shader_type: ShaderType)
        ensures
            shader_type == self.kind(),
    {
        self._shader_type
    }

    pub fn id(&self) -> (id: u32)
        ensures
            id == self.handle(),
    {
        self.id
    }

    /// Releases the native handle; a no-op on a shader already released.
    pub fn free(&mut self, queue: &mut Vec<Command>)
        ensures
            final(self).handle() == 0,
            final(self).kind() == old(self).kind(),
            final(self).filename() == old(self).filename(),
            old(self).handle() != 0 ==> final(queue)@ == old(queue)@.push(
                Command::DeleteShader { id: old(self).handle() },
            ),
            old(self).handle() == 0 ==> final(queue)@ == old(queue)@,
    {
        if self.id != 0 {
            queue.push(Command::DeleteShader { id: self.id });
            self.id = 0;
        }
    }
}

} // verus!
