use vstd::prelude::*;
use vstd::string::StringExecFns;

verus! {

/// The raw value a graphics API uses for a vertex shader.
pub const RAW_VERTEX_SHADER: u32 = 0x8B31;

/// The raw value a graphics API uses for a fragment shader.
pub const RAW_FRAGMENT_SHADER: u32 = 0x8B30;

/// The two shader kinds a program of this pipeline is linked from. Keeping
/// the kind an enum guards the backend against asking the driver for any
/// other kind: an invalid kind is rejected at the boundary, once.
#[derive(Clone, Copy, PartialEq, Eq, Structural, Debug)]
pub enum ShaderKind {
    Vertex,
    Fragment,
}

/// The shader kind a raw value stands for, if any.
pub open spec fn kind_from_raw(raw: u32) -> Option<ShaderKind> {
    if raw == RAW_VERTEX_SHADER {
        Some(ShaderKind::Vertex)
    } else if raw == RAW_FRAGMENT_SHADER {
        Some(ShaderKind::Fragment)
    } else {
        None
    }
}

/// The raw value of a shader kind.
pub open spec fn kind_to_raw(kind: ShaderKind) -> u32 {
    match kind {
        ShaderKind::Vertex => RAW_VERTEX_SHADER,
        ShaderKind::Fragment => RAW_FRAGMENT_SHADER,
    }
}

impl ShaderKind {
    /// The kind a raw graphics API value stands for; `None` for every value
    /// that is not a vertex or fragment shader.
    pub fn from_raw(raw: u32) -> (r: Option<ShaderKind>)
        ensures
            r == kind_from_raw(raw),
    {
        if raw == RAW_VERTEX_SHADER {
            Some(ShaderKind::Vertex)
        } else if raw == RAW_FRAGMENT_SHADER {
            Some(ShaderKind::Fragment)
        } else {
            None
        }
    }

    /// The raw graphics API value of this kind.
    pub fn to_raw(&self) -> (raw: u32)
        ensures
            raw == kind_to_raw(*self),
    {
        match self {
            ShaderKind::Vertex => RAW_VERTEX_SHADER,
            ShaderKind::Fragment => RAW_FRAGMENT_SHADER,
        }
    }
}

/// Law: the raw form loses nothing. Every kind comes back from its raw
/// value, and a raw value stands for at most one kind.
pub proof fn lemma_shader_kind_raw_round_trip()
    ensures
        forall|k: ShaderKind| kind_from_raw(kind_to_raw(k)) == Some(k),
        forall|r: u32, k: ShaderKind| kind_from_raw(r) == Some(k) ==> kind_to_raw(k) == r,
{
}

/// A failure of one-time renderer setup. Setup failures are fatal: the
/// renderer cannot run without its two programs, so these surface once, at
/// construction, and there is no retry.
#[derive(PartialEq, Eq, Debug)]
pub enum SetupError {
    /// The driver rejected a shader; the compiler's info log is kept.
    Compile { kind: ShaderKind, log: String },
    /// The driver rejected the linked program; the linker's info log is kept.
    Link { log: String },
}

impl SetupError {
    /// The message of this error, exactly as the renderer reports it.
    pub open spec fn message_spec(&self) -> Seq<char> {
        match self {
            SetupError::Compile { kind: ShaderKind::Vertex, log } => "Vertex shader failed to compile! "@
                + log@,
            SetupError::Compile { kind: ShaderKind::Fragment, log } => "Fragment shader failed to compile! "@
                + log@,
            SetupError::Link { log } => "Shader program failed to link! "@ + log@,
        }
    }

    /// Render the error as the one-line report shown when setup fails.
    pub fn message(&self) -> (m: String)
        ensures
            m@ == self.message_spec(),
    {
        match self {
            SetupError::Compile { kind: ShaderKind::Vertex, log } => {
                let mut m = String::from_str("Vertex shader failed to compile! ");
                m.append(log.as_str());
                m
            },
            SetupError::Compile { kind: ShaderKind::Fragment, log } => {
                let mut m = String::from_str("Fragment shader failed to compile! ");
                m.append(log.as_str());
                m
            },
            SetupError::Link { log } => {
                let mut m = String::from_str("Shader program failed to link! ");
                m.append(log.as_str());
                m
            },
        }
    }
}

/// Check a raw shader kind before anything is asked of the driver, as the
/// backend must: only vertex and fragment shaders are valid, and every other
/// value is rejected with the renderer's message for it.
pub fn validate_shader_kind(raw: u32) -> (r: Result<ShaderKind, String>)
    ensures
        kind_from_raw(raw) matches Some(k) ==> r == Ok::<ShaderKind, String>(k),
        kind_from_raw(raw) is None ==> (r matches Err(m) && m@ == "Invalid shader kind!"@),
{
    match ShaderKind::from_raw(raw) {
        Some(kind) => Ok(kind),
        None => Err(String::from_str("Invalid shader kind!")),
    }
}

/// The decision taken after the driver compiled a shader: with a true
/// success flag the shader handle is kept; otherwise the whole setup fails
/// with the compiler's info log.
pub fn compile_outcome(kind: ShaderKind, shader: u32, success: bool, log: String) -> (r: Result<
    u32,
    SetupError,
>)
    ensures
        success ==> r == Ok::<u32, SetupError>(shader),
        !success ==> r == Err::<u32, SetupError>(SetupError::Compile { kind, log }),
{
    if success {
        Ok(shader)
    } else {
        Err(SetupError::Compile { kind, log })
    }
}

/// The decision taken after the driver linked the program: with a true
/// success flag the program handle is kept; otherwise the whole setup fails
/// with the linker's info log.
pub fn link_outcome(program: u32, success: bool, log: String) -> (r: Result<u32, SetupError>)
    ensures
        success ==> r == Ok::<u32, SetupError>(program),
        !success ==> r == Err::<u32, SetupError>(SetupError::Link { log }),
{
    if success {
        Ok(program)
    } else {
        Err(SetupError::Link { log })
    }
}

} // verus!
