//! Errors of a render run and the text that reports them.

use vstd::prelude::*;

verus! {

/// The two programmable stages that a render program is built from.
#[derive(Clone, Copy, Debug, PartialEq, Eq, Structural)]
pub enum ShaderStage {
    Vertex,
    Fragment,
}

/// The two uniforms that every fragment shader must declare.
#[derive(Clone, Copy, Debug, PartialEq, Eq, Structural)]
pub enum UniformSlot {
    /// Simulated time in seconds, named `iTime` in the shader.
    Time,
    /// Output resolution in pixels, named `iResolution` in the shader.
    Resolution,
}

/// Why a run could not be set up.
#[derive(Debug)]
pub enum SetupFault {
    ZeroWidth,
    ZeroHeight,
    /// A side is larger than the graphics API's signed sizes can hold.
    DimensionTooLarge,
    /// One frame's bytes do not fit in the address space.
    FrameTooLarge,
    /// The graphics context could not be created or its functions loaded.
    Context { detail: String },
}

/// Why a finished frame could not be handed on.
#[derive(Debug)]
pub enum OutputFault {
    /// The sink took fewer bytes than one frame holds.
    ShortWrite { written: usize, expected: usize },
    /// The sink reported an error.
    Stream { detail: String },
}

/// Every way a render run can fail. All of them end the run.
#[derive(Debug)]
pub enum RenderError {
    Setup(SetupFault),
    /// A shader stage did not compile; `log` is the compiler's diagnostic.
    Compile { stage: ShaderStage, log: String },
    /// The program did not link; `log` is the linker's diagnostic.
    Link { log: String },
    /// The linked program has no uniform of the required name.
    UniformNotFound { slot: UniformSlot },
    /// The offscreen framebuffer is not renderable; `status` is the driver's code.
    IncompleteTarget { status: u32 },
    /// A graphics call reported an error code.
    GraphicsCall { operation: String, code: u32 },
    Output(OutputFault),
    /// A host reported an outcome for a step that was not pending, or closed
    /// the run before its end.
    OutOfSequence,
}

pub open spec fn stage_text(stage: ShaderStage) -> Seq<char> {
    match stage {
        ShaderStage::Vertex => "vertex"@,
        ShaderStage::Fragment => "fragment"@,
    }
}

/// The name under which a shader declares the uniform of `slot`.
pub open spec fn uniform_text(slot: UniformSlot) -> Seq<char> {
    match slot {
        UniformSlot::Time => "iTime"@,
        UniformSlot::Resolution => "iResolution"@,
    }
}

pub fn stage_name(stage: ShaderStage) -> (r: &'static str)
    ensures
        r@ == stage_text(stage),
{
    match stage {
        ShaderStage::Vertex => "vertex",
        ShaderStage::Fragment => "fragment",
    }
}

/// The name under which a shader declares the uniform of `slot`.
pub fn uniform_name(slot: UniformSlot) -> (r: &'static str)
    ensures
        r@ == uniform_text(slot),
{
    match slot {
        UniformSlot::Time => "iTime",
        UniformSlot::Resolution => "iResolution",
    }
}

pub open spec fn digit_text(d: nat) -> Seq<char> {
    if d == 0 {
        "0"@
    } else if d == 1 {
        "1"@
    } else if d == 2 {
        "2"@
    } else if d == 3 {
        "3"@
    } else if d == 4 {
        "4"@
    } else if d == 5 {
        "5"@
    } else if d == 6 {
        "6"@
    } else if d == 7 {
        "7"@
    } else if d == 8 {
        "8"@
    } else {
        "9"@
    }
}

/// The decimal digits of `n`, most significant first, without leading zeros.
pub open spec fn decimal_text(n: nat) -> Seq<char>
    decreases n,
{
    if n < 10 {
        digit_text(n)
    } else {
        decimal_text(n / 10) + digit_text(n % 10)
    }
}

fn digit(d: u64) -> (r: &'static str)
    requires
        d < 10,
    ensures
        r@ == digit_text(d as nat),
{
    if d == 0 {
        "0"
    } else if d == 1 {
        "1"
    } else if d == 2 {
        "2"
    } else if d == 3 {
        "3"
    } else if d == 4 {
        "4"
    } else if d == 5 {
        "5"
    } else if d == 6 {
        "6"
    } else if d == 7 {
        "7"
    } else if d == 8 {
        "8"
    } else {
        "9"
    }
}

/// `n` written in decimal.
pub fn decimal(n: u64) -> (r: String)
    ensures
        r@ == decimal_text(n as nat),
    decreases n,
{
    if n < 10 {
        String::from_str(digit(n))
    } else {
        let mut s = decimal(n / 10);
        s.append(digit(n % 10));
        s
    }
}

impl SetupFault {
    pub open spec fn text(&self) -> Seq<char> {
        match self {
            SetupFault::ZeroWidth => "Invalid width: it must be a positive number of pixels"@,
            SetupFault::ZeroHeight => "Invalid height: it must be a positive number of pixels"@,
            SetupFault::DimensionTooLarge => "Invalid resolution: each side must be at most 2147483647 pixels"@,
            SetupFault::FrameTooLarge => "Invalid resolution: one frame does not fit in memory"@,
            SetupFault::Context { detail } => "Could not set up the graphics context: "@ + detail@,
        }
    }

    pub fn message(&self) -> (r: String)
        ensures
            r@ == self.text(),
    {
        match self {
            SetupFault::ZeroWidth => String::from_str(
                "Invalid width: it must be a positive number of pixels",
            ),
            SetupFault::ZeroHeight => String::from_str(
                "Invalid height: it must be a positive number of pixels",
            ),
            SetupFault::DimensionTooLarge => String::from_str(
                "Invalid resolution: each side must be at most 2147483647 pixels",
            ),
            SetupFault::FrameTooLarge => String::from_str(
                "Invalid resolution: one frame does not fit in memory",
            ),
            SetupFault::Context { detail } => {
                let mut s = String::from_str("Could not set up the graphics context: ");
                s.append(detail.as_str());
                s
            },
        }
    }
}

impl OutputFault {
    pub open spec fn text(&self) -> Seq<char> {
        match self {
            OutputFault::ShortWrite { written, expected } => "Output accepted "@ + decimal_text(
                *written as nat,
            ) + " of the "@ + decimal_text(*expected as nat) + " bytes of a frame"@,
            OutputFault::Stream { detail } => "Failed to write a frame: "@ + detail@,
        }
    }

    pub fn message(&self) -> (r: String)
        ensures
            r@ == self.text(),
    {
        match self {
            OutputFault::ShortWrite { written, expected } => {
                let mut s = String::from_str("Output accepted ");
                let w = decimal(*written as u64);
                s.append(w.as_str());
                s.append(" of the ");
                let e = decimal(*expected as u64);
                s.append(e.as_str());
                s.append(" bytes of a frame");
                s
            },
            OutputFault::Stream { detail } => {
                let mut s = String::from_str("Failed to write a frame: ");
                s.append(detail.as_str());
                s
            },
        }
    }
}

impl RenderError {
    /// The text that reports this error to a user.
    pub open spec fn text(&self) -> Seq<char> {
        match self {
            RenderError::Setup(fault) => fault.text(),
            RenderError::Compile { stage, log } => "Shader compilation failed ("@ + stage_text(
                *stage,
            ) + " stage): "@ + log@ + ". Check the shader source code for errors."@,
            RenderError::Link { log } => "Program linking failed: "@ + log@
                + ". Verify that all shaders are correctly attached and compiled."@,
            RenderError::UniformNotFound { slot } => "Failed to get uniform location for "@
                + uniform_text(*slot) + ". Ensure the uniform variable is declared in the shader."@,
            RenderError::IncompleteTarget { status } => "Framebuffer is not complete (status "@
                + decimal_text(*status as nat) + "). Check the framebuffer attachments."@,
            RenderError::GraphicsCall { operation, code } => "OpenGL error code "@ + decimal_text(
                *code as nat,
            ) + " at \""@ + operation@ + "\""@,
            RenderError::Output(fault) => fault.text(),
            RenderError::OutOfSequence => "Render steps were reported out of sequence"@,
        }
    }

    pub fn message(&self) -> (r: String)
        ensures
            r@ == self.text(),
    {
        match self {
            RenderError::Setup(fault) => fault.message(),
            RenderError::Compile { stage, log } => {
                let mut s = String::from_str("Shader compilation failed (");
                s.append(stage_name(*stage));
                s.append(" stage): ");
                s.append(log.as_str());
                s.append(". Check the shader source code for errors.");
                s
            },
            RenderError::Link { log } => {
                let mut s = String::from_str("Program linking failed: ");
                s.append(log.as_str());
                s.append(". Verify that all shaders are correctly attached and compiled.");
                s
            },
            RenderError::UniformNotFound { slot } => {
                let mut s = String::from_str("Failed to get uniform location for ");
                s.append(uniform_name(*slot));
                s.append(". Ensure the uniform variable is declared in the shader.");
                s
            },
            RenderError::IncompleteTarget { status } => {
                let mut s = String::from_str("Framebuffer is not complete (status ");
                let d = decimal(*status as u64);
                s.append(d.as_str());
                s.append("). Check the framebuffer attachments.");
                s
            },
            RenderError::GraphicsCall { operation, code } => {
                let mut s = String::from_str("OpenGL error code ");
                let d = decimal(*code as u64);
                s.append(d.as_str());
                s.append(" at \"");
                s.append(operation.as_str());
                s.append("\"");
                s
            },
            RenderError::Output(fault) => fault.message(),
            RenderError::OutOfSequence => String::from_str(
                "Render steps were reported out of sequence",
            ),
        }
    }
}

} // verus!
