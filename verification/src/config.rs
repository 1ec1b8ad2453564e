use vstd::prelude::*;

verus! {

/// Window-size configuration applied to the slave at allocation time:
/// rows, columns and optional pixel dimensions.
#[derive(Clone, Copy, Debug, PartialEq, Eq, Structural)]
pub struct Winsize {
    pub rows: u16,
    pub cols: u16,
    pub xpixel: u16,
    pub ypixel: u16,
}

/// Terminal-mode (termios) configuration applied to the slave at allocation
/// time: the four flag words, the line discipline, the control characters
/// and the two baud-rate classes.
#[derive(Debug, PartialEq, Eq)]
pub struct TermiosConfig {
    pub input_flags: u32,
    pub output_flags: u32,
    pub control_flags: u32,
    pub local_flags: u32,
    pub line_discipline: u8,
    pub control_chars: Vec<u8>,
    pub input_speed: u32,
    pub output_speed: u32,
}

/// Mathematical image of a `TermiosConfig`.
pub struct TermiosModel {
    pub input_flags: u32,
    pub output_flags: u32,
    pub control_flags: u32,
    pub local_flags: u32,
    pub line_discipline: u8,
    pub control_chars: Seq<u8>,
    pub input_speed: u32,
    pub output_speed: u32,
}

impl View for TermiosConfig {
    type V = TermiosModel;

    open spec fn view(&self) -> TermiosModel {
        TermiosModel {
            input_flags: self.input_flags,
            output_flags: self.output_flags,
            control_flags: self.control_flags,
            local_flags: self.local_flags,
            line_discipline: self.line_discipline,
            control_chars: self.control_chars@,
            input_speed: self.input_speed,
            output_speed: self.output_speed,
        }
    }
}

/// The caller's allocation request: three independently meaningful,
/// independently optional inputs.
#[derive(Debug)]
pub struct AllocRequest {
    /// Terminal modes to apply to the slave once it is open, if any.
    pub termios: Option<TermiosConfig>,
    /// Window size to apply to the slave once it is open, if any.
    pub winsize: Option<Winsize>,
    /// Path to open the slave from, in place of the conventional
    /// devpts path derived from the slave number.
    pub path_override: Option<String>,
}

/// Mathematical image of an `AllocRequest`.
pub struct RequestModel {
    pub termios: Option<TermiosModel>,
    pub winsize: Option<Winsize>,
    pub path_override: Option<Seq<char>>,
}

impl View for AllocRequest {
    type V = RequestModel;

    open spec fn view(&self) -> RequestModel {
        RequestModel {
            termios: match self.termios {
                Some(t) => Some(t@),
                None => None,
            },
            winsize: self.winsize,
            path_override: match self.path_override {
                Some(p) => Some(p@),
                None => None,
            },
        }
    }
}

impl AllocRequest {
    /// A request with all three inputs absent.
    pub fn empty() -> (r: AllocRequest)
        ensures
            r@.termios is None,
            r@.winsize is None,
            r@.path_override is None,
    {
        AllocRequest { termios: None, winsize: None, path_override: None }
    }
}

/// One typed error per failing protocol step; each carries the OS error
/// number the kernel reported for that step.
#[derive(Clone, Copy, Debug, PartialEq, Eq, Structural)]
pub enum AllocError {
    /// Opening the pseudo-terminal multiplexer device failed.
    MultiplexerOpenFailed(i32),
    /// The unlock control operation on the master failed.
    UnlockFailed(i32),
    /// Reading back the slave number from the master failed.
    NumberRetrievalFailed(i32),
    /// Opening the slave device node failed.
    SlaveOpenFailed(i32),
    /// Applying the terminal-mode configuration to the slave failed.
    TerminalConfigurationFailed(i32),
    /// Applying the window-size configuration to the slave failed.
    WindowSizeConfigurationFailed(i32),
}

impl AllocError {
    /// The OS error number carried by any of the variants.
    pub fn errno(&self) -> (e: i32)
        ensures
            e == self.spec_errno(),
    {
        match self {
            AllocError::MultiplexerOpenFailed(e) => *e,
            AllocError::UnlockFailed(e) => *e,
            AllocError::NumberRetrievalFailed(e) => *e,
            AllocError::SlaveOpenFailed(e) => *e,
            AllocError::TerminalConfigurationFailed(e) => *e,
            AllocError::WindowSizeConfigurationFailed(e) => *e,
        }
    }

    /// The OS error number carried by any of the variants.
    pub open spec fn spec_errno(&self) -> i32 {
        match self {
            AllocError::MultiplexerOpenFailed(e) => *e,
            AllocError::UnlockFailed(e) => *e,
            AllocError::NumberRetrievalFailed(e) => *e,
            AllocError::SlaveOpenFailed(e) => *e,
            AllocError::TerminalConfigurationFailed(e) => *e,
            AllocError::WindowSizeConfigurationFailed(e) => *e,
        }
    }
}

} // verus!
