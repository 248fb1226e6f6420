use vstd::prelude::*;

verus! {

/// A color of console output.
#[derive(Debug, Clone, Copy, PartialEq, Eq, Structural)]
pub enum ConsoleColor {
    Reset,
    Red,
    Green,
    Gray,
    Blue,
}

impl ConsoleColor {
    /// The native value that stands for this variant.
    pub open spec fn spec_code(self) -> i32 {
        match self {
            ConsoleColor::Reset => 0,
            ConsoleColor::Red => 1,
            ConsoleColor::Green => 2,
            ConsoleColor::Gray => 3,
            ConsoleColor::Blue => 4,
        }
    }

    /// The native value that stands for this variant.
    #[verifier::when_used_as_spec(spec_code)]
    pub fn code(self) -> (r: i32)
        ensures
            r == self.spec_code(),
    {
        match self {
            ConsoleColor::Reset => 0,
            ConsoleColor::Red => 1,
            ConsoleColor::Green => 2,
            ConsoleColor::Gray => 3,
            ConsoleColor::Blue => 4,
        }
    }
}

/// The severity of a log message.
#[derive(Debug, Clone, Copy, PartialEq, Eq, Structural)]
pub enum LogLevel {
    Trace,
    Info,
    Warning,
    Error,
    Internal,
}

impl LogLevel {
    /// The native value that stands for this variant.
    pub open spec fn spec_code(self) -> i32 {
        match self {
            LogLevel::Trace => 0,
            LogLevel::Info => 1,
            LogLevel::Warning => 2,
            LogLevel::Error => 3,
            LogLevel::Internal => 4,
        }
    }

    /// The native value that stands for this variant.
    #[verifier::when_used_as_spec(spec_code)]
    pub fn code(self) -> (r: i32)
        ensures
            r == self.spec_code(),
    {
        match self {
            LogLevel::Trace => 0,
            LogLevel::Info => 1,
            LogLevel::Warning => 2,
            LogLevel::Error => 3,
            LogLevel::Internal => 4,
        }
    }
}

} // verus!
