//! Error type of the `gccrs` abstraction

use vstd::prelude::*;

verus! {

/// `std::io::Error` is carried through untouched: nothing here looks inside it.
#[verifier::external_type_specification]
#[verifier::external_body]
pub struct ExIoError(std::io::Error);

/// `getopts::Fail` is a plain enum of option names, visible to the proofs.
#[verifier::external_type_specification]
pub struct ExFail(getopts::Fail);

/// The text that getopts renders for a failure to parse the command line.
pub open spec fn fail_text(f: getopts::Fail) -> Seq<char> {
    match f {
        getopts::Fail::ArgumentMissing(nm) => "Argument to option '"@ + nm@ + "' missing"@,
        getopts::Fail::UnrecognizedOption(nm) => "Unrecognized option: '"@ + nm@ + "'"@,
        getopts::Fail::OptionMissing(nm) => "Required option '"@ + nm@ + "' missing"@,
        getopts::Fail::OptionDuplicated(nm) => "Option '"@ + nm@ + "' given more than once"@,
        getopts::Fail::UnexpectedArgument(nm) => "Option '"@ + nm@ + "' does not take an argument"@,
    }
}

/// Relies on getopts' `Display` impl for `Fail`, reached through `to_string`:
/// one fixed sentence per variant around the option name.
#[verifier::external_body]
fn render_fail(f: &getopts::Fail) -> (r: String)
    ensures
        r@ == fail_text(*f),
{
    f.to_string()
}

/// Public enum of possible errors
#[derive(Debug)]
pub enum Error {
    /// Invalid argument given to `gccrs`
    InvalidArg(String),
    /// Invalid config line dumped when executing `gccrs -frust-dump-*`
    InvalidCfgDump,
    /// Error when compiling a program using `gccrs`
    CompileError,
    /// IO Error when executing a `gccrs` command
    CommandError(std::io::Error),
    /// Error when dealing with UTF-8 strings: the raw bytes that could not be
    /// decoded, when they were at hand
    Utf8Error(Option<Vec<u8>>),
}

/// How the top-level entry point should present a failure: as bad input from
/// the user, as a failure of the compiler itself, or as a failure of the
/// tool's own environment and plumbing.
#[derive(Debug, Clone, Copy, PartialEq, Eq, Structural)]
pub enum Category {
    /// The user gave an option that could not be parsed
    UserInput,
    /// The compiler ran and reported a failed build
    Compiler,
    /// Spawning or talking to the compiler, or reading its output, failed
    Tooling,
}

impl Error {
    /// The category that each variant falls under.
    pub open spec fn spec_category(&self) -> Category {
        match self {
            Error::InvalidArg(_) => Category::UserInput,
            Error::CompileError => Category::Compiler,
            Error::InvalidCfgDump | Error::CommandError(_) | Error::Utf8Error(_) => Category::Tooling,
        }
    }

    /// Which kind of failure this is, so that callers can report user errors,
    /// compiler failures and tooling failures differently.
    pub fn category(&self) -> (r: Category)
        ensures
            r == self.spec_category(),
    {
        match self {
            Error::InvalidArg(_) => Category::UserInput,
            Error::CompileError => Category::Compiler,
            Error::InvalidCfgDump | Error::CommandError(_) | Error::Utf8Error(_) => Category::Tooling,
        }
    }
}

/// The two errors without payload are told apart from each other and from
/// every error that carries one.
pub proof fn lemma_signals_distinct(e: Error)
    ensures
        Error::InvalidCfgDump != Error::CompileError,
        e is InvalidCfgDump ==> e == Error::InvalidCfgDump,
        e is CompileError ==> e == Error::CompileError,
        !(e is InvalidCfgDump || e is CompileError) ==> e != Error::InvalidCfgDump
            && e != Error::CompileError,
{
}

/// IO Error should be kept for better debugging
impl From<std::io::Error> for Error {
    fn from(e: std::io::Error) -> (r: Self)
        ensures
            r == Error::CommandError(e),
    {
        Error::CommandError(e)
    }
}

impl vstd::std_specs::convert::FromSpecImpl<std::io::Error> for Error {
    open spec fn obeys_from_spec() -> bool {
        true
    }

    open spec fn from_spec(e: std::io::Error) -> Error {
        Error::CommandError(e)
    }
}

/// UTF-8 errors happen when dealing with paths that are not UTF-8 encoded: the
/// raw bytes are kept so that the offending path can be reported.
impl From<Vec<u8>> for Error {
    fn from(raw: Vec<u8>) -> (r: Self)
        ensures
            r == Error::Utf8Error(Some(raw)),
    {
        Error::Utf8Error(Some(raw))
    }
}

impl vstd::std_specs::convert::FromSpecImpl<Vec<u8>> for Error {
    open spec fn obeys_from_spec() -> bool {
        true
    }

    open spec fn from_spec(raw: Vec<u8>) -> Error {
        Error::Utf8Error(Some(raw))
    }
}

/// If parsing the options using `getopts` fail, then it was because an unhandled argument
/// was given to the translation unit
impl From<getopts::Fail> for Error {
    fn from(arg_fail: getopts::Fail) -> (r: Self)
        ensures
            r matches Error::InvalidArg(msg) && msg@ == fail_text(arg_fail),
    {
        Error::InvalidArg(render_fail(&arg_fail))
    }
}

/// A `String` is not fixed by its characters in the proofs, so the conversion
/// is described by the `ensures` of `from` above instead of by this function.
impl vstd::std_specs::convert::FromSpecImpl<getopts::Fail> for Error {
    open spec fn obeys_from_spec() -> bool {
        false
    }

    open spec fn from_spec(arg_fail: getopts::Fail) -> Error {
        arbitrary()
    }
}

} // verus!
