use vstd::prelude::*;
use vstd::string::StringExecFns;

verus! {

/// Why building platform information from a toolchain probe failed.
#[derive(Debug)]
pub enum ProbeError {
    /// The toolchain process could not be run, or reported a hard failure
    /// unrelated to crate-type support.
    Invocation { message: String },
    /// The probe output holds fewer naming lines than crate types asked for.
    MissingCrateTypeLine { detail: String },
    /// A naming line does not carry the expected delimiter between the
    /// prefix and the suffix.
    BadNamingDelimiter { detail: String },
    /// The line that should carry the toolchain install root is missing.
    MissingSysrootLine { detail: String },
    /// A predicate line that is not a well-formed name or name-value pair.
    BadCfgLine { detail: String },
}

/// The variant of a `ProbeError`, without its diagnostic text.
#[derive(Clone, Copy, PartialEq, Eq, Structural, Debug)]
pub enum ProbeErrorKind {
    Invocation,
    MissingCrateTypeLine,
    BadNamingDelimiter,
    MissingSysrootLine,
    BadCfgLine,
}

impl ProbeError {
    pub open spec fn kind_spec(&self) -> ProbeErrorKind {
        match self {
            ProbeError::Invocation { .. } => ProbeErrorKind::Invocation,
            ProbeError::MissingCrateTypeLine { .. } => ProbeErrorKind::MissingCrateTypeLine,
            ProbeError::BadNamingDelimiter { .. } => ProbeErrorKind::BadNamingDelimiter,
            ProbeError::MissingSysrootLine { .. } => ProbeErrorKind::MissingSysrootLine,
            ProbeError::BadCfgLine { .. } => ProbeErrorKind::BadCfgLine,
        }
    }

    /// The diagnostic text carried by the error.
    pub open spec fn detail_spec(&self) -> Seq<char> {
        match self {
            ProbeError::Invocation { message } => message@,
            ProbeError::MissingCrateTypeLine { detail } => detail@,
            ProbeError::BadNamingDelimiter { detail } => detail@,
            ProbeError::MissingSysrootLine { detail } => detail@,
            ProbeError::BadCfgLine { detail } => detail@,
        }
    }

    pub fn kind(&self) -> (r: ProbeErrorKind)
        ensures
            r == self.kind_spec(),
    {
        match self {
            ProbeError::Invocation { .. } => ProbeErrorKind::Invocation,
            ProbeError::MissingCrateTypeLine { .. } => ProbeErrorKind::MissingCrateTypeLine,
            ProbeError::BadNamingDelimiter { .. } => ProbeErrorKind::BadNamingDelimiter,
            ProbeError::MissingSysrootLine { .. } => ProbeErrorKind::MissingSysrootLine,
            ProbeError::BadCfgLine { .. } => ProbeErrorKind::BadCfgLine,
        }
    }

    /// The diagnostic text carried by the error.
    pub fn detail(&self) -> (r: &String)
        ensures
            r@ == self.detail_spec(),
    {
        match self {
            ProbeError::Invocation { message } => message,
            ProbeError::MissingCrateTypeLine { detail } => detail,
            ProbeError::BadNamingDelimiter { detail } => detail,
            ProbeError::MissingSysrootLine { detail } => detail,
            ProbeError::BadCfgLine { detail } => detail,
        }
    }
}

/// The diagnostic text attached to every fatal parse error: the command line
/// that was run, then each captured stream that is not empty, or a note that
/// no output was received.
pub open spec fn err_info_spec(cmd: Seq<char>, stdout: Seq<char>, stderr: Seq<char>) -> Seq<
    char,
> {
    let base = "command was: "@ + cmd + "\n"@;
    let with_out = if stdout.len() > 0 {
        base + "\n--- stdout\n"@ + stdout
    } else {
        base
    };
    let with_err = if stderr.len() > 0 {
        with_out + "\n--- stderr\n"@ + stderr
    } else {
        with_out
    };
    if stdout.len() == 0 && stderr.len() == 0 {
        with_err + "(no output received)"@
    } else {
        with_err
    }
}

/// Builds the diagnostic text for a failed parse of toolchain output.
pub fn output_err_info(cmd: &str, stdout: &str, stderr: &str) -> (r: String)
    ensures
        r@ == err_info_spec(cmd@, stdout@, stderr@),
{
    let mut r = String::from_str("command was: ");
    r.append(cmd);
    r.append("\n");
    if !stdout.is_empty() {
        r.append("\n--- stdout\n");
        r.append(stdout);
    }
    if !stderr.is_empty() {
        r.append("\n--- stderr\n");
        r.append(stderr);
    }
    if stdout.is_empty() && stderr.is_empty() {
        r.append("(no output received)");
    }
    proof {
        assert(r@ =~= err_info_spec(cmd@, stdout@, stderr@));
    }
    r
}

} // verus!
