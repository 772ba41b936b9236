use vstd::prelude::*;

verus! {

/// A platform the toolchain can compile for, named by its target triple.
#[derive(Clone, Debug)]
pub struct CompileTarget {
    pub name: String,
}

impl CompileTarget {
    /// The short name used for keying configuration and display.
    pub fn short_name(&self) -> (r: &str)
        ensures
            r@ == self.name@,
    {
        self.name.as_str()
    }

    /// The triple handed to the toolchain's target-selection argument.
    pub fn rustc_target(&self) -> (r: &str)
        ensures
            r@ == self.name@,
    {
        self.name.as_str()
    }
}

/// The platform a unit is compiled for: the host, or a named target. A named
/// target never equals host, even when the triple strings agree, because
/// flags are scoped differently.
#[derive(Clone, Debug)]
pub enum CompileKind {
    Host,
    Target(CompileTarget),
}

impl CompileKind {
    pub open spec fn is_host_spec(&self) -> bool {
        self matches CompileKind::Host
    }

    /// The short name of the platform: the host triple for host builds, the
    /// target's own triple otherwise.
    pub open spec fn short_name_spec(&self, host: Seq<char>) -> Seq<char> {
        match self {
            CompileKind::Host => host,
            CompileKind::Target(t) => t.name@,
        }
    }

    pub fn is_host(&self) -> (r: bool)
        ensures
            r == self.is_host_spec(),
    {
        match self {
            CompileKind::Host => true,
            CompileKind::Target(_) => false,
        }
    }
}

/// The kind of build target a unit belongs to.
#[derive(Clone, Copy, PartialEq, Eq, Structural, Debug)]
pub enum TargetKind {
    Lib,
    Bin,
    Test,
    Bench,
    ExampleLib,
    ExampleBin,
    CustomBuild,
}

/// What is known about the toolchain binary itself: where it lives and which
/// triple it was built for.
#[derive(Clone, Debug)]
pub struct Rustc {
    /// Path of the toolchain binary, used when rendering command lines.
    pub path: String,
    /// The host triple the toolchain reports.
    pub host: String,
}

/// A dependency's platform restriction: a plain triple name, or a `cfg(..)`
/// expression kept in its textual key form.
#[derive(Clone, Debug)]
pub enum PlatformSpec {
    Name(String),
    CfgKey(String),
}

/// The slice of a dependency declaration that platform activation reads.
#[derive(Clone, Debug)]
pub struct Dependency {
    /// The platform restriction, if the dependency has one.
    pub platform: Option<PlatformSpec>,
}

/// What came back from running one external process: its captured streams on
/// success, or a description of why it could not be run.
#[derive(Clone, Debug)]
pub enum ProcessOutcome {
    Success { stdout: String, stderr: String },
    Failure { message: String },
}

} // verus!
