//! Operating systems and CPU architectures, the names that each goes by, and
//! how the host's architecture is read off the output of system commands.

use vstd::prelude::*;
use crate::error::{plain_result, ConfigError, ConfigErrorView};
use crate::text::{
    ascii_lowercase, contains_text, has_substring, key_names, str_contains, to_ascii_lowercase,
};

verus! {

pub const ARCH_X86: &'static str = "x86";

pub const ARCH_AMD64: &'static str = "amd64";

pub const ARCH_ARM64: &'static str = "arm64";

/// The operating systems that the manager knows.
#[allow(clippy::upper_case_acronyms)]
#[derive(Hash, Eq, PartialEq, Debug, Structural)]
pub enum OS {
    WINDOWS,
    MACOS,
    LINUX,
}

impl OS {
    /// The names that the operating system goes by, in lower case.
    pub open spec fn names(self) -> Seq<Seq<char>> {
        match self {
            OS::WINDOWS => seq!["windows"@, "win"@],
            OS::MACOS => seq!["macos"@, "mac"@],
            OS::LINUX => seq!["linux"@, "gnu/linux"@],
        }
    }

    /// Whether a text names the operating system, in whatever case its ASCII
    /// letters are written.
    pub open spec fn recognizes(self, text: Seq<char>) -> bool {
        self.names().contains(ascii_lowercase(text))
    }

    /// The names that the operating system goes by.
    pub fn to_str_vector(&self) -> (names: Vec<&'static str>)
        ensures
            key_names(names@) == self.names(),
    {
        let names = match self {
            OS::WINDOWS => vec!["windows", "win"],
            OS::MACOS => vec!["macos", "mac"],
            OS::LINUX => vec!["linux", "gnu/linux"],
        };
        proof {
            assert(key_names(names@) =~= self.names());
        }
        names
    }

    /// Whether `os` names this operating system.
    pub fn is(&self, os: &str) -> (matches: bool)
        ensures
            matches == self.recognizes(os@),
    {
        let lower = to_ascii_lowercase(os);
        contains_text(&self.to_str_vector(), lower.as_str())
    }
}

/// The operating system that a text names: the first, in the order WINDOWS,
/// MACOS, LINUX, that recognizes it.
pub open spec fn named_os(text: Seq<char>) -> Result<OS, ConfigErrorView> {
    if OS::WINDOWS.recognizes(text) {
        Ok(OS::WINDOWS)
    } else if OS::MACOS.recognizes(text) {
        Ok(OS::MACOS)
    } else if OS::LINUX.recognizes(text) {
        Ok(OS::LINUX)
    } else {
        Err(ConfigErrorView::InvalidOperatingSystem(text))
    }
}

/// Reads the name of an operating system.
pub fn str_to_os(os: &str) -> (parsed: Result<OS, ConfigError>)
    ensures
        plain_result(parsed) == named_os(os@),
{
    if OS::WINDOWS.is(os) {
        Ok(OS::WINDOWS)
    } else if OS::MACOS.is(os) {
        Ok(OS::MACOS)
    } else if OS::LINUX.is(os) {
        Ok(OS::LINUX)
    } else {
        Err(ConfigError::InvalidOperatingSystem(os.to_owned()))
    }
}

/// The CPU architectures that the manager knows.
#[allow(clippy::upper_case_acronyms)]
pub enum ARCH {
    X32,
    X64,
    ARM64,
}

impl ARCH {
    /// The names that the architecture goes by, in lower case.
    pub open spec fn names(self) -> Seq<Seq<char>> {
        match self {
            ARCH::X32 => seq![ARCH_X86@, "i386"@, "x32"@],
            ARCH::X64 => seq![ARCH_AMD64@, "x86_64"@, "x64"@, "i686"@, "ia64"@],
            ARCH::ARM64 => seq![ARCH_ARM64@, "aarch64"@, "arm"@, "arm64"@],
        }
    }

    /// Whether a text names the architecture, in whatever case its ASCII
    /// letters are written.
    pub open spec fn recognizes(self, text: Seq<char>) -> bool {
        self.names().contains(ascii_lowercase(text))
    }

    /// The names that the architecture goes by.
    pub fn to_str_vector(&self) -> (names: Vec<&'static str>)
        ensures
            key_names(names@) == self.names(),
    {
        let names = match self {
            ARCH::X32 => vec![ARCH_X86, "i386", "x32"],
            ARCH::X64 => vec![ARCH_AMD64, "x86_64", "x64", "i686", "ia64"],
            ARCH::ARM64 => vec![ARCH_ARM64, "aarch64", "arm", "arm64"],
        };
        proof {
            assert(key_names(names@) =~= self.names());
        }
        names
    }

    /// Whether `arch` names this architecture.
    pub fn is(&self, arch: &str) -> (matches: bool)
        ensures
            matches == self.recognizes(arch@),
    {
        let lower = to_ascii_lowercase(arch);
        contains_text(&self.to_str_vector(), lower.as_str())
    }
}

/// The command that reports the architecture on a Windows host.
pub const WMIC_COMMAND_OS: &'static str = "wmic os get osarchitecture";

/// The command that reports everything about a host of another kind.
pub const UNAME_ALL_COMMAND: &'static str = "uname -a";

/// The command that reports the machine's hardware name.
pub const UNAME_MACHINE_COMMAND: &'static str = "uname -m";

/// A question put to the host's shell while its architecture is detected.
#[derive(Clone, Copy, PartialEq, Eq, Debug, Structural)]
pub enum ArchProbe {
    WmicOs,
    UnameAll,
    UnameMachine,
}

/// Where the detection stands after an answer: another question, or the
/// architecture.
#[derive(Debug, PartialEq, Eq)]
pub enum ArchStep {
    Run(ArchProbe),
    Detected(String),
}

/// A step of the detection over plain sequences of characters.
pub enum ArchStepView {
    Run(ArchProbe),
    Detected(Seq<char>),
}

impl View for ArchStep {
    type V = ArchStepView;

    open spec fn view(&self) -> ArchStepView {
        match self {
            ArchStep::Run(probe) => ArchStepView::Run(*probe),
            ArchStep::Detected(arch) => ArchStepView::Detected(arch@),
        }
    }
}

/// The architecture read off the answer of a Windows host: `32` anywhere in
/// it means x86, else `ARM` anywhere in it means arm64, else it is amd64.
pub open spec fn windows_arch(output: Seq<char>) -> Seq<char> {
    if has_substring(output, "32"@) {
        ARCH_X86@
    } else if has_substring(output, "ARM"@) {
        ARCH_ARM64@
    } else {
        ARCH_AMD64@
    }
}

/// The question that the detection starts with on a host whose operating
/// system is named `os`.
pub open spec fn first_probe(os: Seq<char>) -> ArchProbe {
    if OS::WINDOWS.recognizes(os) {
        ArchProbe::WmicOs
    } else {
        ArchProbe::UnameAll
    }
}

/// The step that follows the answer `output` to `probe`. An answer to
/// `uname -a` that holds `arm64`, in any case, settles it; else the answer
/// to `uname -m` is the architecture as it stands.
pub open spec fn next_step(probe: ArchProbe, output: Seq<char>) -> ArchStepView {
    match probe {
        ArchProbe::WmicOs => ArchStepView::Detected(windows_arch(output)),
        ArchProbe::UnameAll => if has_substring(ascii_lowercase(output), ARCH_ARM64@) {
            ArchStepView::Detected(ARCH_ARM64@)
        } else {
            ArchStepView::Run(ArchProbe::UnameMachine)
        },
        ArchProbe::UnameMachine => ArchStepView::Detected(output),
    }
}

/// The architecture of a host, given what each command would answer there.
pub open spec fn host_arch(
    os: Seq<char>,
    wmic_output: Seq<char>,
    uname_all_output: Seq<char>,
    uname_machine_output: Seq<char>,
) -> Seq<char> {
    if OS::WINDOWS.recognizes(os) {
        windows_arch(wmic_output)
    } else if has_substring(ascii_lowercase(uname_all_output), ARCH_ARM64@) {
        ARCH_ARM64@
    } else {
        uname_machine_output
    }
}

impl ArchProbe {
    /// The command line of the question.
    pub open spec fn command_line(self) -> Seq<char> {
        match self {
            ArchProbe::WmicOs => WMIC_COMMAND_OS@,
            ArchProbe::UnameAll => UNAME_ALL_COMMAND@,
            ArchProbe::UnameMachine => UNAME_MACHINE_COMMAND@,
        }
    }

    /// The command line to hand to the shell.
    pub fn command(&self) -> (line: &'static str)
        ensures
            line@ == self.command_line(),
    {
        match self {
            ArchProbe::WmicOs => WMIC_COMMAND_OS,
            ArchProbe::UnameAll => UNAME_ALL_COMMAND,
            ArchProbe::UnameMachine => UNAME_MACHINE_COMMAND,
        }
    }
}

/// Chooses the first question for a host whose operating system is named `os`.
pub fn first_arch_probe(os: &str) -> (probe: ArchProbe)
    ensures
        probe == first_probe(os@),
{
    if OS::WINDOWS.is(os) {
        ArchProbe::WmicOs
    } else {
        ArchProbe::UnameAll
    }
}

/// Takes the answer to a question, the empty text standing for a command
/// that failed, and says how the detection goes on.
pub fn next_arch_step(probe: ArchProbe, output: &str) -> (step: ArchStep)
    ensures
        step@ == next_step(probe, output@),
{
    match probe {
        ArchProbe::WmicOs => {
            if str_contains(output, "32") {
                ArchStep::Detected(ARCH_X86.to_owned())
            } else if str_contains(output, "ARM") {
                ArchStep::Detected(ARCH_ARM64.to_owned())
            } else {
                ArchStep::Detected(ARCH_AMD64.to_owned())
            }
        },
        ArchProbe::UnameAll => {
            if str_contains(to_ascii_lowercase(output).as_str(), ARCH_ARM64) {
                ArchStep::Detected(ARCH_ARM64.to_owned())
            } else {
                ArchStep::Run(ArchProbe::UnameMachine)
            }
        },
        ArchProbe::UnameMachine => ArchStep::Detected(output.to_owned()),
    }
}

/// The detection always arrives at the host's architecture: the first
/// question's answer settles it, or leads to one more question whose answer
/// does.
pub proof fn lemma_detection_reaches_host_arch(
    os: Seq<char>,
    wmic_output: Seq<char>,
    uname_all_output: Seq<char>,
    uname_machine_output: Seq<char>,
)
    ensures
        ({
            let arch = host_arch(os, wmic_output, uname_all_output, uname_machine_output);
            let answer = |probe: ArchProbe|
                match probe {
                    ArchProbe::WmicOs => wmic_output,
                    ArchProbe::UnameAll => uname_all_output,
                    ArchProbe::UnameMachine => uname_machine_output,
                };
            let first = first_probe(os);
            match next_step(first, answer(first)) {
                ArchStepView::Detected(found) => found == arch,
                ArchStepView::Run(second) => next_step(second, answer(second))
                    == ArchStepView::Detected(arch),
            }
        }),
{
}

} // verus!
