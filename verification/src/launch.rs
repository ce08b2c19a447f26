//! The command line with which a worker is launched.
use crate::models::{JavaConfig, JavaConfigView};
use crate::text::{concat2, texts};
use vstd::prelude::*;

verus! {

/// What becomes of a standard stream of a spawned process.
#[derive(Debug, Clone, Copy, PartialEq, Eq, Structural)]
pub enum StreamMode {
    /// The stream is captured as a pipe that the spawning process holds.
    Piped,
    /// The stream leads nowhere.
    Null,
}

/// A command to spawn: the program, its arguments in order, the directory in
/// which it runs, and what becomes of its three standard streams.
#[derive(Debug, Clone, PartialEq, Eq)]
pub struct LaunchCommand {
    pub program: String,
    pub args: Vec<String>,
    pub working_dir: String,
    pub stdin: StreamMode,
    pub stdout: StreamMode,
    pub stderr: StreamMode,
}

/// The mathematical content of a [`LaunchCommand`].
pub struct LaunchCommandView {
    pub program: Seq<char>,
    pub args: Seq<Seq<char>>,
    pub working_dir: Seq<char>,
    pub stdin: StreamMode,
    pub stdout: StreamMode,
    pub stderr: StreamMode,
}

impl View for LaunchCommand {
    type V = LaunchCommandView;

    open spec fn view(&self) -> LaunchCommandView {
        LaunchCommandView {
            program: self.program@,
            args: texts(self.args@),
            working_dir: self.working_dir@,
            stdin: self.stdin,
            stdout: self.stdout,
            stderr: self.stderr,
        }
    }
}

/// The program that runs the worker: the configured executable, or `java`.
pub open spec fn launch_program(java: JavaConfigView) -> Seq<char> {
    match java.java_path {
        Some(path) => path,
        None => "java"@,
    }
}

/// The memory sizing flags: `-Xms<min>` and `-Xmx<max>`, each left out where
/// its size is empty.
pub open spec fn memory_flags(java: JavaConfigView) -> Seq<Seq<char>> {
    (if java.min_memory.len() > 0 {
        seq!["-Xms"@ + java.min_memory]
    } else {
        Seq::<Seq<char>>::empty()
    }) + (if java.max_memory.len() > 0 {
        seq!["-Xmx"@ + java.max_memory]
    } else {
        Seq::<Seq<char>>::empty()
    })
}

/// The arguments that end every launch.
pub open spec fn trailing_args() -> Seq<Seq<char>> {
    seq!["-jar"@, "server.jar"@, "nogui"@]
}

/// The arguments of a launch: memory flags, the additional arguments in their
/// order, then the fixed trailing arguments.
pub open spec fn launch_args(java: JavaConfigView) -> Seq<Seq<char>> {
    memory_flags(java) + java.additional_args + trailing_args()
}

/// The command that launches a worker configured by `java` in `working_dir`.
/// Standard input, output and error are all captured as pipes.
pub open spec fn launch_command_of(java: JavaConfigView, working_dir: Seq<char>)
    -> LaunchCommandView {
    LaunchCommandView {
        program: launch_program(java),
        args: launch_args(java),
        working_dir,
        stdin: StreamMode::Piped,
        stdout: StreamMode::Piped,
        stderr: StreamMode::Piped,
    }
}

/// Builds the command that launches a worker configured by `java` in
/// `working_dir`.
pub fn build_launch_command(java: &JavaConfig, working_dir: String) -> (cmd: LaunchCommand)
    ensures
        cmd@ == launch_command_of(java@, working_dir@),
{
    let program = match &java.java_path {
        Some(path) => path.clone(),
        None => "java".to_string(),
    };
    let mut args: Vec<String> = Vec::new();
    if !java.min_memory.as_str().is_empty() {
        args.push(concat2("-Xms", java.min_memory.as_str()));
    }
    if !java.max_memory.as_str().is_empty() {
        args.push(concat2("-Xmx", java.max_memory.as_str()));
    }
    assert(texts(args@) =~= memory_flags(java@));
    let ghost flags = args@;
    let mut i: usize = 0;
    while i < java.additional_args.len()
        invariant
            i <= java.additional_args@.len(),
            args@.len() == flags.len() + i,
            args@.subrange(0, flags.len() as int) == flags,
            forall|j: int| 0 <= j < i ==> args@[flags.len() + j]@ == java.additional_args@[j]@,
        decreases java.additional_args@.len() - i,
    {
        args.push(java.additional_args[i].clone());
        assert(args@.subrange(0, flags.len() as int) =~= flags);
        i += 1;
    }
    let ghost body = args@;
    args.push("-jar".to_string());
    args.push("server.jar".to_string());
    args.push("nogui".to_string());
    proof {
        assert(texts(args@) =~= launch_args(java@)) by {
            let want = launch_args(java@);
            assert(texts(flags) == memory_flags(java@));
            assert(want.len() == args@.len());
            assert forall|j: int| 0 <= j < want.len() implies texts(args@)[j] == want[j] by {
                if j < flags.len() {
                    assert(args@[j] == body.subrange(0, flags.len() as int)[j]);
                    assert(texts(flags)[j] == flags[j]@);
                } else if j < body.len() {
                    assert(args@[j]@ == java.additional_args@[j - flags.len()]@);
                }
            }
        }
    }
    LaunchCommand {
        program,
        args,
        working_dir,
        stdin: StreamMode::Piped,
        stdout: StreamMode::Piped,
        stderr: StreamMode::Piped,
    }
}

} // verus!
