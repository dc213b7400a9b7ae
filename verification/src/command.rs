//! The command executor's vocabulary: what to run, what came back, and the
//! rule that turns a finished process into output or an error.

use vstd::prelude::*;

verus! {

/// The text of each string of a vector, in order.
pub open spec fn texts(v: Seq<String>) -> Seq<Seq<char>> {
    Seq::new(v.len(), |i: int| v[i]@)
}

/// An external program with its ordered arguments and, optionally, the
/// directory to run it in.
#[derive(Debug)]
pub struct Command {
    pub program: String,
    pub args: Vec<String>,
    pub cwd: Option<String>,
}

/// What a [`Command`] is, as plain text.
pub struct CommandModel {
    pub program: Seq<char>,
    pub args: Seq<Seq<char>>,
    pub cwd: Option<Seq<char>>,
}

impl View for Command {
    type V = CommandModel;

    open spec fn view(&self) -> CommandModel {
        CommandModel {
            program: self.program@,
            args: texts(self.args@),
            cwd: match self.cwd {
                Some(dir) => Some(dir@),
                None => None,
            },
        }
    }
}

/// How a spawned process ended.
#[derive(Debug)]
pub enum Completion {
    /// The program could not be started at all.
    SpawnFailed,
    /// The process ran to its end; `status` is its exit code, absent when a
    /// signal ended it.
    Exited { status: Option<i32>, stdout: Vec<u8>, stderr: Vec<u8> },
}

/// A command that did not succeed, with everything needed to diagnose it.
#[derive(Debug)]
pub struct CommandError {
    pub program: String,
    pub args: Vec<String>,
    pub stdout: Vec<u8>,
    pub stderr: Vec<u8>,
    pub exit_status: Option<i32>,
}

/// What a [`CommandError`] is, as plain values.
pub struct CommandErrorModel {
    pub program: Seq<char>,
    pub args: Seq<Seq<char>>,
    pub stdout: Seq<u8>,
    pub stderr: Seq<u8>,
    pub exit_status: Option<i32>,
}

impl View for CommandError {
    type V = CommandErrorModel;

    open spec fn view(&self) -> CommandErrorModel {
        CommandErrorModel {
            program: self.program@,
            args: texts(self.args@),
            stdout: self.stdout@,
            stderr: self.stderr@,
            exit_status: self.exit_status,
        }
    }
}

/// The command line as it is shown in diagnostics: the program, then each
/// argument in double quotes after a space.
pub open spec fn rendered(program: Seq<char>, args: Seq<Seq<char>>) -> Seq<char>
    decreases args.len(),
{
    if args.len() == 0 {
        program
    } else {
        rendered(program, args.drop_last()) + seq![' ', '"'] + args.last() + seq!['"']
    }
}

/// Whether a completion counts as success: the process exited with code 0.
pub open spec fn succeeded(done: Completion) -> bool {
    done matches Completion::Exited { status: Some(code), .. } && code == 0
}

/// The error that an unsuccessful completion of `cmd` stands for: the exit
/// status and captured streams as they came, empty streams and no status
/// where the program never started.
pub open spec fn failure_of(cmd: CommandModel, done: Completion) -> CommandErrorModel {
    match done {
        Completion::SpawnFailed => CommandErrorModel {
            program: cmd.program,
            args: cmd.args,
            stdout: Seq::empty(),
            stderr: Seq::empty(),
            exit_status: None,
        },
        Completion::Exited { status, stdout, stderr } => CommandErrorModel {
            program: cmd.program,
            args: cmd.args,
            stdout: stdout@,
            stderr: stderr@,
            exit_status: status,
        },
    }
}

/// Copies a vector of strings.
pub fn clone_texts(v: &Vec<String>) -> (copy: Vec<String>)
    ensures
        texts(copy@) == texts(v@),
{
    let mut copy: Vec<String> = Vec::new();
    let mut i: usize = 0;
    while i < v.len()
        invariant
            i <= v.len(),
            copy.len() == i,
            forall|j: int| 0 <= j < i ==> copy@[j]@ == v@[j]@,
        decreases v.len() - i,
    {
        copy.push(v[i].clone());
        i = i + 1;
    }
    assert(texts(copy@) =~= texts(v@));
    copy
}

/// Renders a command line for diagnostics.
pub fn render_line(program: &str, args: &Vec<String>) -> (line: String)
    ensures
        line@ == rendered(program@, texts(args@)),
{
    let mut line = String::from_str(program);
    let mut i: usize = 0;
    while i < args.len()
        invariant
            i <= args.len(),
            line@ == rendered(program@, texts(args@).take(i as int)),
        decreases args.len() - i,
    {
        proof {
            reveal_strlit(" \"");
            reveal_strlit("\"");
            let next = texts(args@).take(i + 1);
            assert(next.drop_last() =~= texts(args@).take(i as int));
            assert(next.last() == args@[i as int]@);
            assert(" \""@ =~= seq![' ', '"']);
            assert("\""@ =~= seq!['"']);
        }
        line.append(" \"");
        line.append(args[i].as_str());
        line.append("\"");
        i = i + 1;
    }
    assert(texts(args@).take(i as int) =~= texts(args@));
    line
}

/// How a failed command reads in a message: the program in brackets, then
/// the command line as it was run.
pub open spec fn described(error: CommandErrorModel) -> Seq<char> {
    "["@ + error.program + "] failed. cmd => "@ + rendered(error.program, error.args) + " <="@
}

impl CommandError {
    /// This failure as a message.
    pub fn describe(&self) -> (s: String)
        ensures
            s@ == described(self@),
    {
        let line = render_line(self.program.as_str(), &self.args);
        let mut s = String::from_str("[");
        s.append(self.program.as_str());
        s.append("] failed. cmd => ");
        s.append(line.as_str());
        s.append(" <=");
        s
    }
}

impl Command {
    /// A command without a working directory.
    pub fn new(program: String, args: Vec<String>) -> (cmd: Command)
        ensures
            cmd@ == (CommandModel { program: program@, args: texts(args@), cwd: None }),
    {
        Command { program, args, cwd: None }
    }

    /// The same command, to be run in `dir`.
    pub fn current_dir(self, dir: String) -> (cmd: Command)
        ensures
            cmd@ == (CommandModel { program: self@.program, args: self@.args, cwd: Some(dir@) }),
    {
        Command { program: self.program, args: self.args, cwd: Some(dir) }
    }

    /// The command line for diagnostics.
    pub fn render(&self) -> (line: String)
        ensures
            line@ == rendered(self@.program, self@.args),
    {
        render_line(self.program.as_str(), &self.args)
    }

    /// Judges a finished run of this command: exit code 0 yields the
    /// captured standard output; anything else an error that names the
    /// command and carries what was captured.
    pub fn conclude(&self, done: Completion) -> (res: Result<Vec<u8>, CommandError>)
        ensures
            succeeded(done) ==> res is Ok && res->Ok_0@ == done->stdout@,
            !succeeded(done) ==> res is Err && res->Err_0@ == failure_of(self@, done),
    {
        match done {
            Completion::SpawnFailed => Err(
                CommandError {
                    program: self.program.clone(),
                    args: clone_texts(&self.args),
                    stdout: Vec::new(),
                    stderr: Vec::new(),
                    exit_status: None,
                },
            ),
            Completion::Exited { status, stdout, stderr } => {
                let ok = match status {
                    Some(code) => code == 0,
                    None => false,
                };
                if ok {
                    Ok(stdout)
                } else {
                    Err(
                        CommandError {
                            program: self.program.clone(),
                            args: clone_texts(&self.args),
                            stdout,
                            stderr,
                            exit_status: status,
                        },
                    )
                }
            },
        }
    }
}

} // verus!
