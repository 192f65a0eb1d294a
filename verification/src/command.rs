use vstd::prelude::*;

verus! {

/// One invocation of the version-control tool, for the caller to execute.
#[derive(Debug, PartialEq, Eq)]
pub struct Command {
    /// The program to start.
    pub program: String,
    /// Its arguments, in order.
    pub args: Vec<String>,
    /// The working directory to start it in; `None` for the caller's own.
    pub dir: Option<String>,
    /// Whether its standard output is wanted back in the [`Outcome`].
    pub capture_stdout: bool,
}

/// The mathematical content of a [`Command`].
pub struct CommandView {
    pub program: Seq<char>,
    pub args: Seq<Seq<char>>,
    pub dir: Option<Seq<char>>,
    pub capture_stdout: bool,
}

impl View for Command {
    type V = CommandView;

    open spec fn view(&self) -> CommandView {
        CommandView {
            program: self.program@,
            args: self.args.deep_view(),
            dir: self.dir.deep_view(),
            capture_stdout: self.capture_stdout,
        }
    }
}

/// How an executed [`Command`] ended.
#[derive(Debug, PartialEq, Eq)]
pub struct Outcome {
    /// The exit status; `None` where the process ended without one.
    pub exit_status: Option<i32>,
    /// What the process wrote to standard output, if that was captured.
    pub stdout: Vec<u8>,
}

/// The mathematical content of an [`Outcome`].
pub struct OutcomeView {
    pub exit_status: Option<i32>,
    pub stdout: Seq<u8>,
}

impl View for Outcome {
    type V = OutcomeView;

    open spec fn view(&self) -> OutcomeView {
        OutcomeView { exit_status: self.exit_status, stdout: self.stdout@ }
    }
}

/// Whether a process that ended with `exit_status` succeeded.
pub open spec fn succeeded(exit_status: Option<i32>) -> bool {
    exit_status == Some(0i32)
}

/// The command that reads the base directory from the tool's global
/// configuration.
pub open spec fn config_read() -> CommandView {
    CommandView {
        program: "git"@,
        args: seq!["config"@, "--global"@, "repman.basedir"@],
        dir: None,
        capture_stdout: true,
    }
}

/// The command that clones `url` into `destination`; `extra` follows the
/// destination as it stands.
pub open spec fn clone_into(
    url: Seq<char>,
    destination: Seq<char>,
    extra: Seq<Seq<char>>,
) -> CommandView {
    CommandView {
        program: "git"@,
        args: seq!["clone"@, url, destination] + extra,
        dir: None,
        capture_stdout: false,
    }
}

/// The command that gives the clone in `destination` the remote `upstream`
/// with the URL `url`.
pub open spec fn add_upstream(url: Seq<char>, destination: Seq<char>) -> CommandView {
    CommandView {
        program: "git"@,
        args: seq!["remote"@, "add"@, "upstream"@, url],
        dir: Some(destination),
        capture_stdout: false,
    }
}

impl Outcome {
    /// Whether the process succeeded: it ended with status zero.
    pub fn success(&self) -> (b: bool)
        ensures
            b == succeeded(self.exit_status),
    {
        match self.exit_status {
            Some(code) => code == 0,
            None => false,
        }
    }
}

impl Command {
    /// The command that reads the base directory from the tool's global
    /// configuration. Its output is captured.
    pub fn config_read() -> (r: Command)
        ensures
            r@ == config_read(),
    {
        let mut args: Vec<String> = Vec::new();
        args.push("config".to_string());
        args.push("--global".to_string());
        args.push("repman.basedir".to_string());
        let r = Command { program: "git".to_string(), args, dir: None, capture_stdout: true };
        assert(r@.args =~= config_read().args);
        r
    }

    /// The command that clones `url` into `destination`. The arguments in
    /// `extra` follow the destination, unchanged and in their order.
    pub fn clone_into(url: String, destination: String, extra: Vec<String>) -> (r: Command)
        ensures
            r@ == clone_into(url@, destination@, extra.deep_view()),
    {
        let mut rest = extra;
        let mut args: Vec<String> = Vec::new();
        args.push("clone".to_string());
        args.push(url);
        args.push(destination);
        args.append(&mut rest);
        let r = Command { program: "git".to_string(), args, dir: None, capture_stdout: false };
        assert(r@.args =~= clone_into(url@, destination@, extra.deep_view()).args);
        r
    }

    /// The command that gives the clone in `destination` the remote
    /// `upstream` with the URL `url`. It runs inside the clone.
    pub fn add_upstream(url: String, destination: String) -> (r: Command)
        ensures
            r@ == add_upstream(url@, destination@),
    {
        let mut args: Vec<String> = Vec::new();
        args.push("remote".to_string());
        args.push("add".to_string());
        args.push("upstream".to_string());
        args.push(url);
        let r = Command {
            program: "git".to_string(),
            args,
            dir: Some(destination),
            capture_stdout: false,
        };
        assert(r@.args =~= add_upstream(url@, destination@).args);
        r
    }
}

} // verus!
