//! The message schema: a `Command` to run, its retry and timeout settings, the
//! descriptor of the process to spawn, and the outcome of one execution.

use vstd::prelude::*;
use vstd::string::StringExecFns;

verus! {

// ------------------------------------------------------------------------------------------------
// CmdArg
// ------------------------------------------------------------------------------------------------

/// The process a command runs.
#[derive(Debug, Clone)]
pub enum CmdArg {
    Ping { addr: String },
    Bash { cmd: Vec<String> },
    Ssh { ip: String, user: String, cmd: Vec<String> },
    Sshpass { ip: String, user: String, pass: String, cmd: Vec<String> },
    CondaPython { env: String, dir: String, script: String },
    DockerExec { container: String, cmd: Vec<String> },
}

/// The characters of each string.
pub open spec fn texts(v: Seq<String>) -> Seq<Seq<char>> {
    v.map_values(|s: String| s@)
}

/// Copies a list of string slices.
pub fn strings_of(v: &[&str]) -> (r: Vec<String>)
    ensures
        r@.len() == v@.len(),
        forall|i: int| 0 <= i < v@.len() ==> #[trigger] r@[i]@ == v@[i]@,
{
    let mut r: Vec<String> = Vec::new();
    let mut i: usize = 0;
    while i < v.len()
        invariant
            i <= v@.len(),
            r@.len() == i,
            forall|j: int| 0 <= j < i ==> #[trigger] r@[j]@ == v@[j]@,
        decreases v@.len() - i,
    {
        r.push(v[i].to_owned());
        i += 1;
    }
    r
}

impl CmdArg {
    pub fn ping(addr: String) -> (r: CmdArg)
        ensures
            r == (CmdArg::Ping { addr }),
    {
        CmdArg::Ping { addr }
    }

    pub fn bash(cmd: Vec<String>) -> (r: CmdArg)
        ensures
            r == (CmdArg::Bash { cmd }),
    {
        CmdArg::Bash { cmd }
    }

    pub fn ssh(ip: String, user: String, cmd: Vec<String>) -> (r: CmdArg)
        ensures
            r == (CmdArg::Ssh { ip, user, cmd }),
    {
        CmdArg::Ssh { ip, user, cmd }
    }

    pub fn sshpass(ip: String, user: String, pass: String, cmd: Vec<String>) -> (r: CmdArg)
        ensures
            r == (CmdArg::Sshpass { ip, user, pass, cmd }),
    {
        CmdArg::Sshpass { ip, user, pass, cmd }
    }

    pub fn conda_python(env: String, dir: String, script: String) -> (r: CmdArg)
        ensures
            r == (CmdArg::CondaPython { env, dir, script }),
    {
        CmdArg::CondaPython { env, dir, script }
    }

    pub fn docker_exec(container: String, cmd: Vec<String>) -> (r: CmdArg)
        ensures
            r == (CmdArg::DockerExec { container, cmd }),
    {
        CmdArg::DockerExec { container, cmd }
    }
}

// ------------------------------------------------------------------------------------------------
// what a descriptor spawns
// ------------------------------------------------------------------------------------------------

/// A process to start: program, arguments, and the directory to start it in (else the
/// worker's own). Both output pipes are captured.
pub struct SpawnSpec {
    pub program: String,
    pub args: Vec<String>,
    pub dir: Option<String>,
}

/// `user@host`.
pub open spec fn login(user: Seq<char>, ip: Seq<char>) -> Seq<char> {
    user + "@"@ + ip
}

/// The program each descriptor runs.
pub open spec fn program_of(c: CmdArg) -> Seq<char> {
    match c {
        CmdArg::Ping { .. } => "ping"@,
        CmdArg::Bash { .. } => "bash"@,
        CmdArg::Ssh { .. } => "ssh"@,
        CmdArg::Sshpass { .. } => "sshpass"@,
        CmdArg::CondaPython { .. } => "conda"@,
        CmdArg::DockerExec { .. } => "docker"@,
    }
}

/// The arguments each descriptor passes.
pub open spec fn args_of(c: CmdArg) -> Seq<Seq<char>> {
    match c {
        CmdArg::Ping { addr } => seq![addr@],
        CmdArg::Bash { cmd } => seq!["-c"@] + texts(cmd@),
        CmdArg::Ssh { ip, user, cmd } => seq![login(user@, ip@)] + texts(cmd@),
        CmdArg::Sshpass { ip, user, pass, cmd } => seq!["-p"@, pass@, "ssh"@, login(user@, ip@)]
            + texts(cmd@),
        CmdArg::CondaPython { env, script, .. } => seq![
            "run"@,
            "-n"@,
            env@,
            "--live-stream"@,
            "python"@,
            "-u"@,
            script@,
        ],
        CmdArg::DockerExec { container, cmd } => seq!["exec"@, container@] + texts(cmd@),
    }
}

/// The directory a descriptor runs in, if it names one.
pub open spec fn dir_of(c: CmdArg) -> Option<Seq<char>> {
    match c {
        CmdArg::CondaPython { dir, .. } => Some(dir@),
        _ => None,
    }
}

/// `user@ip`.
fn login_text(user: &String, ip: &String) -> (r: String)
    ensures
        r@ == login(user@, ip@),
{
    let mut s = user.clone();
    s.append("@");
    s.append(ip.as_str());
    s
}

/// Puts `first` in front of `rest`.
fn prefixed(first: Vec<String>, rest: &Vec<String>) -> (r: Vec<String>)
    ensures
        texts(r@) == texts(first@) + texts(rest@),
{
    let mut r = first;
    let ghost start = r@;
    let mut i: usize = 0;
    while i < rest.len()
        invariant
            i <= rest.len(),
            r@ == start + rest@.subrange(0, i as int),
        decreases rest.len() - i,
    {
        r.push(rest[i].clone());
        i += 1;
        proof {
            assert(rest@.subrange(0, i as int) =~= rest@.subrange(0, i - 1).push(rest@[i - 1]));
        }
    }
    proof {
        assert(rest@.subrange(0, rest.len() as int) =~= rest@);
        assert(texts(r@) =~= texts(first@) + texts(rest@));
    }
    r
}

impl CmdArg {
    /// The process this descriptor starts.
    pub fn spawn_spec(&self) -> (r: SpawnSpec)
        ensures
            r.program@ == program_of(*self),
            texts(r.args@) == args_of(*self),
            r.dir is Some <==> dir_of(*self) is Some,
            r.dir is Some ==> r.dir->0@ == dir_of(*self)->0,
    {
        match self {
            CmdArg::Ping { addr } => {
                let args = vec![addr.clone()];
                proof {
                    assert(texts(args@) =~= args_of(*self));
                }
                SpawnSpec { program: "ping".to_owned(), args, dir: None }
            },
            CmdArg::Bash { cmd } => {
                let args = prefixed(strings_of(&["-c"]), cmd);
                proof {
                    assert(texts(args@) =~= args_of(*self));
                }
                SpawnSpec { program: "bash".to_owned(), args, dir: None }
            },
            CmdArg::Ssh { ip, user, cmd } => {
                let args = prefixed(vec![login_text(user, ip)], cmd);
                proof {
                    assert(texts(args@) =~= args_of(*self));
                }
                SpawnSpec { program: "ssh".to_owned(), args, dir: None }
            },
            CmdArg::Sshpass { ip, user, pass, cmd } => {
                let head = vec![
                    "-p".to_owned(),
                    pass.clone(),
                    "ssh".to_owned(),
                    login_text(user, ip),
                ];
                let args = prefixed(head, cmd);
                proof {
                    assert(texts(args@) =~= args_of(*self));
                }
                SpawnSpec { program: "sshpass".to_owned(), args, dir: None }
            },
            CmdArg::CondaPython { env, dir, script } => {
                let args = vec![
                    "run".to_owned(),
                    "-n".to_owned(),
                    env.clone(),
                    "--live-stream".to_owned(),
                    "python".to_owned(),
                    "-u".to_owned(),
                    script.clone(),
                ];
                proof {
                    assert(texts(args@) =~= args_of(*self));
                }
                SpawnSpec { program: "conda".to_owned(), args, dir: Some(dir.clone()) }
            },
            CmdArg::DockerExec { container, cmd } => {
                let args = prefixed(vec!["exec".to_owned(), container.clone()], cmd);
                proof {
                    assert(texts(args@) =~= args_of(*self));
                }
                SpawnSpec { program: "docker".to_owned(), args, dir: None }
            },
        }
    }
}

// ------------------------------------------------------------------------------------------------
// Config & Command
// ------------------------------------------------------------------------------------------------

/// Retry and timeout settings of a command; times in seconds.
#[derive(Debug, Clone, Copy, PartialEq, Eq, Structural)]
pub struct Config {
    /// retry budget
    pub retry: Option<u8>,
    /// delay before a retry
    pub poke: Option<u16>,
    /// how long the message may wait in its queue
    pub waiting_timeout: Option<u32>,
    /// how long one execution may run
    pub consuming_timeout: Option<u32>,
}

impl Default for Config {
    fn default() -> (r: Config)
        ensures
            r == (Config { retry: None, poke: None, waiting_timeout: None, consuming_timeout: None }),
    {
        Config { retry: None, poke: None, waiting_timeout: None, consuming_timeout: None }
    }
}

/// One mailing target: header pairs that route one message. The pairs are set on the
/// message in order, so a later pair overrides an earlier one under the same name; the
/// message therefore carries a map, and repeated names are allowed in the list. It is a
/// list rather than a `HashMap` because the headers are built by walking it, and the order
/// in which a `HashMap` is walked is not fixed.
pub type MailingTarget = Vec<(String, String)>;

/// The unit of work: where to send it, how to retry it, what to run.
#[derive(Debug, Clone)]
pub struct Command {
    pub mailing_to: Vec<MailingTarget>,
    pub config: Config,
    pub cmd: CmdArg,
}

impl Command {
    /// A command with no mailing target and no settings.
    pub fn new(cmd: CmdArg) -> (r: Command)
        ensures
            r.mailing_to@.len() == 0,
            r.config == (Config { retry: None, poke: None, waiting_timeout: None, consuming_timeout: None }),
            r.cmd == cmd,
    {
        Command { mailing_to: Vec::new(), config: Config::default(), cmd }
    }

    pub fn mailing_to(&self) -> (r: &[MailingTarget])
        ensures
            r@ == self.mailing_to@,
    {
        self.mailing_to.as_slice()
    }

    pub fn config(&self) -> (r: &Config)
        ensures
            *r == self.config,
    {
        &self.config
    }

    pub fn cmd(&self) -> (r: &CmdArg)
        ensures
            *r == self.cmd,
    {
        &self.cmd
    }
}

// ------------------------------------------------------------------------------------------------
// settings as the history store keeps them
// ------------------------------------------------------------------------------------------------

/// A command's settings widened to the store's signed columns.
#[derive(Debug, Clone, Copy, PartialEq, Eq, Structural)]
pub struct StoredConfig {
    pub retry: Option<i16>,
    pub poke: Option<i32>,
    pub waiting_timeout: Option<i64>,
    pub consuming_timeout: Option<i64>,
}

/// A stored setting out of the range of its field.
#[derive(Debug, Clone, Copy, PartialEq, Eq, Structural)]
pub struct OutOfRange;

pub open spec fn fits_u8(v: Option<i16>) -> bool {
    v is Some ==> 0 <= v->0 <= u8::MAX
}

pub open spec fn fits_u16(v: Option<i32>) -> bool {
    v is Some ==> 0 <= v->0 <= u16::MAX
}

pub open spec fn fits_u32(v: Option<i64>) -> bool {
    v is Some ==> 0 <= v->0 <= u32::MAX
}

fn narrow_u8(v: Option<i16>) -> (r: Result<Option<u8>, OutOfRange>)
    ensures
        r is Ok <==> fits_u8(v),
        r is Ok ==> (r->Ok_0 is Some <==> v is Some),
        r is Ok && v is Some ==> r->Ok_0->0 == v->0,
{
    match v {
        None => Ok(None),
        Some(x) => if 0 <= x && x <= 255 {
            Ok(Some(x as u8))
        } else {
            Err(OutOfRange)
        },
    }
}

fn narrow_u16(v: Option<i32>) -> (r: Result<Option<u16>, OutOfRange>)
    ensures
        r is Ok <==> fits_u16(v),
        r is Ok ==> (r->Ok_0 is Some <==> v is Some),
        r is Ok && v is Some ==> r->Ok_0->0 == v->0,
{
    match v {
        None => Ok(None),
        Some(x) => if 0 <= x && x <= 65535 {
            Ok(Some(x as u16))
        } else {
            Err(OutOfRange)
        },
    }
}

fn narrow_u32(v: Option<i64>) -> (r: Result<Option<u32>, OutOfRange>)
    ensures
        r is Ok <==> fits_u32(v),
        r is Ok ==> (r->Ok_0 is Some <==> v is Some),
        r is Ok && v is Some ==> r->Ok_0->0 == v->0,
{
    match v {
        None => Ok(None),
        Some(x) => if 0 <= x && x <= 4294967295 {
            Ok(Some(x as u32))
        } else {
            Err(OutOfRange)
        },
    }
}

/// The widened form of each setting.
pub open spec fn widened(c: Config) -> StoredConfig {
    StoredConfig {
        retry: match c.retry {
            Some(x) => Some(x as i16),
            None => None,
        },
        poke: match c.poke {
            Some(x) => Some(x as i32),
            None => None,
        },
        waiting_timeout: match c.waiting_timeout {
            Some(x) => Some(x as i64),
            None => None,
        },
        consuming_timeout: match c.consuming_timeout {
            Some(x) => Some(x as i64),
            None => None,
        },
    }
}

impl Config {
    /// The settings in the store's columns.
    pub fn widen(&self) -> (r: StoredConfig)
        ensures
            r == widened(*self),
    {
        StoredConfig {
            retry: match self.retry {
                Some(x) => Some(x as i16),
                None => None,
            },
            poke: match self.poke {
                Some(x) => Some(x as i32),
                None => None,
            },
            waiting_timeout: match self.waiting_timeout {
                Some(x) => Some(x as i64),
                None => None,
            },
            consuming_timeout: match self.consuming_timeout {
                Some(x) => Some(x as i64),
                None => None,
            },
        }
    }

    /// Reads settings back from the store; an error when one is out of its field's range.
    pub fn narrow(s: &StoredConfig) -> (r: Result<Config, OutOfRange>)
        ensures
            r is Ok <==> (fits_u8(s.retry) && fits_u16(s.poke) && fits_u32(s.waiting_timeout)
                && fits_u32(s.consuming_timeout)),
            r is Ok ==> widened(r->Ok_0) == *s,
    {
        let retry = match narrow_u8(s.retry) {
            Ok(v) => v,
            Err(e) => return Err(e),
        };
        let poke = match narrow_u16(s.poke) {
            Ok(v) => v,
            Err(e) => return Err(e),
        };
        let waiting_timeout = match narrow_u32(s.waiting_timeout) {
            Ok(v) => v,
            Err(e) => return Err(e),
        };
        let consuming_timeout = match narrow_u32(s.consuming_timeout) {
            Ok(v) => v,
            Err(e) => return Err(e),
        };
        Ok(Config { retry, poke, waiting_timeout, consuming_timeout })
    }
}

/// Settings written to the store read back as they were.
pub proof fn lemma_stored_config_round_trip(c: Config)
    ensures
        fits_u8(widened(c).retry),
        fits_u16(widened(c).poke),
        fits_u32(widened(c).waiting_timeout),
        fits_u32(widened(c).consuming_timeout),
        forall|d: Config| widened(d) == widened(c) ==> d == c,
{
    assert forall|d: Config| widened(d) == widened(c) implies d == c by {
        if d.retry is Some {
            assert(c.retry is Some);
        }
        if d.poke is Some {
            assert(c.poke is Some);
        }
        if d.waiting_timeout is Some {
            assert(c.waiting_timeout is Some);
        }
        if d.consuming_timeout is Some {
            assert(c.consuming_timeout is Some);
        }
    }
}

// ------------------------------------------------------------------------------------------------
// ExecutionResult
// ------------------------------------------------------------------------------------------------

/// The outcome of one execution attempt.
#[derive(Debug, Clone)]
pub struct ExecutionResult {
    pub exit_code: i32,
    pub result: Option<String>,
}

/// The exit code recorded for a process; one killed by a signal has none and counts as 1.
pub open spec fn recorded_code(code: Option<i32>) -> i32 {
    match code {
        Some(c) => c,
        None => 1,
    }
}

impl ExecutionResult {
    pub fn new(exit_code: i32) -> (r: ExecutionResult)
        ensures
            r.exit_code == exit_code,
            r.result is None,
    {
        ExecutionResult { exit_code, result: None }
    }

    pub fn new_with_result(exit_code: i32, result: String) -> (r: ExecutionResult)
        ensures
            r.exit_code == exit_code,
            r.result == Some(result),
    {
        ExecutionResult { exit_code, result: Some(result) }
    }

    /// What a successful run records: its exit code.
    pub fn of_success(code: Option<i32>) -> (r: ExecutionResult)
        ensures
            r.exit_code == recorded_code(code),
            r.result is None,
    {
        let c = match code {
            Some(c) => c,
            None => 1,
        };
        ExecutionResult::new(c)
    }

    /// What a run to be retried records: its exit code and a description of its status,
    /// or, when it timed out and has no status, code 1 and `timeout`.
    pub fn of_retry(status: Option<(Option<i32>, String)>) -> (r: ExecutionResult)
        ensures
            status is Some ==> r.exit_code == recorded_code((status->0).0),
            status is Some ==> r.result == Some((status->0).1),
            status is None ==> r.exit_code == 1 && r.result is Some && r.result->0@ == "timeout"@,
    {
        match status {
            Some((code, text)) => {
                let c = match code {
                    Some(c) => c,
                    None => 1,
                };
                ExecutionResult::new_with_result(c, text)
            },
            None => ExecutionResult::new_with_result(1, "timeout".to_owned()),
        }
    }
}

} // verus!
