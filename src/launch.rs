//! What to start: the target program, its argument vector, and, in logging
//! mode, the two log files that receive its output.
use vstd::prelude::*;
use crate::config::{ShimConfig, string_views, opt_view, lemma_string_views_push};

verus! {

/// The configured token as a sequence of zero or one arguments.
pub open spec fn extra_arg(t: Option<Seq<char>>) -> Seq<Seq<char>> {
    match t {
        Some(s) => seq![s],
        None => Seq::empty(),
    }
}

/// The child's arguments: the caller's own, in order, then the configured token.
pub open spec fn child_args_of(caller: Seq<Seq<char>>, token: Option<Seq<char>>) -> Seq<Seq<char>> {
    caller + extra_arg(token)
}

pub open spec fn stdout_log_of(prefix: Seq<char>) -> Seq<char> {
    prefix + ".stdout.log"@
}

pub open spec fn stderr_log_of(prefix: Seq<char>) -> Seq<char> {
    prefix + ".stderr.log"@
}

/// Builds the child's argument vector from the caller's arguments (without
/// the shim's own program name) and the configured token.
pub fn child_args(caller: &Vec<String>, token: &Option<String>) -> (r: Vec<String>)
    ensures
        string_views(r@) == child_args_of(string_views(caller@), opt_view(*token)),
{
    let mut r: Vec<String> = Vec::new();
    let mut i: usize = 0;
    while i < caller.len()
        invariant
            i <= caller@.len(),
            string_views(r@) == string_views(caller@).subrange(0, i as int),
        decreases caller.len() - i,
    {
        let ghost before = r@;
        r.push(caller[i].clone());
        proof {
            lemma_string_views_push(before, caller@[i as int]);
            assert(string_views(caller@).subrange(0, i + 1) =~= string_views(caller@).subrange(
                0,
                i as int,
            ).push(caller@[i as int]@));
        }
        i = i + 1;
    }
    let ghost before = r@;
    match token {
        Some(t) => {
            r.push(t.clone());
            proof {
                lemma_string_views_push(before, *t);
            }
        },
        None => {},
    }
    assert(string_views(caller@).subrange(0, caller@.len() as int) =~= string_views(caller@));
    assert(string_views(r@) =~= child_args_of(string_views(caller@), opt_view(*token)));
    r
}

/// The two files of logging mode.
pub struct LogFiles {
    pub stdout: String,
    pub stderr: String,
}

impl LogFiles {
    /// `{prefix}.stdout.log` and `{prefix}.stderr.log`.
    pub fn from_prefix(prefix: &str) -> (r: LogFiles)
        ensures
            r.stdout@ == stdout_log_of(prefix@),
            r.stderr@ == stderr_log_of(prefix@),
    {
        LogFiles {
            stdout: String::from_str(prefix).concat(".stdout.log"),
            stderr: String::from_str(prefix).concat(".stderr.log"),
        }
    }
}

/// A resolved launch: the program, its arguments, and the log files when
/// the output is captured; without them the child inherits the shim's streams.
pub struct LaunchPlan {
    pub program: String,
    pub args: Vec<String>,
    pub logs: Option<LogFiles>,
}

impl LaunchPlan {
    /// Whether the child's output is captured and relayed rather than inherited.
    pub open spec fn captures(&self) -> bool {
        self.logs is Some
    }

    /// The plan for a descriptor and the caller's arguments.
    pub fn new(config: &ShimConfig, caller: &Vec<String>) -> (r: LaunchPlan)
        ensures
            r.program@ == config.path@,
            string_views(r.args@) == child_args_of(string_views(caller@), opt_view(config.args)),
            r.captures() == (config.log is Some),
            match config.log {
                Some(p) => r.logs->0.stdout@ == stdout_log_of(p@) && r.logs->0.stderr@
                    == stderr_log_of(p@),
                None => r.logs is None,
            },
    {
        let logs = match &config.log {
            Some(p) => Some(LogFiles::from_prefix(p.as_str())),
            None => None,
        };
        LaunchPlan { program: config.path.clone(), args: child_args(caller, &config.args), logs }
    }

    /// Whether the child's output is captured and relayed rather than inherited.
    pub fn is_captured(&self) -> (r: bool)
        ensures
            r == self.captures(),
    {
        self.logs.is_some()
    }
}

/// The child sees exactly the caller's arguments followed by the configured
/// token when there is one, and exactly the caller's arguments otherwise.
pub proof fn child_args_order(caller: Seq<Seq<char>>, token: Option<Seq<char>>)
    ensures
        token is None ==> child_args_of(caller, token) == caller,
        forall|t: Seq<char>| token == Some(t) ==> child_args_of(caller, token) == #[trigger] caller.push(t),
        child_args_of(caller, token).subrange(0, caller.len() as int) == caller,
{
    assert(child_args_of(caller, token).subrange(0, caller.len() as int) =~= caller);
    if token is None {
        assert(child_args_of(caller, token) =~= caller);
    } else {
        assert(child_args_of(caller, token) =~= caller.push(token->0));
    }
}

} // verus!
