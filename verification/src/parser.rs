//! The configuration: which programs to launch, and what the command line
//! asks of the supervisor itself.

use vstd::prelude::*;
use vstd::string::StrSliceExecFns;
use vstd::string::StringExecFns;
use crate::runtime::AppParams;
use crate::text::{is_split, split, texts, views};

verus! {

/// One program to launch.
#[derive(Debug)]
pub struct AppConfig {
    /// The name to log it under; by default the last component of the
    /// program's path.
    pub name: Option<String>,
    /// The program and its arguments, separated by single spaces. There is
    /// no quoting: every space separates.
    pub command: String,
    /// The working directory of the process.
    pub workdir: Option<String>,
    /// The user id of the process.
    pub uid: Option<u32>,
    /// The group id of the process.
    pub gid: Option<u32>,
    /// The environment of the process, as pairs of a name and a value. The
    /// process gets these and no others.
    pub env: Option<Vec<(String, String)>>,
}

/// The whole configuration.
#[derive(Debug)]
pub struct Config {
    pub apps: Vec<AppConfig>,
}

/// Whether `name` is the last component of `path`: what follows the last
/// `/`, or all of it where it holds none.
pub open spec fn is_basename(name: Seq<char>, path: Seq<char>) -> bool {
    &&& name.len() <= path.len()
    &&& name == path.skip(path.len() - name.len())
    &&& !name.contains('/')
    &&& name.len() < path.len() ==> path[path.len() - name.len() - 1] == '/'
}

/// The last component of a path.
pub fn basename<'a>(path: &'a str) -> (name: &'a str)
    ensures
        is_basename(name@, path@),
{
    let n = path.unicode_len();
    let mut start: usize = 0;
    let mut i: usize = 0;
    while i < n
        invariant
            n == path@.len(),
            start <= i <= n,
            forall|k: int| start <= k < i ==> path@[k] != '/',
            start > 0 ==> path@[start - 1] == '/',
        decreases n - i,
    {
        if path.get_char(i) == '/' {
            start = i + 1;
        }
        i = i + 1;
    }
    path.substring_char(start, n)
}

/// One entry of the environment: the name, `=`, the value.
pub open spec fn env_entry(pair: (String, String)) -> Seq<char> {
    pair.0@ + seq!['='] + pair.1@
}

/// The environment as the child gets it: one entry for each pair, in the
/// order of the pairs; empty where the configuration names none.
pub open spec fn environment(env: Option<Vec<(String, String)>>) -> Seq<Seq<char>> {
    match env {
        Some(pairs) => pairs@.map_values(|pair: (String, String)| env_entry(pair)),
        None => Seq::empty(),
    }
}

impl AppConfig {
    /// The command split into the program and its arguments.
    pub fn command_parts(&self) -> (parts: Vec<&str>)
        ensures
            is_split(views(parts@), self.command@, ' '),
    {
        split(self.command.as_str(), ' ')
    }

    /// The environment of the process, each entry as `NAME=VALUE`.
    pub fn environment(&self) -> (entries: Vec<String>)
        ensures
            texts(entries@) == environment(self.env),
    {
        let mut entries: Vec<String> = Vec::new();
        match &self.env {
            None => {},
            Some(pairs) => {
                let mut i: usize = 0;
                while i < pairs.len()
                    invariant
                        i <= pairs.len(),
                        self.env == Some(*pairs),
                        texts(entries@) == environment(self.env).take(i as int),
                    decreases pairs.len() - i,
                {
                    let pair = &pairs[i];
                    let mut entry = String::from_str(pair.0.as_str());
                    entry.append("=");
                    entry.append(pair.1.as_str());
                    proof {
                        reveal_strlit("=");
                        assert(entry@ =~= env_entry(*pair));
                    }
                    entries.push(entry);
                    proof {
                        assert(environment(self.env).take(i as int + 1) =~= environment(
                            self.env,
                        ).take(i as int).push(env_entry(*pair)));
                    }
                    i = i + 1;
                }
            },
        }
        entries
    }

    /// The parameters of the launch. `parts` is the command split by
    /// [`AppConfig::command_parts`], and `env` the environment listed by
    /// [`AppConfig::environment`]: the first part is the program, all parts
    /// together are the argument vector, and the name is the configured one
    /// or else the last component of the program's path.
    pub fn params<'a>(&'a self, parts: &'a [&'a str], env: Vec<String>) -> (params: AppParams<'a>)
        requires
            parts@.len() > 0,
        ensures
            params.prog == parts@[0],
            params.args == parts,
            params.env == env,
            params.uid == self.uid,
            params.gid == self.gid,
            match self.workdir {
                Some(dir) => params.cwd matches Some(cwd) && cwd@ == dir@,
                None => params.cwd is None,
            },
            match self.name {
                Some(name) => params.name@ == name@,
                None => is_basename(params.name@, parts@[0]@),
            },
    {
        let prog: &'a str = parts[0];
        let name: &'a str = match &self.name {
            Some(name) => name.as_str(),
            None => basename(prog),
        };
        let cwd: Option<&'a str> = match &self.workdir {
            Some(dir) => Some(dir.as_str()),
            None => None,
        };
        AppParams { cwd, name, prog, args: parts, uid: self.uid, gid: self.gid, env }
    }
}

/// How much the supervisor says of its own doings.
#[derive(Debug, Clone, Copy, PartialEq, Eq, Structural)]
pub enum Verbosity {
    Off,
    Error,
    Warn,
    Info,
    Debug,
    Trace,
}

/// How many `v` a text holds.
pub open spec fn count_v(text: Seq<char>) -> nat
    decreases text.len(),
{
    if text.len() == 0 {
        0
    } else {
        count_v(text.drop_last()) + if text.last() == 'v' {
            1nat
        } else {
            0nat
        }
    }
}

/// What one argument adds to the verbosity: the number of `v` in it where it
/// starts with `-v`, and nothing otherwise.
pub open spec fn flag_weight(arg: Seq<char>) -> nat {
    if arg.len() >= 2 && arg[0] == '-' && arg[1] == 'v' {
        count_v(arg)
    } else {
        0
    }
}

/// What all arguments together add to the verbosity.
pub open spec fn total_weight(args: Seq<Seq<char>>) -> nat
    decreases args.len(),
{
    if args.len() == 0 {
        0
    } else {
        total_weight(args.drop_last()) + flag_weight(args.last())
    }
}

/// The verbosity that a weight stands for: one step for each `v`, and the
/// most verbose from five on.
pub open spec fn verbosity_of(weight: nat) -> Verbosity {
    if weight == 0 {
        Verbosity::Off
    } else if weight == 1 {
        Verbosity::Error
    } else if weight == 2 {
        Verbosity::Warn
    } else if weight == 3 {
        Verbosity::Info
    } else if weight == 4 {
        Verbosity::Debug
    } else {
        Verbosity::Trace
    }
}

/// The smaller of a number and five.
pub open spec fn capped(weight: nat) -> nat {
    if weight < 5 {
        weight
    } else {
        5
    }
}

/// Counts the `v` in a flag, as far as five.
fn weigh(arg: &str) -> (weight: usize)
    ensures
        weight == capped(flag_weight(arg@)),
{
    let n = arg.unicode_len();
    if n < 2 || arg.get_char(0) != '-' || arg.get_char(1) != 'v' {
        return 0;
    }
    let mut weight: usize = 0;
    let mut i: usize = 0;
    while i < n
        invariant
            n == arg@.len(),
            i <= n,
            weight == capped(count_v(arg@.take(i as int))),
        decreases n - i,
    {
        proof {
            assert(arg@.take(i as int + 1).drop_last() =~= arg@.take(i as int));
        }
        if arg.get_char(i) == 'v' && weight < 5 {
            weight = weight + 1;
        }
        i = i + 1;
    }
    proof {
        assert(arg@.take(n as int) =~= arg@);
    }
    weight
}

/// Reads the verbosity off the command line.
pub fn verbosity(args: &[String]) -> (level: Verbosity)
    ensures
        level == verbosity_of(total_weight(texts(args@))),
{
    let mut weight: usize = 0;
    let mut i: usize = 0;
    while i < args.len()
        invariant
            i <= args.len(),
            weight == capped(total_weight(texts(args@).take(i as int))),
        decreases args.len() - i,
    {
        proof {
            assert(texts(args@).take(i as int + 1).drop_last() =~= texts(args@).take(i as int));
        }
        let added = weigh(args[i].as_str());
        weight = if weight + added < 5 {
            weight + added
        } else {
            5
        };
        i = i + 1;
    }
    proof {
        assert(texts(args@).take(args@.len() as int) =~= texts(args@));
    }
    if weight == 0 {
        Verbosity::Off
    } else if weight == 1 {
        Verbosity::Error
    } else if weight == 2 {
        Verbosity::Warn
    } else if weight == 3 {
        Verbosity::Info
    } else if weight == 4 {
        Verbosity::Debug
    } else {
        Verbosity::Trace
    }
}

} // verus!
