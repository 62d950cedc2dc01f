use vstd::prelude::*;
use crate::envmap::EnvMap;

verus! {

/// What the child branch loads in place of its own image: the program path,
/// which is also argv[0] and the only argument, and the environment lines;
/// no lines means the inherited environment, unchanged.
pub struct ExecPlan {
    /// the program to load, passed as the whole argument vector too
    pub program: String,
    /// the environment, one "NAME=value" line per binding, in insertion order
    pub env_lines: Option<Vec<String>>,
}

/// The environment line a binding becomes: the name, an equals sign, the value.
pub open spec fn env_line(pair: (String, String)) -> Seq<char> {
    pair.0@ + "="@ + pair.1@
}

/// The exec image for the shell under the inherited environment.
pub fn exec(shell: &str) -> (r: ExecPlan)
    ensures
        r.program@ == shell@,
        r.env_lines is None,
{
    exec_with_env(shell, None)
}

/// The exec image for the shell: the program as given, and one line per
/// environment binding, in insertion order; an absent map means the current
/// environment is inherited unchanged.
pub fn exec_with_env(shell: &str, env: Option<EnvMap>) -> (r: ExecPlan)
    ensures
        r.program@ == shell@,
        env is None ==> r.env_lines is None,
        env matches Some(m) ==> r.env_lines matches Some(lines) && lines@.len() == m@.len()
            && (forall|i: int| 0 <= i < m@.len() ==> (#[trigger] lines@[i])@ == env_line(m@[i])),
{
    let program = shell.to_owned();
    match env {
        None => ExecPlan { program, env_lines: None },
        Some(m) => {
            let pairs = m.pairs();
            let n = pairs.len();
            let mut lines: Vec<String> = Vec::new();
            let mut i: usize = 0;
            while i < n
                invariant
                    i <= n,
                    n == pairs@.len(),
                    pairs@ == m@,
                    lines@.len() == i,
                    forall|j: int| 0 <= j < i ==> (#[trigger] lines@[j])@ == env_line(pairs@[j]),
                decreases n - i,
            {
                let mut line = String::new();
                line.append(pairs[i].0.as_str());
                line.append("=");
                line.append(pairs[i].1.as_str());
                lines.push(line);
                i = i + 1;
            }
            ExecPlan { program, env_lines: Some(lines) }
        },
    }
}

} // verus!
