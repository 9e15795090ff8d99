//! Dependency checks: which of an agent's tool commands can be found on
//! this machine, and the installation hints offered for well-known tools.

use vstd::prelude::*;
use vstd::string::*;

use crate::agent::AgentConfig;
use crate::text::str_eq;

verus! {

/// Relies on which::which: whether an executable named `name` is found on
/// the search path. The answer depends on the machine, so nothing more is
/// stated of it.
#[verifier::external_body]
pub fn is_tool_available(name: &str) -> bool {
    which::which(name).is_ok()
}

/// The commands of the listed tools, in order.
pub open spec fn seq_commands(ts: Seq<crate::agent::McpToolView>) -> Seq<Seq<char>> {
    ts.map_values(|t: crate::agent::McpToolView| t.command)
}

/// The commands of the agent's tools, in order.
pub open spec fn tool_commands(a: crate::agent::AgentView) -> Seq<Seq<char>> {
    seq_commands(a.mcp)
}

/// The commands the availability answers mark missing: one answer per
/// tool, and a tool's command is reported exactly when its answer is
/// `false`, in tool-list order. A tool beyond the answers is taken as
/// available.
pub open spec fn missing_spec(ts: Seq<crate::agent::McpToolView>, avail: Seq<bool>) -> Seq<
    Seq<char>,
>
    decreases ts.len(),
{
    if ts.len() == 0 {
        Seq::empty()
    } else {
        let atail = if avail.len() > 0 {
            avail.subrange(1, avail.len() as int)
        } else {
            avail
        };
        (if avail.len() > 0 && !avail[0] {
            seq![ts[0].command]
        } else {
            Seq::<Seq<char>>::empty()
        }) + missing_spec(ts.subrange(1, ts.len() as int), atail)
    }
}

proof fn lemma_missing_spec_from_tools(ts: Seq<crate::agent::McpToolView>, avail: Seq<bool>)
    ensures
        forall|k: int|
            0 <= k < missing_spec(ts, avail).len() ==> seq_commands(ts).contains(
                #[trigger] missing_spec(ts, avail)[k],
            ),
    decreases ts.len(),
{
    if ts.len() > 0 {
        let tail = ts.subrange(1, ts.len() as int);
        let atail = if avail.len() > 0 {
            avail.subrange(1, avail.len() as int)
        } else {
            avail
        };
        lemma_missing_spec_from_tools(tail, atail);
        let m = missing_spec(ts, avail);
        let head_len: int = if avail.len() > 0 && !avail[0] {
            1
        } else {
            0
        };
        assert forall|k: int| 0 <= k < m.len() implies seq_commands(ts).contains(
            #[trigger] m[k],
        ) by {
            if k < head_len {
                assert(m[k] == ts[0].command);
                assert(seq_commands(ts)[0] == ts[0].command);
            } else {
                assert(m[k] == missing_spec(tail, atail)[k - head_len]);
                assert(seq_commands(tail).contains(m[k]));
                let j = choose|j: int|
                    0 <= j < seq_commands(tail).len() && seq_commands(tail)[j] == m[k];
                assert(seq_commands(ts)[j + 1] == seq_commands(tail)[j]);
            }
        }
    }
}

/// The commands marked unavailable by the given answers, one per tool in
/// order: the dependency-check decision for whatever answers the machine
/// gave.
pub fn missing_commands(agent: &AgentConfig, avail: &Vec<bool>) -> (r: Vec<String>)
    ensures
        r.deep_view() == missing_spec(agent@.mcp, avail@),
{
    let ghost ts = agent@.mcp;
    let mut r: Vec<String> = Vec::new();
    let mut i: usize = 0;
    proof {
        assert(ts.subrange(0, ts.len() as int) =~= ts);
        assert(avail@.subrange(0, avail@.len() as int) =~= avail@);
    }
    while i < agent.mcp.len()
        invariant
            i <= agent.mcp@.len(),
            ts == agent@.mcp,
            ts.len() == agent.mcp@.len(),
            missing_spec(ts, avail@) == r.deep_view() + missing_spec(
                ts.subrange(i as int, ts.len() as int),
                if i as int <= avail@.len() {
                    avail@.subrange(i as int, avail@.len() as int)
                } else {
                    Seq::<bool>::empty()
                },
            ),
        decreases agent.mcp@.len() - i,
    {
        let ghost suffix = ts.subrange(i as int, ts.len() as int);
        let ghost asuffix: Seq<bool> = if i as int <= avail@.len() {
            avail@.subrange(i as int, avail@.len() as int)
        } else {
            Seq::<bool>::empty()
        };
        let ghost before = r.deep_view();
        if i < avail.len() && !avail[i] {
            r.push(agent.mcp[i].command.clone());
            proof {
                assert(r.deep_view() =~= before.push(ts[i as int].command));
            }
        }
        proof {
            assert(suffix[0] == ts[i as int]);
            assert(suffix.subrange(1, suffix.len() as int) =~= ts.subrange(
                i as int + 1,
                ts.len() as int,
            ));
            if i < avail.len() {
                assert(asuffix[0] == avail@[i as int]);
                assert(asuffix.subrange(1, asuffix.len() as int) =~= avail@.subrange(
                    i as int + 1,
                    avail@.len() as int,
                ));
            } else {
                assert(asuffix =~= Seq::<bool>::empty());
            }
            if i < avail.len() && !avail@[i as int] {
                assert(missing_spec(suffix, asuffix) =~= seq![suffix[0].command] + missing_spec(
                    suffix.subrange(1, suffix.len() as int),
                    asuffix.subrange(1, asuffix.len() as int),
                ));
                assert(before + missing_spec(suffix, asuffix) =~= r.deep_view() + missing_spec(
                    suffix.subrange(1, suffix.len() as int),
                    asuffix.subrange(1, asuffix.len() as int),
                ));
            }
        }
        i = i + 1;
    }
    proof {
        assert(ts.subrange(ts.len() as int, ts.len() as int) =~= Seq::<crate::agent::McpToolView>::empty());
        assert(missing_spec(
            ts.subrange(ts.len() as int, ts.len() as int),
            if ts.len() as int <= avail@.len() {
                avail@.subrange(ts.len() as int, avail@.len() as int)
            } else {
                Seq::<bool>::empty()
            },
        ) =~= Seq::<Seq<char>>::empty());
        assert(r.deep_view() + Seq::<Seq<char>>::empty() =~= r.deep_view());
    }
    r
}

/// The commands of the agent's tools that are not available on this
/// machine, in the order the tools are listed. Which commands those are
/// depends on the machine; the decision per answer is
/// [`missing_commands`], and every returned string is the command of one
/// of the agent's tools.
pub fn check_agent_dependencies(agent: &AgentConfig) -> (r: Vec<String>)
    ensures
        forall|i: int|
            0 <= i < r@.len() ==> tool_commands(agent@).contains(#[trigger] r.deep_view()[i]),
{
    let mut avail: Vec<bool> = Vec::new();
    let mut i: usize = 0;
    while i < agent.mcp.len()
        invariant
            i <= agent.mcp@.len(),
            avail@.len() == i,
        decreases agent.mcp@.len() - i,
    {
        avail.push(is_tool_available(agent.mcp[i].command.as_str()));
        i = i + 1;
    }
    let r = missing_commands(agent, &avail);
    proof {
        lemma_missing_spec_from_tools(agent@.mcp, avail@);
    }
    r
}

/// The installation hint offered for a well-known tool name, if any.
pub open spec fn install_hint_spec(tool: Seq<char>) -> Option<Seq<char>> {
    if tool == "docker"@ {
        Some("Install Docker: https://docs.docker.com/get-docker/"@)
    } else if tool == "cargo"@ {
        Some("Install Rust: https://rustup.rs/"@)
    } else if tool == "npm"@ || tool == "npx"@ {
        Some("Install Node.js: https://nodejs.org/"@)
    } else if tool == "python"@ || tool == "python3"@ {
        Some("Install Python: https://www.python.org/downloads/"@)
    } else if tool == "go"@ {
        Some("Install Go: https://go.dev/dl/"@)
    } else if tool == "uv"@ {
        Some("Install uv: pip install uv"@)
    } else {
        None
    }
}

/// The installation hint for a well-known tool: exactly the hints of
/// [`install_hint_spec`], and `None` for any other name.
pub fn get_install_hint(tool: &str) -> (r: Option<&'static str>)
    ensures
        (r is Some) == (install_hint_spec(tool@) is Some),
        r matches Some(h) ==> install_hint_spec(tool@) == Some(h@),
{
    if str_eq(tool, "docker") {
        Some("Install Docker: https://docs.docker.com/get-docker/")
    } else if str_eq(tool, "cargo") {
        Some("Install Rust: https://rustup.rs/")
    } else if str_eq(tool, "npm") || str_eq(tool, "npx") {
        Some("Install Node.js: https://nodejs.org/")
    } else if str_eq(tool, "python") || str_eq(tool, "python3") {
        Some("Install Python: https://www.python.org/downloads/")
    } else if str_eq(tool, "go") {
        Some("Install Go: https://go.dev/dl/")
    } else if str_eq(tool, "uv") {
        Some("Install uv: pip install uv")
    } else {
        None
    }
}

} // verus!
