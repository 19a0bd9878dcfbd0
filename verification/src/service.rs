//! The two long-running services and the commands that start and stop them.

use crate::command::{decimal, render_decimal, texts, CommandLine, CommandLineView};
use vstd::prelude::*;

verus! {

/// What a managed process is there for.
#[derive(Clone, Copy, Debug, PartialEq, Eq)]
pub enum Role {
    /// The block-producing node.
    Node,
    /// The bridge that serves RPC requests.
    RpcBridge,
}

impl Role {
    /// The words for this role in what is shown to an operator.
    pub open spec fn label_text(self) -> Seq<char> {
        match self {
            Role::Node => "block-producing node"@,
            Role::RpcBridge => "RPC bridge"@,
        }
    }

    /// A human-readable name for the role.
    pub fn label(&self) -> (text: &'static str)
        ensures
            text@ == self.label_text(),
    {
        match self {
            Role::Node => "block-producing node",
            Role::RpcBridge => "RPC bridge",
        }
    }
}

/// A service that was started and has not been seen to stop. It is held by
/// one owner at a time and is never copied.
#[derive(Debug, PartialEq, Eq)]
pub struct ManagedProcess {
    pub pid: u32,
    pub role: Role,
}

/// The command that starts the block-producing node on a chain
/// specification, with the given time between blocks in milliseconds.
pub open spec fn node_command(
    node: Seq<char>,
    chain_spec: Seq<char>,
    block_time_ms: u64,
) -> CommandLineView {
    CommandLineView {
        program: node,
        args: seq!["--chain"@, chain_spec, "--dev-block-time"@, decimal(block_time_ms as nat)],
    }
}

/// The command that starts the RPC bridge on a chain specification.
pub open spec fn rpc_bridge_command(bridge: Seq<char>, chain_spec: Seq<char>) -> CommandLineView {
    CommandLineView {
        program: bridge,
        args: seq!["--chain"@, chain_spec, "--rpc-cors=all"@, "--log=debug"@],
    }
}

/// The command that asks the process with the given identifier to
/// terminate gracefully.
pub open spec fn terminate_command(pid: u32) -> CommandLineView {
    CommandLineView { program: "kill"@, args: seq!["-s"@, "TERM"@, decimal(pid as nat)] }
}

/// Builds the command that starts the block-producing node.
pub fn launch_node(node: &str, chain_spec: &str, block_time_ms: u64) -> (command: CommandLine)
    ensures
        command@ == node_command(node@, chain_spec@, block_time_ms),
{
    let mut args: Vec<String> = Vec::new();
    args.push(String::from_str("--chain"));
    args.push(String::from_str(chain_spec));
    args.push(String::from_str("--dev-block-time"));
    args.push(render_decimal(block_time_ms));
    assert(texts(args@) =~= node_command(node@, chain_spec@, block_time_ms).args);
    CommandLine { program: String::from_str(node), args }
}

/// Builds the command that starts the RPC bridge.
pub fn launch_rpc_bridge(bridge: &str, chain_spec: &str) -> (command: CommandLine)
    ensures
        command@ == rpc_bridge_command(bridge@, chain_spec@),
{
    let mut args: Vec<String> = Vec::new();
    args.push(String::from_str("--chain"));
    args.push(String::from_str(chain_spec));
    args.push(String::from_str("--rpc-cors=all"));
    args.push(String::from_str("--log=debug"));
    assert(texts(args@) =~= rpc_bridge_command(bridge@, chain_spec@).args);
    CommandLine { program: String::from_str(bridge), args }
}

/// Builds the command that asks a process to terminate gracefully.
pub fn terminate_process(pid: u32) -> (command: CommandLine)
    ensures
        command@ == terminate_command(pid),
{
    let mut args: Vec<String> = Vec::new();
    args.push(String::from_str("-s"));
    args.push(String::from_str("TERM"));
    args.push(render_decimal(pid as u64));
    assert(texts(args@) =~= terminate_command(pid).args);
    CommandLine { program: String::from_str("kill"), args }
}

} // verus!
