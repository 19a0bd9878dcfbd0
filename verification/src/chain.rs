//! The two one-shot steps that prepare the chain before any service starts.

use crate::command::{decimal, render_decimal, texts, CommandLine, CommandLineView};
use vstd::prelude::*;

verus! {

/// The command that writes a chain specification for the given runtime,
/// parachain id, relay chain and preset.
pub open spec fn generate_command(
    builder: Seq<char>,
    runtime: Seq<char>,
    para_id: u32,
    relay_chain: Seq<char>,
    preset: Seq<char>,
) -> CommandLineView {
    CommandLineView {
        program: builder,
        args: seq![
            "create"@,
            "--runtime"@,
            runtime,
            "--para-id"@,
            decimal(para_id as nat),
            "--relay-chain"@,
            relay_chain,
            "named-preset"@,
            preset,
        ],
    }
}

/// The command that purges the chain state kept for a chain specification,
/// answering the confirmation prompt in advance.
pub open spec fn purge_command(node: Seq<char>, chain_spec: Seq<char>) -> CommandLineView {
    CommandLineView { program: node, args: seq!["purge-chain"@, "--chain"@, chain_spec, "-y"@] }
}

/// Builds the command that generates the chain specification.
pub fn generate_chain_spec(
    builder: &str,
    runtime: &str,
    para_id: u32,
    relay_chain: &str,
    preset: &str,
) -> (command: CommandLine)
    ensures
        command@ == generate_command(builder@, runtime@, para_id, relay_chain@, preset@),
{
    let mut args: Vec<String> = Vec::new();
    args.push(String::from_str("create"));
    args.push(String::from_str("--runtime"));
    args.push(String::from_str(runtime));
    args.push(String::from_str("--para-id"));
    args.push(render_decimal(para_id as u64));
    args.push(String::from_str("--relay-chain"));
    args.push(String::from_str(relay_chain));
    args.push(String::from_str("named-preset"));
    args.push(String::from_str(preset));
    assert(texts(args@) =~= generate_command(
        builder@,
        runtime@,
        para_id,
        relay_chain@,
        preset@,
    ).args);
    CommandLine { program: String::from_str(builder), args }
}

/// Builds the command that purges earlier chain state.
pub fn purge_chain_data(node: &str, chain_spec: &str) -> (command: CommandLine)
    ensures
        command@ == purge_command(node@, chain_spec@),
{
    let mut args: Vec<String> = Vec::new();
    args.push(String::from_str("purge-chain"));
    args.push(String::from_str("--chain"));
    args.push(String::from_str(chain_spec));
    args.push(String::from_str("-y"));
    assert(texts(args@) =~= purge_command(node@, chain_spec@).args);
    CommandLine { program: String::from_str(node), args }
}

} // verus!
