//! The plugin itself: its configuration, the flags it hands to cargo, and
//! the flags it adds to each compiler invocation.

use vstd::prelude::*;
use crate::probe::{host_triple_of, parse_host_triple, ProbeError};

verus! {

/// The text of each string, in order.
pub open spec fn texts(v: Seq<String>) -> Seq<Seq<char>> {
    v.map_values(|s: String| s@)
}

/// The cargo flag that rebuilds the standard library from source.
pub open spec fn build_std_flag() -> Seq<char> {
    seq!['-', 'Z', 'b', 'u', 'i', 'l', 'd', '-', 's', 't', 'd']
}

/// The start of the cargo flag that names the target platform.
pub open spec fn target_flag_prefix() -> Seq<char> {
    seq!['-', '-', 't', 'a', 'r', 'g', 'e', 't', '=']
}

/// The compiler flag that keeps the mid-level IR of every crate.
pub open spec fn encode_mir_flag() -> Seq<char> {
    seq!['-', 'Z', 'a', 'l', 'w', 'a', 'y', 's', '-', 'e', 'n', 'c', 'o', 'd', 'e', '-', 'm', 'i', 'r']
}

/// The name of the driver binary.
pub open spec fn driver_name_text() -> Seq<char> {
    seq![
        's', 't', 'a', 'b', 'l', 'e', '-', 'p', 'l', 'u', 'g', 'i', 'n', '-', 'd', 'r', 'i', 'v',
        'e', 'r',
    ]
}

/// The cargo flags for target `target`: the standard library rebuild, the
/// target, then the forwarded arguments, last and in their order.
pub open spec fn cargo_flags_of(target: Seq<char>, forwarded: Seq<Seq<char>>) -> Seq<Seq<char>> {
    seq![build_std_flag(), target_flag_prefix() + target] + forwarded
}

/// Which crates of the build graph the plugin analyses.
#[derive(Debug, Clone, PartialEq, Eq)]
pub enum CrateSelection {
    /// Every crate that cargo compiles.
    AllCrates,
    /// Only the target that holds this source file.
    SpecificCrate(String),
}

/// The plugin's arguments: what follows the separator on its command line,
/// handed to cargo as it stands.
#[derive(Debug, Clone)]
pub struct StablePluginArgs {
    pub cargo_args: Vec<String>,
}

/// The plugin. It analyses all crates and keeps no state of its own.
#[derive(Debug, Clone, Copy)]
pub struct StablePlugin;

/// A copy of `v` made one string at a time.
fn copy_strings(v: &Vec<String>) -> (r: Vec<String>)
    ensures
        r@ == v@,
{
    let mut r: Vec<String> = Vec::new();
    let mut i: usize = 0;
    while i < v.len()
        invariant
            i <= v@.len(),
            r@ == v@.take(i as int),
        decreases v@.len() - i,
    {
        r.push(v[i].clone());
        assert(v@.take(i + 1) =~= v@.take(i as int).push(v@[i as int]));
        i = i + 1;
    }
    assert(v@.take(v@.len() as int) =~= v@);
    r
}

/// Appends a copy of each string of `extra` to `v`, in order.
fn append_strings(v: &mut Vec<String>, extra: &Vec<String>)
    ensures
        final(v)@ == old(v)@ + extra@,
{
    let mut i: usize = 0;
    while i < extra.len()
        invariant
            i <= extra@.len(),
            v@ == old(v)@ + extra@.take(i as int),
        decreases extra@.len() - i,
    {
        v.push(extra[i].clone());
        assert(extra@.take(i + 1) =~= extra@.take(i as int).push(extra@[i as int]));
        i = i + 1;
    }
    assert(extra@.take(extra@.len() as int) =~= extra@);
}

impl StablePluginArgs {
    /// Arguments that forward `cargo_args` to cargo.
    pub fn new(cargo_args: Vec<String>) -> (r: Self)
        ensures
            r.cargo_args == cargo_args,
    {
        StablePluginArgs { cargo_args }
    }
}

impl StablePlugin {
    /// The name of the driver binary that cargo runs in place of the compiler.
    pub fn driver_name(&self) -> (r: String)
        ensures
            r@ == driver_name_text(),
    {
        let r = String::from_str("stable-plugin-driver");
        proof {
            reveal_strlit("stable-plugin-driver");
        }
        assert(r@ =~= driver_name_text());
        r
    }

    /// The crates to analyse: all of them.
    pub fn crate_selection(&self) -> (r: CrateSelection)
        ensures
            r == CrateSelection::AllCrates,
    {
        CrateSelection::AllCrates
    }

    /// The cargo flags for target `target` and arguments `args`: the standard
    /// library rebuild, `--target=<target>`, then the forwarded arguments.
    pub fn cargo_flags(&self, target: &str, args: &StablePluginArgs) -> (r: Vec<String>)
        requires
            target@.len() > 0,
        ensures
            texts(r@) == cargo_flags_of(target@, texts(args.cargo_args@)),
    {
        let mut r: Vec<String> = Vec::new();
        r.push(String::from_str("-Zbuild-std"));
        r.push(String::from_str("--target=").concat(target));
        append_strings(&mut r, &args.cargo_args);
        proof {
            reveal_strlit("-Zbuild-std");
            reveal_strlit("--target=");
            assert("-Zbuild-std"@ =~= build_std_flag());
            assert("--target="@ =~= target_flag_prefix());
            assert(texts(r@) =~= cargo_flags_of(target@, texts(args.cargo_args@)));
        }
        r
    }

    /// Adds to `cargo` the flags for the host that `report` (the output of
    /// `rustc -vV`) names, as `cargo_flags` gives them. Where the report names
    /// no host, `cargo` is left as it was and the error says why.
    pub fn modify_cargo(&self, cargo: &mut Vec<String>, report: &str, args: &StablePluginArgs) -> (r:
        Result<(), ProbeError>)
        ensures
            match host_triple_of(report@) {
                None => r == Err::<(), ProbeError>(ProbeError::MissingHostLine) && final(cargo)@
                    == old(cargo)@,
                Some(t) => if t.len() == 0 {
                    r == Err::<(), ProbeError>(ProbeError::EmptyTriple) && final(cargo)@ == old(
                        cargo,
                    )@
                } else {
                    r is Ok && texts(final(cargo)@) == texts(old(cargo)@) + cargo_flags_of(
                        t,
                        texts(args.cargo_args@),
                    )
                },
            },
    {
        match parse_host_triple(report) {
            Err(e) => Err(e),
            Ok(target) => {
                let flags = self.cargo_flags(target.as_str(), args);
                let ghost before = cargo@;
                append_strings(cargo, &flags);
                assert(texts(cargo@) =~= texts(before) + texts(flags@));
                Ok(())
            },
        }
    }

    /// The compiler arguments with the flag that keeps the mid-level IR of
    /// every crate added last.
    pub fn compiler_args(&self, compiler_args: &Vec<String>) -> (r: Vec<String>)
        ensures
            texts(r@) == texts(compiler_args@).push(encode_mir_flag()),
    {
        let mut r = copy_strings(compiler_args);
        r.push(String::from_str("-Zalways-encode-mir"));
        proof {
            reveal_strlit("-Zalways-encode-mir");
            assert("-Zalways-encode-mir"@ =~= encode_mir_flag());
            assert(texts(r@) =~= texts(compiler_args@).push(encode_mir_flag()));
        }
        r
    }
}

/// The cargo flags are exactly the standard library rebuild, then the target
/// flag for `target`, then the forwarded arguments: these come last, all of
/// them, and in their own order.
pub proof fn lemma_forwarded_args_last(target: Seq<char>, forwarded: Seq<Seq<char>>)
    ensures
        cargo_flags_of(target, forwarded).len() == forwarded.len() + 2,
        cargo_flags_of(target, forwarded)[0] == build_std_flag(),
        cargo_flags_of(target, forwarded)[1] == target_flag_prefix() + target,
        cargo_flags_of(target, forwarded).subrange(2, forwarded.len() + 2int) == forwarded,
{
    assert(cargo_flags_of(target, forwarded).subrange(2, forwarded.len() + 2int) =~= forwarded);
}

} // verus!
