//! What to run, and how it is invoked.

use vstd::prelude::*;

verus! {

/// The command that a check runs.
#[derive(Clone, Debug, PartialEq, Eq)]
pub enum FlycheckConfig {
    /// A subcommand of cargo, such as `check` or `clippy`.
    CargoCommand {
        command: String,
        all_targets: bool,
        all_features: bool,
        features: Vec<String>,
        extra_args: Vec<String>,
    },
    /// Any program whose output has cargo's JSON message format.
    CustomCommand { command: String, args: Vec<String> },
}

/// The words of a sequence joined by single spaces.
pub open spec fn spec_join(words: Seq<Seq<char>>) -> Seq<char>
    decreases words.len(),
{
    if words.len() == 0 {
        Seq::empty()
    } else if words.len() == 1 {
        words[0]
    } else {
        spec_join(words.drop_last()) + seq![' '] + words.last()
    }
}

/// The views of a sequence of strings.
pub open spec fn spec_strings(v: Seq<String>) -> Seq<Seq<char>> {
    v.map_values(|s: String| s@)
}

/// Joins strings with single spaces between them.
pub fn join_words(words: &Vec<String>) -> (r: String)
    ensures
        r@ == spec_join(spec_strings(words@)),
{
    let mut r = String::new();
    let mut i: usize = 0;
    while i < words.len()
        invariant
            i <= words@.len(),
            r@ == spec_join(spec_strings(words@.take(i as int))),
        decreases words@.len() - i,
    {
        let ghost before = spec_strings(words@.take(i as int));
        proof {
            reveal_strlit(" ");
        }
        if i > 0 {
            r.append(" ");
        }
        r.append(words[i].as_str());
        proof {
            let after = spec_strings(words@.take(i + 1));
            assert(after.drop_last() =~= before);
            assert(after.last() == words@[i as int]@);
            if i == 0 {
                assert(before.len() == 0);
                assert(after.len() == 1);
            } else {
                assert(after.len() >= 2);
                assert(spec_join(after) == spec_join(before) + seq![' '] + words@[i as int]@);
            }
        }
        i = i + 1;
    }
    proof {
        assert(words@.take(i as int) =~= words@);
    }
    r
}

impl FlycheckConfig {
    /// How the command reads for a person.
    pub open spec fn spec_describe(&self) -> Seq<char> {
        match self {
            FlycheckConfig::CargoCommand { command, .. } => seq!['c', 'a', 'r', 'g', 'o', ' '] + command@,
            FlycheckConfig::CustomCommand { command, args } => command@ + seq![' '] + spec_join(
                spec_strings(args@),
            ),
        }
    }

    /// How the command reads for a person: `cargo check`, or the program
    /// and its arguments.
    pub fn describe(&self) -> (r: String)
        ensures
            r@ == self.spec_describe(),
    {
        match self {
            FlycheckConfig::CargoCommand { command, .. } => {
                proof {
                    reveal_strlit("cargo ");
                }
                let mut r = String::from_str("cargo ");
                r.append(command.as_str());
                assert(r@ =~= self.spec_describe());
                r
            },
            FlycheckConfig::CustomCommand { command, args } => {
                proof {
                    reveal_strlit(" ");
                }
                let mut r = command.clone();
                r.append(" ");
                let joined = join_words(args);
                r.append(joined.as_str());
                assert(r@ =~= self.spec_describe());
                r
            },
        }
    }
}

} // verus!

verus! {

/// One argument of an invocation.
#[derive(Clone, Debug, PartialEq, Eq)]
pub enum Arg {
    Text(String),
    /// The path of the workspace's `Cargo.toml`.
    ManifestPath,
}

/// An argument as a value.
pub enum ArgView {
    Text(Seq<char>),
    ManifestPath,
}

impl Arg {
    pub open spec fn view(&self) -> ArgView {
        match self {
            Arg::Text(s) => ArgView::Text(s@),
            Arg::ManifestPath => ArgView::ManifestPath,
        }
    }
}

/// The views of a sequence of arguments.
pub open spec fn spec_arg_views(v: Seq<Arg>) -> Seq<ArgView> {
    v.map_values(|a: Arg| a.view())
}

/// Strings taken as arguments.
pub open spec fn spec_texts(v: Seq<String>) -> Seq<ArgView> {
    v.map_values(|s: String| ArgView::Text(s@))
}

/// The program that an invocation runs.
#[derive(Clone, Debug, PartialEq, Eq)]
pub enum Program {
    /// Cargo, wherever the toolchain has it.
    Cargo,
    /// A program given by name or path.
    Named(String),
}

/// A process to start, in the workspace's root directory.
#[derive(Clone, Debug, PartialEq, Eq)]
pub struct Invocation {
    pub program: Program,
    pub args: Vec<Arg>,
}

fn push_texts(args: &mut Vec<Arg>, more: &Vec<String>)
    ensures
        spec_arg_views(final(args)@) == spec_arg_views(old(args)@) + spec_texts(more@),
{
    let ghost start = spec_arg_views(args@);
    let mut i: usize = 0;
    while i < more.len()
        invariant
            i <= more@.len(),
            spec_arg_views(args@) == start + spec_texts(more@.take(i as int)),
        decreases more@.len() - i,
    {
        let ghost before = args@;
        args.push(Arg::Text(more[i].clone()));
        proof {
            assert(spec_arg_views(args@) =~= spec_arg_views(before).push(ArgView::Text(more@[i as int]@)));
            assert(spec_texts(more@.take(i + 1)) =~= spec_texts(more@.take(i as int)).push(
                ArgView::Text(more@[i as int]@),
            ));
        }
        i = i + 1;
    }
    proof {
        assert(more@.take(i as int) =~= more@);
    }
}

fn push_literal(args: &mut Vec<Arg>, s: &str)
    ensures
        spec_arg_views(final(args)@) == spec_arg_views(old(args)@).push(ArgView::Text(s@)),
{
    let ghost before = args@;
    args.push(Arg::Text(String::from_str(s)));
    assert(spec_arg_views(args@) =~= spec_arg_views(before).push(ArgView::Text(s@)));
}

impl FlycheckConfig {
    /// The arguments of the command.
    pub open spec fn spec_args(&self) -> Seq<ArgView> {
        match self {
            FlycheckConfig::CargoCommand { command, all_targets, all_features, features, extra_args } => {
                seq![
                    ArgView::Text(command@),
                    ArgView::Text("--workspace"@),
                    ArgView::Text("--message-format=json"@),
                    ArgView::Text("--manifest-path"@),
                    ArgView::ManifestPath,
                ] + (if *all_targets {
                    seq![ArgView::Text("--all-targets"@)]
                } else {
                    Seq::empty()
                }) + (if *all_features {
                    seq![ArgView::Text("--all-features"@)]
                } else if features.len() > 0 {
                    seq![ArgView::Text("--features"@), ArgView::Text(spec_join(spec_strings(features@)))]
                } else {
                    Seq::empty()
                }) + spec_texts(extra_args@)
            },
            FlycheckConfig::CustomCommand { args, .. } => spec_texts(args@),
        }
    }

    /// How the command is invoked: cargo with the subcommand, the JSON
    /// message format and the workspace's manifest, then the options; or the
    /// custom program with its arguments.
    pub fn invocation(&self) -> (r: Invocation)
        ensures
            spec_arg_views(r.args@) == self.spec_args(),
            match self {
                FlycheckConfig::CargoCommand { .. } => r.program == Program::Cargo,
                FlycheckConfig::CustomCommand { command, .. } => r.program == Program::Named(*command),
            },
    {
        match self {
            FlycheckConfig::CargoCommand { command, all_targets, all_features, features, extra_args } => {
                let mut args: Vec<Arg> = Vec::new();
                args.push(Arg::Text(command.clone()));
                push_literal(&mut args, "--workspace");
                push_literal(&mut args, "--message-format=json");
                push_literal(&mut args, "--manifest-path");
                let ghost before = args@;
                args.push(Arg::ManifestPath);
                assert(spec_arg_views(args@) =~= spec_arg_views(before).push(ArgView::ManifestPath));
                let ghost head = spec_arg_views(args@);
                if *all_targets {
                    push_literal(&mut args, "--all-targets");
                }
                let ghost targets = spec_arg_views(args@);
                if *all_features {
                    push_literal(&mut args, "--all-features");
                } else if features.len() > 0 {
                    push_literal(&mut args, "--features");
                    let joined = join_words(features);
                    let ghost before = args@;
                    args.push(Arg::Text(joined));
                    assert(spec_arg_views(args@) =~= spec_arg_views(before).push(
                        ArgView::Text(spec_join(spec_strings(features@))),
                    ));
                }
                let ghost opts = spec_arg_views(args@);
                push_texts(&mut args, extra_args);
                proof {
                    let base = seq![
                        ArgView::Text(command@),
                        ArgView::Text("--workspace"@),
                        ArgView::Text("--message-format=json"@),
                        ArgView::Text("--manifest-path"@),
                        ArgView::ManifestPath,
                    ];
                    assert(head =~= base);
                    assert(spec_arg_views(args@) =~= self.spec_args());
                }
                Invocation { program: Program::Cargo, args }
            },
            FlycheckConfig::CustomCommand { command, args } => {
                let mut out: Vec<Arg> = Vec::new();
                push_texts(&mut out, args);
                assert(spec_arg_views(out@) =~= self.spec_args());
                Invocation { program: Program::Named(command.clone()), args: out }
            },
        }
    }
}

} // verus!
