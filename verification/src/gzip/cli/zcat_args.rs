//! Arguments of the `zcat` tool.

use crate::gzip::cli::{is_option, push_file, spec_file_views};
use crate::gzip::config::{CliConfig, OperationMode};
use vstd::prelude::*;

verus! {

/// The configuration `zcat` starts from: decompress to standard output and keep inputs.
pub open spec fn spec_initial() -> CliConfig {
    CliConfig {
        mode: OperationMode::Cat,
        stdout: true,
        keep: true,
        force: false,
        verbose: false,
        level: None,
    }
}

/// The effect of one argument of `zcat`.
pub open spec fn spec_step(st: (CliConfig, Seq<Seq<char>>), arg: Seq<char>) -> (
    CliConfig,
    Seq<Seq<char>>,
) {
    let (c, files) = st;
    if arg == "-v"@ || arg == "--verbose"@ {
        (CliConfig { verbose: true, ..c }, files)
    } else {
        (c, files.push(arg))
    }
}

/// The configuration and files given by the arguments.
pub open spec fn spec_parse(args: Seq<String>) -> (CliConfig, Seq<Seq<char>>)
    decreases args.len(),
{
    if args.len() == 0 {
        (spec_initial(), Seq::<Seq<char>>::empty())
    } else {
        spec_step(spec_parse(args.drop_last()), args.last()@)
    }
}

/// Parse the arguments of `zcat`: `-v` makes it verbose and every other
/// argument names a file.
pub fn parse_args(args: &[String]) -> (r: (CliConfig, Vec<String>))
    ensures
        r.0 == spec_parse(args@).0,
        spec_file_views(r.1@) == spec_parse(args@).1,
{
    let mut config = CliConfig {
        mode: OperationMode::Cat,
        stdout: true,
        keep: true,
        force: false,
        verbose: false,
        level: None,
    };
    let mut files: Vec<String> = Vec::new();
    let mut i: usize = 0;
    proof {
        assert(args@.subrange(0, 0) =~= Seq::<String>::empty());
        assert(spec_file_views(files@) =~= Seq::<Seq<char>>::empty());
    }
    while i < args.len()
        invariant
            i <= args@.len(),
            (config, spec_file_views(files@)) == spec_parse(args@.subrange(0, i as int)),
        decreases args@.len() - i,
    {
        let arg = &args[i];
        let a = arg.as_str();
        proof {
            assert(args@.subrange(0, i + 1).drop_last() =~= args@.subrange(0, i as int));
        }
        if is_option(a, "-v", "--verbose") {
            config.verbose = true;
        } else {
            push_file(&mut files, arg);
        }
        i = i + 1;
    }
    proof {
        assert(args@.subrange(0, args@.len() as int) =~= args@);
    }
    (config, files)
}

/// Whatever its arguments, `zcat` decompresses to standard output and keeps
/// its inputs.
pub proof fn lemma_zcat_streams_and_keeps(args: Seq<String>)
    ensures
        spec_parse(args).0.mode == OperationMode::Cat,
        spec_parse(args).0.stdout,
        spec_parse(args).0.keep,
        !spec_parse(args).0.force,
        spec_parse(args).0.level is None,
    decreases args.len(),
{
    if args.len() > 0 {
        lemma_zcat_streams_and_keeps(args.drop_last());
    }
}

proof fn lemma_option_literals()
    ensures
        "-v"@.len() == 2,
        "-v"@[0] == '-',
        "-v"@[1] == 'v',
        "--verbose"@.len() == 9,
        "--verbose"@[0] == '-',
        "--verbose"@[1] == '-',
        "--verbose"@[2] == 'v',
        "--verbose"@[3] == 'e',
        "--verbose"@[4] == 'r',
        "--verbose"@[5] == 'b',
        "--verbose"@[6] == 'o',
        "--verbose"@[7] == 's',
        "--verbose"@[8] == 'e',
{
    reveal_strlit("-v");
    reveal_strlit("--verbose");
}

/// Whether an argument is an option of `zcat` rather than a file.
pub open spec fn spec_is_option_arg(a: Seq<char>) -> bool {
    a == "-v"@ || a == "--verbose"@
}

/// Whatever comes before and after it, `--verbose` has the same effect as `-v`.
pub proof fn lemma_long_option_acts_as_short(
    pre: Seq<String>,
    post: Seq<String>,
    short: String,
    long: String,
)
    requires
        short@ == "-v"@,
        long@ == "--verbose"@,
    ensures
        spec_parse(pre.push(long) + post) == spec_parse(pre.push(short) + post),
    decreases post.len(),
{
    lemma_option_literals();
    let a = pre.push(long) + post;
    let b = pre.push(short) + post;
    if post.len() == 0 {
        assert(a =~= pre.push(long));
        assert(b =~= pre.push(short));
        assert(pre.push(long).drop_last() =~= pre);
        assert(pre.push(short).drop_last() =~= pre);
    } else {
        assert(a.drop_last() =~= pre.push(long) + post.drop_last());
        assert(b.drop_last() =~= pre.push(short) + post.drop_last());
        lemma_long_option_acts_as_short(pre, post.drop_last(), short, long);
    }
}

/// The files of a `zcat` command line are exactly its arguments that are not
/// options, in the order given.
pub proof fn lemma_files_are_the_non_options(args: Seq<String>)
    ensures
        spec_parse(args).1 == spec_file_views(args).filter(|a: Seq<char>| !spec_is_option_arg(a)),
    decreases args.len(),
{
    reveal(Seq::filter);
    if args.len() == 0 {
        assert(spec_file_views(args) =~= Seq::<Seq<char>>::empty());
    } else {
        lemma_files_are_the_non_options(args.drop_last());
        assert(spec_file_views(args).drop_last() =~= spec_file_views(args.drop_last()));
        assert(spec_file_views(args).last() == args.last()@);
    }
}

} // verus!
