//! Arguments of the `gunzip` tool.

use crate::gzip::cli::{is_option, push_file, spec_file_views};
use crate::gzip::config::{CliConfig, OperationMode};
use vstd::prelude::*;

verus! {

/// The configuration `gunzip` starts from: decompress, default level.
pub open spec fn spec_initial() -> CliConfig {
    CliConfig {
        mode: OperationMode::Decompress,
        keep: false,
        force: false,
        verbose: false,
        stdout: false,
        level: None,
    }
}

/// The effect of one argument of `gunzip`.
pub open spec fn spec_step(st: (CliConfig, Seq<Seq<char>>, nat), arg: Seq<char>) -> (
    CliConfig,
    Seq<Seq<char>>,
    nat,
) {
    let (c, files, lists) = st;
    if arg == "-f"@ || arg == "--force"@ {
        (CliConfig { force: true, ..c }, files, lists)
    } else if arg == "-k"@ || arg == "--keep"@ {
        (CliConfig { keep: true, ..c }, files, lists)
    } else if arg == "-v"@ || arg == "--verbose"@ {
        (CliConfig { verbose: true, ..c }, files, lists)
    } else if arg == "-c"@ || arg == "--stdout"@ {
        (CliConfig { stdout: true, ..c }, files, lists)
    } else if arg == "-t"@ || arg == "--test"@ {
        (CliConfig { mode: OperationMode::Test, ..c }, files, lists)
    } else if arg == "-l"@ || arg == "--list"@ {
        (c, files, lists + 1)
    } else {
        (c, files.push(arg), lists)
    }
}

/// The configuration, files and number of `--list` requests given by the arguments.
pub open spec fn spec_parse(args: Seq<String>) -> (CliConfig, Seq<Seq<char>>, nat)
    decreases args.len(),
{
    if args.len() == 0 {
        (spec_initial(), Seq::<Seq<char>>::empty(), 0)
    } else {
        spec_step(spec_parse(args.drop_last()), args.last()@)
    }
}

/// Parse the arguments of `gunzip`: options set the configuration and every
/// other argument names a file. Returns how many times `--list` (which is not
/// supported) was asked for.
pub fn parse_args(args: &[String]) -> (r: (CliConfig, Vec<String>, usize))
    ensures
        r.0 == spec_parse(args@).0,
        spec_file_views(r.1@) == spec_parse(args@).1,
        r.2 == spec_parse(args@).2,
{
    let mut config = CliConfig {
        mode: OperationMode::Decompress,
        keep: false,
        force: false,
        verbose: false,
        stdout: false,
        level: None,
    };
    let mut files: Vec<String> = Vec::new();
    let mut lists: usize = 0;
    let mut i: usize = 0;
    proof {
        assert(args@.subrange(0, 0) =~= Seq::<String>::empty());
        assert(spec_file_views(files@) =~= Seq::<Seq<char>>::empty());
    }
    while i < args.len()
        invariant
            i <= args@.len(),
            lists <= i,
            (config, spec_file_views(files@), lists as nat) == spec_parse(args@.subrange(0, i as int)),
        decreases args@.len() - i,
    {
        let arg = &args[i];
        let a = arg.as_str();
        proof {
            assert(args@.subrange(0, i + 1).drop_last() =~= args@.subrange(0, i as int));
        }
        if is_option(a, "-f", "--force") {
            config.force = true;
        } else if is_option(a, "-k", "--keep") {
            config.keep = true;
        } else if is_option(a, "-v", "--verbose") {
            config.verbose = true;
        } else if is_option(a, "-c", "--stdout") {
            config.stdout = true;
        } else if is_option(a, "-t", "--test") {
            config.mode = OperationMode::Test;
        } else if is_option(a, "-l", "--list") {
            lists = lists + 1;
        } else {
            push_file(&mut files, arg);
        }
        i = i + 1;
    }
    proof {
        assert(args@.subrange(0, args@.len() as int) =~= args@);
    }
    (config, files, lists)
}

/// Whatever its arguments, `gunzip` decompresses or tests; it never compresses
/// and sets no compression level.
pub proof fn lemma_gunzip_never_compresses(args: Seq<String>)
    ensures
        spec_parse(args).0.mode == OperationMode::Decompress || spec_parse(args).0.mode
            == OperationMode::Test,
        spec_parse(args).0.level is None,
    decreases args.len(),
{
    if args.len() > 0 {
        lemma_gunzip_never_compresses(args.drop_last());
    }
}

proof fn lemma_option_literals()
    ensures
        "-f"@.len() == 2,
        "-f"@[0] == '-',
        "-f"@[1] == 'f',
        "--force"@.len() == 7,
        "--force"@[0] == '-',
        "--force"@[1] == '-',
        "--force"@[2] == 'f',
        "--force"@[3] == 'o',
        "--force"@[4] == 'r',
        "--force"@[5] == 'c',
        "--force"@[6] == 'e',
        "-k"@.len() == 2,
        "-k"@[0] == '-',
        "-k"@[1] == 'k',
        "--keep"@.len() == 6,
        "--keep"@[0] == '-',
        "--keep"@[1] == '-',
        "--keep"@[2] == 'k',
        "--keep"@[3] == 'e',
        "--keep"@[4] == 'e',
        "--keep"@[5] == 'p',
        "-v"@.len() == 2,
        "-v"@[0] == '-',
        "-v"@[1] == 'v',
        "--verbose"@.len() == 9,
        "--verbose"@[0] == '-',
        "--verbose"@[1] == '-',
        "--verbose"@[2] == 'v',
        "--verbose"@[3] == 'e',
        "--verbose"@[4] == 'r',
        "--verbose"@[5] == 'b',
        "--verbose"@[6] == 'o',
        "--verbose"@[7] == 's',
        "--verbose"@[8] == 'e',
        "-c"@.len() == 2,
        "-c"@[0] == '-',
        "-c"@[1] == 'c',
        "--stdout"@.len() == 8,
        "--stdout"@[0] == '-',
        "--stdout"@[1] == '-',
        "--stdout"@[2] == 's',
        "--stdout"@[3] == 't',
        "--stdout"@[4] == 'd',
        "--stdout"@[5] == 'o',
        "--stdout"@[6] == 'u',
        "--stdout"@[7] == 't',
        "-t"@.len() == 2,
        "-t"@[0] == '-',
        "-t"@[1] == 't',
        "--test"@.len() == 6,
        "--test"@[0] == '-',
        "--test"@[1] == '-',
        "--test"@[2] == 't',
        "--test"@[3] == 'e',
        "--test"@[4] == 's',
        "--test"@[5] == 't',
        "-l"@.len() == 2,
        "-l"@[0] == '-',
        "-l"@[1] == 'l',
        "--list"@.len() == 6,
        "--list"@[0] == '-',
        "--list"@[1] == '-',
        "--list"@[2] == 'l',
        "--list"@[3] == 'i',
        "--list"@[4] == 's',
        "--list"@[5] == 't',
{
    reveal_strlit("-f");
    reveal_strlit("--force");
    reveal_strlit("-k");
    reveal_strlit("--keep");
    reveal_strlit("-v");
    reveal_strlit("--verbose");
    reveal_strlit("-c");
    reveal_strlit("--stdout");
    reveal_strlit("-t");
    reveal_strlit("--test");
    reveal_strlit("-l");
    reveal_strlit("--list");
}

/// The short and the long spelling of each `gunzip` option.
pub open spec fn spec_option_spellings(short: Seq<char>, long: Seq<char>) -> bool {
    ||| short == "-f"@ && long == "--force"@
    ||| short == "-k"@ && long == "--keep"@
    ||| short == "-v"@ && long == "--verbose"@
    ||| short == "-c"@ && long == "--stdout"@
    ||| short == "-t"@ && long == "--test"@
    ||| short == "-l"@ && long == "--list"@
}

/// Whether an argument is an option of `gunzip` rather than a file.
pub open spec fn spec_is_option_arg(a: Seq<char>) -> bool {
    a == "-f"@ || a == "--force"@ || a == "-k"@ || a == "--keep"@ || a == "-v"@ || a == "--verbose"@ || a == "-c"@ || a == "--stdout"@ || a == "-t"@ || a == "--test"@ || a == "-l"@ || a == "--list"@
}

proof fn lemma_spellings_step_alike(st: (CliConfig, Seq<Seq<char>>, nat), short: Seq<char>, long: Seq<char>)
    requires
        spec_option_spellings(short, long),
    ensures
        spec_step(st, long) == spec_step(st, short),
{
    lemma_option_literals();
    if short == "-f"@ && long == "--force"@ {
        assert(spec_step(st, short) == (CliConfig { force: true, ..st.0 }, st.1, st.2));
        assert(spec_step(st, long) == (CliConfig { force: true, ..st.0 }, st.1, st.2));
    }
    if short == "-k"@ && long == "--keep"@ {
        assert(spec_step(st, short) == (CliConfig { keep: true, ..st.0 }, st.1, st.2));
        assert(spec_step(st, long) == (CliConfig { keep: true, ..st.0 }, st.1, st.2));
    }
    if short == "-v"@ && long == "--verbose"@ {
        assert(spec_step(st, short) == (CliConfig { verbose: true, ..st.0 }, st.1, st.2));
        assert(spec_step(st, long) == (CliConfig { verbose: true, ..st.0 }, st.1, st.2));
    }
    if short == "-c"@ && long == "--stdout"@ {
        assert(spec_step(st, short) == (CliConfig { stdout: true, ..st.0 }, st.1, st.2));
        assert(spec_step(st, long) == (CliConfig { stdout: true, ..st.0 }, st.1, st.2));
    }
    if short == "-t"@ && long == "--test"@ {
        assert(spec_step(st, short) == (CliConfig { mode: OperationMode::Test, ..st.0 }, st.1, st.2));
        assert(spec_step(st, long) == (CliConfig { mode: OperationMode::Test, ..st.0 }, st.1, st.2));
    }
    if short == "-l"@ && long == "--list"@ {
        assert(spec_step(st, short) == (st.0, st.1, st.2 + 1));
        assert(spec_step(st, long) == (st.0, st.1, st.2 + 1));
    }
}

/// Whatever comes before and after it, the long spelling of an option has the
/// same effect as its short spelling.
pub proof fn lemma_long_option_acts_as_short(
    pre: Seq<String>,
    post: Seq<String>,
    short: String,
    long: String,
)
    requires
        spec_option_spellings(short@, long@),
    ensures
        spec_parse(pre.push(long) + post) == spec_parse(pre.push(short) + post),
    decreases post.len(),
{
    let a = pre.push(long) + post;
    let b = pre.push(short) + post;
    if post.len() == 0 {
        assert(a =~= pre.push(long));
        assert(b =~= pre.push(short));
        assert(pre.push(long).drop_last() =~= pre);
        assert(pre.push(short).drop_last() =~= pre);
        lemma_spellings_step_alike(spec_parse(pre), short@, long@);
    } else {
        assert(a.drop_last() =~= pre.push(long) + post.drop_last());
        assert(b.drop_last() =~= pre.push(short) + post.drop_last());
        lemma_long_option_acts_as_short(pre, post.drop_last(), short, long);
    }
}

/// The files of a `gunzip` command line are exactly its arguments that are
/// not options, in the order given.
pub proof fn lemma_files_are_the_non_options(args: Seq<String>)
    ensures
        spec_parse(args).1 == spec_file_views(args).filter(|a: Seq<char>| !spec_is_option_arg(a)),
    decreases args.len(),
{
    reveal(Seq::filter);
    if args.len() == 0 {
        assert(spec_file_views(args) =~= Seq::<Seq<char>>::empty());
    } else {
        lemma_files_are_the_non_options(args.drop_last());
        assert(spec_file_views(args).drop_last() =~= spec_file_views(args.drop_last()));
        assert(spec_file_views(args).last() == args.last()@);
    }
}

} // verus!
