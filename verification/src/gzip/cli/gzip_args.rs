//! Arguments of the `gzip` tool.

use crate::gzip::cli::{is_option, push_file, spec_file_views};
use crate::gzip::config::{CliConfig, OperationMode};
use vstd::prelude::*;

verus! {

/// The configuration `gzip` starts from: compress at level 6.
pub open spec fn spec_initial() -> CliConfig {
    CliConfig {
        mode: OperationMode::Compress,
        level: Some(6),
        keep: false,
        force: false,
        verbose: false,
        stdout: false,
    }
}

/// Whether an argument is a level option `-0` to `-9`.
pub open spec fn spec_is_level_arg(arg: Seq<char>) -> bool {
    arg.len() == 2 && arg[0] == '-' && '0' <= arg[1] <= '9'
}

/// The effect of one argument of `gzip` on the configuration, the files and the
/// number of `--list` requests.
pub open spec fn spec_step(st: (CliConfig, Seq<Seq<char>>, nat), arg: Seq<char>) -> (
    CliConfig,
    Seq<Seq<char>>,
    nat,
) {
    let (c, files, lists) = st;
    if arg == "-f"@ || arg == "--force"@ {
        (CliConfig { force: true, ..c }, files, lists)
    } else if arg == "-k"@ || arg == "--keep"@ {
        (CliConfig { keep: true, ..c }, files, lists)
    } else if arg == "-v"@ || arg == "--verbose"@ {
        (CliConfig { verbose: true, ..c }, files, lists)
    } else if arg == "-c"@ || arg == "--stdout"@ {
        (CliConfig { stdout: true, ..c }, files, lists)
    } else if arg == "-d"@ || arg == "--decompress"@ {
        (CliConfig { mode: OperationMode::Decompress, ..c }, files, lists)
    } else if arg == "-t"@ || arg == "--test"@ {
        (CliConfig { mode: OperationMode::Test, ..c }, files, lists)
    } else if arg == "-l"@ || arg == "--list"@ {
        (c, files, lists + 1)
    } else if spec_is_level_arg(arg) {
        (CliConfig { level: Some((arg[1] as u32 - '0' as u32) as u32), ..c }, files, lists)
    } else if arg == "--fast"@ {
        (CliConfig { level: Some(1), ..c }, files, lists)
    } else if arg == "--best"@ {
        (CliConfig { level: Some(9), ..c }, files, lists)
    } else {
        (c, files.push(arg), lists)
    }
}

/// The configuration, files and number of `--list` requests given by the arguments.
pub open spec fn spec_parse(args: Seq<String>) -> (CliConfig, Seq<Seq<char>>, nat)
    decreases args.len(),
{
    if args.len() == 0 {
        (spec_initial(), Seq::<Seq<char>>::empty(), 0)
    } else {
        spec_step(spec_parse(args.drop_last()), args.last()@)
    }
}

/// Parse the arguments of `gzip`: options set the configuration, level options
/// `-0` to `-9`, `--fast` and `--best` set the level, and every other argument,
/// unknown options included, names a file. Returns how many times `--list`
/// (which is not supported) was asked for.
pub fn parse_args(args: &[String]) -> (r: (CliConfig, Vec<String>, usize))
    ensures
        r.0 == spec_parse(args@).0,
        spec_file_views(r.1@) == spec_parse(args@).1,
        r.2 == spec_parse(args@).2,
{
    let mut config = CliConfig {
        mode: OperationMode::Compress,
        level: Some(6),
        keep: false,
        force: false,
        verbose: false,
        stdout: false,
    };
    let mut files: Vec<String> = Vec::new();
    let mut lists: usize = 0;
    let mut i: usize = 0;
    proof {
        assert(args@.subrange(0, 0) =~= Seq::<String>::empty());
        assert(spec_file_views(files@) =~= Seq::<Seq<char>>::empty());
    }
    while i < args.len()
        invariant
            i <= args@.len(),
            lists <= i,
            (config, spec_file_views(files@), lists as nat) == spec_parse(args@.subrange(0, i as int)),
        decreases args@.len() - i,
    {
        let arg = &args[i];
        let a = arg.as_str();
        proof {
            assert(args@.subrange(0, i + 1).drop_last() =~= args@.subrange(0, i as int));
        }
        if is_option(a, "-f", "--force") {
            config.force = true;
        } else if is_option(a, "-k", "--keep") {
            config.keep = true;
        } else if is_option(a, "-v", "--verbose") {
            config.verbose = true;
        } else if is_option(a, "-c", "--stdout") {
            config.stdout = true;
        } else if is_option(a, "-d", "--decompress") {
            config.mode = OperationMode::Decompress;
        } else if is_option(a, "-t", "--test") {
            config.mode = OperationMode::Test;
        } else if is_option(a, "-l", "--list") {
            lists = lists + 1;
        } else if a.unicode_len() == 2 && a.get_char(0) == '-' && '0' <= a.get_char(1)
            && a.get_char(1) <= '9' {
            let digit = a.get_char(1) as u32 - '0' as u32;
            config.level = Some(digit);
        } else if crate::text::str_eq(a, "--fast") {
            config.level = Some(1);
        } else if crate::text::str_eq(a, "--best") {
            config.level = Some(9);
        } else {
            push_file(&mut files, arg);
        }
        i = i + 1;
    }
    proof {
        assert(args@.subrange(0, args@.len() as int) =~= args@);
    }
    (config, files, lists)
}

/// Whatever its arguments, `gzip` has a compression level from 0 to 9.
pub proof fn lemma_gzip_level_in_range(args: Seq<String>)
    ensures
        spec_parse(args).0.level matches Some(l) && l <= 9,
    decreases args.len(),
{
    if args.len() > 0 {
        lemma_gzip_level_in_range(args.drop_last());
        let arg = args.last()@;
        if spec_is_level_arg(arg) {
            assert(arg[1] as u32 - '0' as u32 <= 9);
        }
    }
}

/// The short and the long spelling of each `gzip` option: `-f`/`--force`,
/// `-k`/`--keep`, `-v`/`--verbose`, `-c`/`--stdout`, `-d`/`--decompress`,
/// `-t`/`--test`, `-l`/`--list`, and the levels `-1`/`--fast`, `-9`/`--best`.
pub open spec fn spec_option_spellings(short: Seq<char>, long: Seq<char>) -> bool {
    ||| short == "-f"@ && long == "--force"@
    ||| short == "-k"@ && long == "--keep"@
    ||| short == "-v"@ && long == "--verbose"@
    ||| short == "-c"@ && long == "--stdout"@
    ||| short == "-d"@ && long == "--decompress"@
    ||| short == "-t"@ && long == "--test"@
    ||| short == "-l"@ && long == "--list"@
    ||| short == "-1"@ && long == "--fast"@
    ||| short == "-9"@ && long == "--best"@
}

/// Whether an argument is an option of `gzip` rather than a file.
pub open spec fn spec_is_option_arg(a: Seq<char>) -> bool {
    ||| a == "-f"@ || a == "--force"@ || a == "-k"@ || a == "--keep"@
    ||| a == "-v"@ || a == "--verbose"@ || a == "-c"@ || a == "--stdout"@
    ||| a == "-d"@ || a == "--decompress"@ || a == "-t"@ || a == "--test"@
    ||| a == "-l"@ || a == "--list"@
    ||| spec_is_level_arg(a)
    ||| a == "--fast"@ || a == "--best"@
}

proof fn lemma_option_literals()
    ensures
        "-f"@.len() == 2,
        "-f"@[0] == '-',
        "-f"@[1] == 'f',
        "--force"@.len() == 7,
        "--force"@[0] == '-',
        "--force"@[1] == '-',
        "--force"@[2] == 'f',
        "--force"@[3] == 'o',
        "--force"@[4] == 'r',
        "--force"@[5] == 'c',
        "--force"@[6] == 'e',
        "-k"@.len() == 2,
        "-k"@[0] == '-',
        "-k"@[1] == 'k',
        "--keep"@.len() == 6,
        "--keep"@[0] == '-',
        "--keep"@[1] == '-',
        "--keep"@[2] == 'k',
        "--keep"@[3] == 'e',
        "--keep"@[4] == 'e',
        "--keep"@[5] == 'p',
        "-v"@.len() == 2,
        "-v"@[0] == '-',
        "-v"@[1] == 'v',
        "--verbose"@.len() == 9,
        "--verbose"@[0] == '-',
        "--verbose"@[1] == '-',
        "--verbose"@[2] == 'v',
        "--verbose"@[3] == 'e',
        "--verbose"@[4] == 'r',
        "--verbose"@[5] == 'b',
        "--verbose"@[6] == 'o',
        "--verbose"@[7] == 's',
        "--verbose"@[8] == 'e',
        "-c"@.len() == 2,
        "-c"@[0] == '-',
        "-c"@[1] == 'c',
        "--stdout"@.len() == 8,
        "--stdout"@[0] == '-',
        "--stdout"@[1] == '-',
        "--stdout"@[2] == 's',
        "--stdout"@[3] == 't',
        "--stdout"@[4] == 'd',
        "--stdout"@[5] == 'o',
        "--stdout"@[6] == 'u',
        "--stdout"@[7] == 't',
        "-d"@.len() == 2,
        "-d"@[0] == '-',
        "-d"@[1] == 'd',
        "--decompress"@.len() == 12,
        "--decompress"@[0] == '-',
        "--decompress"@[1] == '-',
        "--decompress"@[2] == 'd',
        "--decompress"@[3] == 'e',
        "--decompress"@[4] == 'c',
        "--decompress"@[5] == 'o',
        "--decompress"@[6] == 'm',
        "--decompress"@[7] == 'p',
        "--decompress"@[8] == 'r',
        "--decompress"@[9] == 'e',
        "--decompress"@[10] == 's',
        "--decompress"@[11] == 's',
        "-t"@.len() == 2,
        "-t"@[0] == '-',
        "-t"@[1] == 't',
        "--test"@.len() == 6,
        "--test"@[0] == '-',
        "--test"@[1] == '-',
        "--test"@[2] == 't',
        "--test"@[3] == 'e',
        "--test"@[4] == 's',
        "--test"@[5] == 't',
        "-l"@.len() == 2,
        "-l"@[0] == '-',
        "-l"@[1] == 'l',
        "--list"@.len() == 6,
        "--list"@[0] == '-',
        "--list"@[1] == '-',
        "--list"@[2] == 'l',
        "--list"@[3] == 'i',
        "--list"@[4] == 's',
        "--list"@[5] == 't',
        "--fast"@.len() == 6,
        "--fast"@[0] == '-',
        "--fast"@[1] == '-',
        "--fast"@[2] == 'f',
        "--fast"@[3] == 'a',
        "--fast"@[4] == 's',
        "--fast"@[5] == 't',
        "--best"@.len() == 6,
        "--best"@[0] == '-',
        "--best"@[1] == '-',
        "--best"@[2] == 'b',
        "--best"@[3] == 'e',
        "--best"@[4] == 's',
        "--best"@[5] == 't',
        "-1"@.len() == 2,
        "-1"@[0] == '-',
        "-1"@[1] == '1',
        "-9"@.len() == 2,
        "-9"@[0] == '-',
        "-9"@[1] == '9',
{
    reveal_strlit("-f");
    reveal_strlit("--force");
    reveal_strlit("-k");
    reveal_strlit("--keep");
    reveal_strlit("-v");
    reveal_strlit("--verbose");
    reveal_strlit("-c");
    reveal_strlit("--stdout");
    reveal_strlit("-d");
    reveal_strlit("--decompress");
    reveal_strlit("-t");
    reveal_strlit("--test");
    reveal_strlit("-l");
    reveal_strlit("--list");
    reveal_strlit("--fast");
    reveal_strlit("--best");
    reveal_strlit("-1");
    reveal_strlit("-9");
}

proof fn lemma_spellings_step_alike(st: (CliConfig, Seq<Seq<char>>, nat), short: Seq<char>, long: Seq<char>)
    requires
        spec_option_spellings(short, long),
    ensures
        spec_step(st, long) == spec_step(st, short),
{
    lemma_option_literals();
    if short == "-f"@ && long == "--force"@ {
        assert(spec_step(st, short) == (CliConfig { force: true, ..st.0 }, st.1, st.2));
        assert(spec_step(st, long) == (CliConfig { force: true, ..st.0 }, st.1, st.2));
    }
    if short == "-k"@ && long == "--keep"@ {
        assert(spec_step(st, short) == (CliConfig { keep: true, ..st.0 }, st.1, st.2));
        assert(spec_step(st, long) == (CliConfig { keep: true, ..st.0 }, st.1, st.2));
    }
    if short == "-v"@ && long == "--verbose"@ {
        assert(spec_step(st, short) == (CliConfig { verbose: true, ..st.0 }, st.1, st.2));
        assert(spec_step(st, long) == (CliConfig { verbose: true, ..st.0 }, st.1, st.2));
    }
    if short == "-c"@ && long == "--stdout"@ {
        assert(spec_step(st, short) == (CliConfig { stdout: true, ..st.0 }, st.1, st.2));
        assert(spec_step(st, long) == (CliConfig { stdout: true, ..st.0 }, st.1, st.2));
    }
    if short == "-d"@ && long == "--decompress"@ {
        assert(spec_step(st, short) == (CliConfig { mode: OperationMode::Decompress, ..st.0 }, st.1, st.2));
        assert(spec_step(st, long) == (CliConfig { mode: OperationMode::Decompress, ..st.0 }, st.1, st.2));
    }
    if short == "-t"@ && long == "--test"@ {
        assert(spec_step(st, short) == (CliConfig { mode: OperationMode::Test, ..st.0 }, st.1, st.2));
        assert(spec_step(st, long) == (CliConfig { mode: OperationMode::Test, ..st.0 }, st.1, st.2));
    }
    if short == "-l"@ && long == "--list"@ {
        assert(spec_step(st, short) == (st.0, st.1, st.2 + 1));
        assert(spec_step(st, long) == (st.0, st.1, st.2 + 1));
    }
    if short == "-1"@ && long == "--fast"@ {
        assert(spec_step(st, short) == (CliConfig { level: Some(1), ..st.0 }, st.1, st.2));
        assert(spec_step(st, long) == (CliConfig { level: Some(1), ..st.0 }, st.1, st.2));
    }
    if short == "-9"@ && long == "--best"@ {
        assert(spec_step(st, short) == (CliConfig { level: Some(9), ..st.0 }, st.1, st.2));
        assert(spec_step(st, long) == (CliConfig { level: Some(9), ..st.0 }, st.1, st.2));
    }
}

/// Whatever comes before and after it, the long spelling of an option has the
/// same effect as its short spelling.
pub proof fn lemma_long_option_acts_as_short(
    pre: Seq<String>,
    post: Seq<String>,
    short: String,
    long: String,
)
    requires
        spec_option_spellings(short@, long@),
    ensures
        spec_parse(pre.push(long) + post) == spec_parse(pre.push(short) + post),
    decreases post.len(),
{
    let a = pre.push(long) + post;
    let b = pre.push(short) + post;
    if post.len() == 0 {
        assert(a =~= pre.push(long));
        assert(b =~= pre.push(short));
        assert(pre.push(long).drop_last() =~= pre);
        assert(pre.push(short).drop_last() =~= pre);
        lemma_spellings_step_alike(spec_parse(pre), short@, long@);
    } else {
        assert(a.drop_last() =~= pre.push(long) + post.drop_last());
        assert(b.drop_last() =~= pre.push(short) + post.drop_last());
        lemma_long_option_acts_as_short(pre, post.drop_last(), short, long);
    }
}

/// `-d` and `--decompress` switch to decompression and change nothing else:
/// the option is not taken as a file.
pub proof fn lemma_decompress_option(pre: Seq<String>, arg: String)
    requires
        arg@ == "-d"@ || arg@ == "--decompress"@,
    ensures
        spec_parse(pre.push(arg)).0 == (CliConfig {
            mode: OperationMode::Decompress,
            ..spec_parse(pre).0
        }),
        spec_parse(pre.push(arg)).1 == spec_parse(pre).1,
        spec_parse(pre.push(arg)).2 == spec_parse(pre).2,
{
    lemma_option_literals();
    assert(pre.push(arg).drop_last() =~= pre);
    assert(pre.push(arg).last()@ == arg@);
}

/// The files of a `gzip` command line are exactly its arguments that are not
/// options, in the order given.
pub proof fn lemma_files_are_the_non_options(args: Seq<String>)
    ensures
        spec_parse(args).1 == spec_file_views(args).filter(|a: Seq<char>| !spec_is_option_arg(a)),
    decreases args.len(),
{
    reveal(Seq::filter);
    let pred = |a: Seq<char>| !spec_is_option_arg(a);
    if args.len() == 0 {
        assert(spec_file_views(args) =~= Seq::<Seq<char>>::empty());
    } else {
        lemma_files_are_the_non_options(args.drop_last());
        assert(spec_file_views(args).drop_last() =~= spec_file_views(args.drop_last()));
        assert(spec_file_views(args).last() == args.last()@);
    }
}

} // verus!
