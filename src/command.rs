//! The argument lists of the three external commands of a run.

use vstd::prelude::*;

use crate::config::RunConfig;
use crate::decimal::{decimal_text, u8_text};

verus! {

/// The texts of a sequence of strings.
pub open spec fn texts(v: Seq<String>) -> Seq<Seq<char>> {
    v.map_values(|s: String| s@)
}

/// One external program together with its arguments.
pub struct Invocation {
    pub program: String,
    pub args: Vec<String>,
}

impl Invocation {
    /// The arguments as texts.
    pub open spec fn arg_texts(&self) -> Seq<Seq<char>> {
        texts(self.args@)
    }
}

/// Fixed leading arguments of the archive creation: list added, modified and
/// excluded entries, print statistics and the exit code, compress with lz4,
/// skip cache directories.
pub open spec fn create_flags() -> Seq<Seq<char>> {
    seq![
        "create"@,
        "--verbose"@,
        "--filter"@,
        "AME"@,
        "--list"@,
        "--stats"@,
        "--show-rc"@,
        "--compression"@,
        "lz4"@,
        "--exclude-caches"@,
    ]
}

/// One `--exclude <pattern>` pair per pattern, in order.
pub open spec fn exclude_args(patterns: Seq<Seq<char>>) -> Seq<Seq<char>>
    decreases patterns.len(),
{
    if patterns.len() == 0 {
        seq![]
    } else {
        exclude_args(patterns.drop_last()) + seq!["--exclude"@, patterns.last()]
    }
}

/// The exclusion arguments are exactly one `--exclude` per pattern, each
/// followed by its pattern, in the patterns' order; no pattern, no argument.
pub proof fn lemma_exclude_pairs(patterns: Seq<Seq<char>>)
    ensures
        exclude_args(patterns).len() == 2 * patterns.len(),
        forall|i: int| 0 <= i < patterns.len() ==> #[trigger] exclude_args(patterns)[2 * i] == "--exclude"@,
        forall|i: int| 0 <= i < patterns.len() ==> exclude_args(patterns)[2 * i + 1] == #[trigger] patterns[i],
    decreases patterns.len(),
{
    if patterns.len() > 0 {
        let front = patterns.drop_last();
        let e = exclude_args(patterns);
        let f = exclude_args(front);
        lemma_exclude_pairs(front);
        assert(e == f + seq!["--exclude"@, patterns.last()]);
        assert forall|i: int| 0 <= i < patterns.len() implies #[trigger] e[2 * i] == "--exclude"@ by {
            if i < front.len() {
                assert(f[2 * i] == "--exclude"@);
            }
        }
        assert forall|i: int| 0 <= i < patterns.len() implies e[2 * i + 1] == #[trigger] patterns[i] by {
            if i < front.len() {
                assert(front[i] == patterns[i]);
            }
        }
    }
}

/// Name prefix shared by every archive that a run creates; pruning is limited
/// to it. Archives named with single quotes around the prefix, as
/// `'data-{now}'`, do not fall under it and are never pruned.
pub open spec fn archive_prefix() -> Seq<char> {
    "data-"@
}

/// The archive to create in `repo`: its name starts with the prefix above and
/// ends in the archive tool's timestamp placeholder.
pub open spec fn archive_name(repo: Seq<char>) -> Seq<char> {
    repo + "::data-{now}"@
}

/// Every archive that a run creates falls under the prune filter: its name,
/// after the repository and `::`, is the prefix followed by the timestamp
/// placeholder.
pub proof fn lemma_archive_name_has_prefix(repo: Seq<char>)
    ensures
        archive_name(repo) == repo + "::"@ + archive_prefix() + "{now}"@,
{
    reveal_strlit("::data-{now}");
    reveal_strlit("::");
    reveal_strlit("data-");
    reveal_strlit("{now}");
    assert(archive_name(repo) =~= repo + "::"@ + archive_prefix() + "{now}"@);
}

/// Arguments of the archive creation.
pub open spec fn create_args(repo: Seq<char>, excludes: Seq<Seq<char>>, inputs: Seq<Seq<char>>) -> Seq<
    Seq<char>,
> {
    create_flags() + exclude_args(excludes) + seq![archive_name(repo)] + inputs
}

/// Arguments of the pruning under the retention policy.
pub open spec fn prune_args(repo: Seq<char>, daily: u8, weekly: u8, monthly: u8) -> Seq<Seq<char>> {
    seq![
        "prune"@,
        "--list"@,
        "--prefix"@,
        archive_prefix(),
        "--show-rc"@,
        "--keep-daily"@,
        decimal_text(daily as nat),
        "--keep-weekly"@,
        decimal_text(weekly as nat),
        "--keep-monthly"@,
        decimal_text(monthly as nat),
        repo,
    ]
}

/// Arguments of the synchronisation of `repo` to `dest`.
pub open spec fn sync_args(repo: Seq<char>, dest: Seq<char>) -> Seq<Seq<char>> {
    seq!["sync"@, repo, dest]
}

/// A command line as it is shown: the program, then each argument after one space.
pub open spec fn line_text(program: Seq<char>, args: Seq<Seq<char>>) -> Seq<char>
    decreases args.len(),
{
    if args.len() == 0 {
        program
    } else {
        line_text(program, args.drop_last()) + " "@ + args.last()
    }
}

fn push_text(v: &mut Vec<String>, s: &str)
    ensures
        texts(final(v)@) == texts(old(v)@).push(s@),
{
    v.push(String::from_str(s));
    assert(texts(v@) =~= texts(old(v)@).push(s@));
}

fn push_string(v: &mut Vec<String>, s: String)
    ensures
        texts(final(v)@) == texts(old(v)@).push(s@),
{
    v.push(s);
    assert(texts(v@) =~= texts(old(v)@).push(s@));
}

/// The archive creation of a run.
pub fn create_command(config: &RunConfig) -> (r: Invocation)
    ensures
        r.program@ == "borg"@,
        r.arg_texts() == create_args(
            config.repo_path@,
            texts(config.excludes@),
            texts(config.inputs@),
        ),
{
    let mut args: Vec<String> = Vec::new();
    push_text(&mut args, "create");
    push_text(&mut args, "--verbose");
    push_text(&mut args, "--filter");
    push_text(&mut args, "AME");
    push_text(&mut args, "--list");
    push_text(&mut args, "--stats");
    push_text(&mut args, "--show-rc");
    push_text(&mut args, "--compression");
    push_text(&mut args, "lz4");
    push_text(&mut args, "--exclude-caches");
    assert(texts(args@) =~= create_flags());
    let ghost excludes = texts(config.excludes@);
    let mut i: usize = 0;
    while i < config.excludes.len()
        invariant
            i <= config.excludes.len(),
            excludes == texts(config.excludes@),
            texts(args@) == create_flags() + exclude_args(excludes.subrange(0, i as int)),
        decreases config.excludes.len() - i,
    {
        push_text(&mut args, "--exclude");
        push_string(&mut args, config.excludes[i].clone());
        assert(excludes.subrange(0, i + 1).drop_last() =~= excludes.subrange(0, i as int));
        assert(texts(args@) =~= create_flags() + exclude_args(excludes.subrange(0, i + 1)));
        i = i + 1;
    }
    assert(excludes.subrange(0, i as int) =~= excludes);
    push_string(&mut args, config.repo_path.clone().concat("::data-{now}"));
    let ghost head = texts(args@);
    let ghost inputs = texts(config.inputs@);
    let mut j: usize = 0;
    while j < config.inputs.len()
        invariant
            j <= config.inputs.len(),
            inputs == texts(config.inputs@),
            texts(args@) == head + inputs.subrange(0, j as int),
        decreases config.inputs.len() - j,
    {
        push_string(&mut args, config.inputs[j].clone());
        assert(texts(args@) =~= head + inputs.subrange(0, j + 1));
        j = j + 1;
    }
    assert(inputs.subrange(0, j as int) =~= inputs);
    assert(texts(args@) =~= create_args(config.repo_path@, excludes, inputs));
    Invocation { program: String::from_str("borg"), args }
}

/// The pruning of a run's repository.
pub fn prune_command(config: &RunConfig) -> (r: Invocation)
    ensures
        r.program@ == "borg"@,
        r.arg_texts() == prune_args(
            config.repo_path@,
            config.keep_daily,
            config.keep_weekly,
            config.keep_monthly,
        ),
{
    let mut args: Vec<String> = Vec::new();
    push_text(&mut args, "prune");
    push_text(&mut args, "--list");
    push_text(&mut args, "--prefix");
    push_text(&mut args, "data-");
    push_text(&mut args, "--show-rc");
    push_text(&mut args, "--keep-daily");
    push_string(&mut args, u8_text(config.keep_daily));
    push_text(&mut args, "--keep-weekly");
    push_string(&mut args, u8_text(config.keep_weekly));
    push_text(&mut args, "--keep-monthly");
    push_string(&mut args, u8_text(config.keep_monthly));
    push_string(&mut args, config.repo_path.clone());
    assert(texts(args@) =~= prune_args(
        config.repo_path@,
        config.keep_daily,
        config.keep_weekly,
        config.keep_monthly,
    ));
    Invocation { program: String::from_str("borg"), args }
}

/// The synchronisation of a run's repository to its remote target.
pub fn sync_command(config: &RunConfig) -> (r: Invocation)
    ensures
        r.program@ == "rclone"@,
        r.arg_texts() == sync_args(config.repo_path@, config.sync_dest@),
{
    let mut args: Vec<String> = Vec::new();
    push_text(&mut args, "sync");
    push_string(&mut args, config.repo_path.clone());
    push_string(&mut args, config.sync_dest.clone());
    assert(texts(args@) =~= sync_args(config.repo_path@, config.sync_dest@));
    Invocation { program: String::from_str("rclone"), args }
}

/// The command line of `inv` as one text, for logs and error reports.
pub fn command_line(inv: &Invocation) -> (r: String)
    ensures
        r@ == line_text(inv.program@, inv.arg_texts()),
{
    let mut line = inv.program.clone();
    let ghost args = inv.arg_texts();
    let mut i: usize = 0;
    while i < inv.args.len()
        invariant
            i <= inv.args.len(),
            args == inv.arg_texts(),
            line@ == line_text(inv.program@, args.subrange(0, i as int)),
        decreases inv.args.len() - i,
    {
        line.append(" ");
        line.append(inv.args[i].as_str());
        assert(args.subrange(0, i + 1).drop_last() =~= args.subrange(0, i as int));
        i = i + 1;
    }
    assert(args.subrange(0, i as int) =~= args);
    line
}

} // verus!
