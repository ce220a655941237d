//! How a command is shown to the operator: quoted word by word, and never
//! with its environment.

use vstd::prelude::*;
use vstd::string::*;
use crate::command::{backup_invocation, Invocation, InvocationView};
use crate::config::{BackupConfig, BackupConfigView, ResticConfig, ResticConfigView};

verus! {

/// A word as Rust's `Debug` for `str` writes it: between double quotes, with
/// its quotes, backslashes and control characters escaped.
pub uninterp spec fn quoted(word: Seq<char>) -> Seq<char>;

/// `format!("{:?}", word)`, where `word` is a `&str`. The formatter is
/// believed to compute one fixed function of the characters it is given;
/// nothing more is claimed of what that function is.
#[verifier::external_body]
pub(crate) fn quote(word: &str) -> (text: String)
    ensures
        text@ == quoted(word@),
{
    format!("{:?}", word)
}

/// `words` one after another, each two separated by one space.
pub open spec fn joined(words: Seq<Seq<char>>) -> Seq<char>
    decreases words.len(),
{
    if words.len() == 0 {
        Seq::empty()
    } else if words.len() == 1 {
        words[0]
    } else {
        joined(words.drop_last()) + " "@ + words.last()
    }
}

/// Joins `words` with single spaces.
pub fn join_words(words: &Vec<String>) -> (line: String)
    ensures
        line@ == joined(words.deep_view()),
{
    let mut line = String::new();
    let mut i: usize = 0;
    while i < words.len()
        invariant
            i <= words.len(),
            line@ == joined(words.deep_view().take(i as int)),
        decreases words.len() - i,
    {
        let ghost before = words.deep_view().take(i as int);
        let ghost after = words.deep_view().take(i + 1);
        assert(after.drop_last() =~= before);
        assert(after.last() == words[i as int]@);
        if i > 0 {
            line.append(" ");
        }
        line.append(words[i].as_str());
        assert(line@ =~= joined(after));
        i += 1;
    }
    assert(words.deep_view().take(i as int) =~= words.deep_view());
    line
}

/// The program and its arguments, in order.
pub open spec fn command_words(invocation: InvocationView) -> Seq<Seq<char>> {
    seq![invocation.program] + invocation.args
}

/// The command as it is shown to the operator: the program and each argument
/// quoted, separated by spaces. The environment, where the inline password
/// travels, is no part of it.
pub open spec fn command_line(invocation: InvocationView) -> Seq<char> {
    joined(command_words(invocation).map_values(|word: Seq<char>| quoted(word)))
}

fn quote_all(words: &Vec<String>) -> (shown: Vec<String>)
    ensures
        shown.deep_view() == words.deep_view().map_values(|word: Seq<char>| quoted(word)),
{
    let mut shown: Vec<String> = Vec::new();
    let ghost target = words.deep_view().map_values(|word: Seq<char>| quoted(word));
    let mut i: usize = 0;
    assert(shown.deep_view() =~= target.take(0));
    while i < words.len()
        invariant
            i <= words.len(),
            target == words.deep_view().map_values(|word: Seq<char>| quoted(word)),
            shown.deep_view() == target.take(i as int),
        decreases words.len() - i,
    {
        let word = quote(words[i].as_str());
        let ghost before = shown.deep_view();
        shown.push(word);
        assert(shown.deep_view() =~= before.push(word@));
        assert(shown.deep_view() =~= target.take(i + 1));
        i += 1;
    }
    assert(target.take(i as int) =~= target);
    shown
}

/// Renders the command for logs and diagnostics, without its environment.
pub fn render_command(invocation: &Invocation) -> (line: String)
    ensures
        line@ == command_line(invocation@),
{
    let mut shown = quote_all(&invocation.args);
    let program = quote(invocation.program.as_str());
    let ghost rest = shown.deep_view();
    shown.insert(0, program);
    assert(shown.deep_view() =~= command_words(invocation@).map_values(
        |word: Seq<char>| quoted(word),
    )) by {
        assert(shown.deep_view() =~= seq![program@] + rest);
    }
    join_words(&shown)
}

/// The words of `shown`, each preceded by `lead`.
pub open spec fn led_text(shown: Seq<Seq<char>>, lead: Seq<char>) -> Seq<char>
    decreases shown.len(),
{
    if shown.len() == 0 {
        Seq::empty()
    } else {
        led_text(shown.drop_last(), lead) + lead + shown.last()
    }
}

/// A verbose backup command in the shape in which one would type it, from
/// the paths as they are to be shown: the repository bare, the password
/// command between single quotes.
pub open spec fn readable_text(
    repository: Seq<char>,
    password_command: Option<Seq<char>>,
    directories: Seq<Seq<char>>,
    exclude: Seq<Seq<char>>,
    dry_run: bool,
) -> Seq<char> {
    "restic backup --repo "@ + repository + (match password_command {
        Some(command) => " --password-command '"@ + command + "'"@,
        None => Seq::empty(),
    }) + " --verbose"@ + led_text(directories, " "@) + led_text(exclude, " --exclude "@) + (if dry_run {
        " --dry-run"@
    } else {
        Seq::empty()
    })
}

/// The verbose backup command in the shape in which one would type it, with
/// its paths quoted.
pub open spec fn readable_command(
    backup: BackupConfigView,
    restic: ResticConfigView,
    dry_run: bool,
) -> Seq<char> {
    readable_text(
        restic.repository,
        restic.password_command,
        backup.directories.map_values(|word: Seq<char>| quoted(word)),
        backup.exclude.map_values(|word: Seq<char>| quoted(word)),
        dry_run,
    )
}

fn append_led(out: &mut String, shown: &Vec<String>, lead: &str)
    ensures
        final(out)@ == old(out)@ + led_text(shown.deep_view(), lead@),
{
    let mut i: usize = 0;
    assert(shown.deep_view().take(0) =~= Seq::<Seq<char>>::empty());
    assert(out@ =~= old(out)@ + led_text(shown.deep_view().take(0), lead@));
    while i < shown.len()
        invariant
            i <= shown.len(),
            out@ == old(out)@ + led_text(shown.deep_view().take(i as int), lead@),
        decreases shown.len() - i,
    {
        let ghost before = shown.deep_view().take(i as int);
        let ghost after = shown.deep_view().take(i + 1);
        assert(after.drop_last() =~= before);
        assert(after.last() == shown[i as int]@);
        out.append(lead);
        out.append(shown[i].as_str());
        assert(out@ =~= old(out)@ + led_text(after, lead@));
        i += 1;
    }
    assert(shown.deep_view().take(i as int) =~= shown.deep_view());
}

/// Writes a verbose backup command in the shape in which one would type it,
/// from the paths as they are to be shown.
pub fn format_readable_command(
    repository: &str,
    password_command: Option<&str>,
    directories: &Vec<String>,
    exclude: &Vec<String>,
    dry_run: bool,
) -> (line: String)
    ensures
        line@ == readable_text(
            repository@,
            password_command.deep_view(),
            directories.deep_view(),
            exclude.deep_view(),
            dry_run,
        ),
{
    let mut line = String::from_str("restic backup --repo ");
    line.append(repository);
    match password_command {
        Some(command) => {
            line.append(" --password-command '");
            line.append(command);
            line.append("'");
        },
        None => {},
    }
    line.append(" --verbose");
    let ghost head = line@;
    assert(head =~= "restic backup --repo "@ + repository@ + (match password_command.deep_view() {
        Some(command) => " --password-command '"@ + command + "'"@,
        None => Seq::empty(),
    }) + " --verbose"@);
    append_led(&mut line, directories, " ");
    append_led(&mut line, exclude, " --exclude ");
    if dry_run {
        line.append(" --dry-run");
    }
    assert(line@ =~= readable_text(
        repository@,
        password_command.deep_view(),
        directories.deep_view(),
        exclude.deep_view(),
        dry_run,
    ));
    line
}

/// Renders the verbose backup command in the shape in which one would type
/// it, with its paths quoted.
pub fn render_readable_command(backup: &BackupConfig, restic: &ResticConfig, dry_run: bool) -> (line:
    String)
    ensures
        line@ == readable_command(backup@, restic@, dry_run),
{
    let directories = quote_all(&backup.directories);
    let exclude = quote_all(&backup.exclude);
    let password_command = match &restic.password_command {
        Some(command) => Some(command.as_str()),
        None => None,
    };
    format_readable_command(
        restic.repository.as_str(),
        password_command,
        &directories,
        &exclude,
        dry_run,
    )
}

/// What is shown of a backup command does not depend on the inline password,
/// nor on anything else that travels in the environment.
pub proof fn lemma_command_line_hides_environment(
    backup: BackupConfigView,
    restic1: ResticConfigView,
    restic2: ResticConfigView,
    dry_run: bool,
    verbose: bool,
)
    requires
        restic1.repository == restic2.repository,
        restic1.password_command == restic2.password_command,
    ensures
        command_line(backup_invocation(backup, restic1, dry_run, verbose)) == command_line(
            backup_invocation(backup, restic2, dry_run, verbose),
        ),
{
}

/// The readable command does not depend on the inline password either.
pub proof fn lemma_readable_command_hides_environment(
    backup: BackupConfigView,
    restic1: ResticConfigView,
    restic2: ResticConfigView,
    dry_run: bool,
)
    requires
        restic1.repository == restic2.repository,
        restic1.password_command == restic2.password_command,
    ensures
        readable_command(backup, restic1, dry_run) == readable_command(backup, restic2, dry_run),
{
}

} // verus!
