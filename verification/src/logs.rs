//! The operational log: where it lives, how it rotates, and how its files
//! are listed.

use vstd::prelude::*;
use vstd::string::*;
use crate::render::{quote, quoted};
use crate::config::LoggingConfig;
use crate::size::{parse_size, size_in_bytes, SizeFormatError};
use crate::text::starts_with;

verus! {

/// A file found in the log directory.
#[derive(Clone, Debug, PartialEq, Eq)]
pub struct LogFile {
    pub name: String,
    /// Size in bytes.
    pub size: u64,
    /// Time of the last modification in seconds since the Unix epoch, where
    /// the file system tells it.
    pub modified: Option<u64>,
}

/// Mathematical model of a [`LogFile`].
pub struct LogFileView {
    pub name: Seq<char>,
    pub size: u64,
    pub modified: Option<u64>,
}

impl View for LogFile {
    type V = LogFileView;

    open spec fn view(&self) -> LogFileView {
        LogFileView { name: self.name@, size: self.size, modified: self.modified }
    }
}

impl DeepView for LogFile {
    type V = LogFileView;

    open spec fn deep_view(&self) -> LogFileView {
        self@
    }
}

impl LogFile {
    /// A copy with the same contents.
    pub fn duplicate(&self) -> (copy: LogFile)
        ensures
            copy@ == self@,
    {
        LogFile { name: self.name.clone(), size: self.size, modified: self.modified }
    }

    /// The time by which files are ordered: a file of unknown age counts as
    /// oldest.
    pub fn recency(&self) -> (time: u64)
        ensures
            time == recency(self@),
    {
        match self.modified {
            Some(time) => time,
            None => 0,
        }
    }
}

/// The operational log's own files are those whose name begins with
/// `restic_backup`.
pub open spec fn is_log_file(file: LogFileView) -> bool {
    "restic_backup"@.is_prefix_of(file.name)
}

/// The time by which files are ordered: a file of unknown age counts as
/// oldest.
pub open spec fn recency(file: LogFileView) -> u64 {
    match file.modified {
        Some(time) => time,
        None => 0,
    }
}

/// No file comes before a newer one.
pub open spec fn is_newest_first(files: Seq<LogFileView>) -> bool {
    forall|i: int, j: int| 0 <= i < j < files.len() ==> recency(files[i]) >= recency(files[j])
}

/// How many files at the front of `files` are at least as recent as `time`.
pub open spec fn at_least_as_recent(files: Seq<LogFileView>, time: u64) -> nat
    decreases files.len(),
{
    if files.len() > 0 && recency(files.first()) >= time {
        1 + at_least_as_recent(files.drop_first(), time)
    } else {
        0
    }
}

/// `files` with `file` put behind every file that is at least as recent.
pub open spec fn with_file(files: Seq<LogFileView>, file: LogFileView) -> Seq<LogFileView> {
    files.insert(at_least_as_recent(files, recency(file)) as int, file)
}

/// `files` from newest to oldest; files of one age stay in the order in
/// which they came.
pub open spec fn newest_first(files: Seq<LogFileView>) -> Seq<LogFileView>
    decreases files.len(),
{
    if files.len() == 0 {
        Seq::empty()
    } else {
        with_file(newest_first(files.drop_last()), files.last())
    }
}

/// The listing of a log directory: its log files, newest first.
pub open spec fn log_listing(entries: Seq<LogFileView>) -> Seq<LogFileView> {
    newest_first(entries.filter(|file: LogFileView| is_log_file(file)))
}

/// The leading files are at least as recent as `time`, and the next one,
/// if there is one, is older.
proof fn lemma_at_least_as_recent(files: Seq<LogFileView>, time: u64, n: int)
    requires
        0 <= n <= files.len(),
        forall|k: int| 0 <= k < n ==> recency(files[k]) >= time,
        n < files.len() ==> recency(files[n]) < time,
    ensures
        at_least_as_recent(files, time) == n,
    decreases n,
{
    if n > 0 {
        let rest = files.drop_first();
        assert forall|k: int| 0 <= k < n - 1 implies recency(rest[k]) >= time by {
            assert(rest[k] == files[k + 1]);
        }
        if n - 1 < rest.len() {
            assert(rest[n - 1] == files[n]);
        }
        lemma_at_least_as_recent(rest, time, n - 1);
    }
}

/// Where `at_least_as_recent` stops: within the sequence, behind files that
/// are at least as recent and before an older one.
proof fn lemma_insertion_point(files: Seq<LogFileView>, time: u64)
    ensures
        at_least_as_recent(files, time) <= files.len(),
        forall|k: int| 0 <= k < at_least_as_recent(files, time) ==> recency(files[k]) >= time,
        at_least_as_recent(files, time) < files.len() ==> recency(
            files[at_least_as_recent(files, time) as int],
        ) < time,
    decreases files.len(),
{
    if files.len() > 0 && recency(files.first()) >= time {
        let rest = files.drop_first();
        lemma_insertion_point(rest, time);
        let n = at_least_as_recent(rest, time) as int;
        assert forall|k: int| 0 <= k < n + 1 implies recency(files[k]) >= time by {
            if k > 0 {
                assert(files[k] == rest[k - 1]);
            }
        }
        if n + 1 < files.len() {
            assert(files[n + 1] == rest[n]);
        }
    }
}

/// Putting a file into a newest-first sequence keeps it newest first.
proof fn lemma_with_file_is_newest_first(files: Seq<LogFileView>, file: LogFileView)
    requires
        is_newest_first(files),
    ensures
        is_newest_first(with_file(files, file)),
{
    lemma_insertion_point(files, recency(file));
    let at = at_least_as_recent(files, recency(file)) as int;
    let result = with_file(files, file);
    assert forall|i: int, j: int| 0 <= i < j < result.len() implies recency(result[i])
        >= recency(result[j]) by {
        if j < at {
            assert(result[i] == files[i] && result[j] == files[j]);
        } else if j == at {
            assert(result[i] == files[i]);
        } else if i < at {
            assert(result[i] == files[i] && result[j] == files[j - 1]);
            if at < files.len() {
                assert(recency(files[at]) >= recency(files[j - 1]) || at == j - 1);
            }
        } else if i == at {
            assert(result[j] == files[j - 1]);
            assert(recency(files[at]) >= recency(files[j - 1]) || at == j - 1);
        } else {
            assert(result[i] == files[i - 1] && result[j] == files[j - 1]);
        }
    }
}

/// A listing runs from newest to oldest.
pub proof fn lemma_newest_first_is_ordered(files: Seq<LogFileView>)
    ensures
        is_newest_first(newest_first(files)),
    decreases files.len(),
{
    if files.len() > 0 {
        lemma_newest_first_is_ordered(files.drop_last());
        lemma_with_file_is_newest_first(newest_first(files.drop_last()), files.last());
    }
}

/// Sorting loses no file and invents none.
pub proof fn lemma_newest_first_is_permutation(files: Seq<LogFileView>)
    ensures
        newest_first(files).len() == files.len(),
        newest_first(files).to_multiset() == files.to_multiset(),
    decreases files.len(),
{
    broadcast use vstd::seq_lib::group_to_multiset_ensures;

    if files.len() > 0 {
        let rest = files.drop_last();
        lemma_newest_first_is_permutation(rest);
        let sorted = newest_first(rest);
        lemma_insertion_point(sorted, recency(files.last()));
        let at = at_least_as_recent(sorted, recency(files.last())) as int;
        vstd::seq_lib::to_multiset_insert(sorted, at, files.last());
        assert(files =~= rest.push(files.last()));
        assert(rest.push(files.last()).to_multiset() =~= rest.to_multiset().insert(files.last()));
    } else {
        assert(files =~= Seq::<LogFileView>::empty());
    }
}

/// A sequence none of whose elements passes a filter is filtered to nothing.
proof fn lemma_filter_nothing(files: Seq<LogFileView>, pred: spec_fn(LogFileView) -> bool)
    requires
        forall|k: int| 0 <= k < files.len() ==> !pred(files[k]),
    ensures
        files.filter(pred) == Seq::<LogFileView>::empty(),
    decreases files.len(),
{
    reveal(Seq::filter);
    if files.len() > 0 {
        let rest = files.drop_last();
        assert forall|k: int| 0 <= k < rest.len() implies !pred(rest[k]) by {
            assert(rest[k] == files[k]);
        }
        lemma_filter_nothing(rest, pred);
    }
}

/// Sorting is stable: the files of any one age come out in the order in
/// which they went in.
pub proof fn lemma_newest_first_is_stable(files: Seq<LogFileView>, time: u64)
    ensures
        newest_first(files).filter(|file: LogFileView| recency(file) == time) == files.filter(
            |file: LogFileView| recency(file) == time,
        ),
    decreases files.len(),
{
    let pred = |file: LogFileView| recency(file) == time;
    reveal(Seq::filter);
    if files.len() > 0 {
        let rest = files.drop_last();
        let last = files.last();
        lemma_newest_first_is_stable(rest, time);
        lemma_newest_first_is_ordered(rest);
        let sorted = newest_first(rest);
        lemma_insertion_point(sorted, recency(last));
        let at = at_least_as_recent(sorted, recency(last)) as int;
        let front = sorted.take(at);
        let back = sorted.skip(at);
        assert(sorted =~= front + back);
        assert(with_file(sorted, last) =~= front + seq![last] + back);
        Seq::filter_distributes_over_add(front, back, pred);
        Seq::filter_distributes_over_add(front, seq![last], pred);
        Seq::filter_distributes_over_add(front + seq![last], back, pred);
        assert(seq![last].drop_last() =~= Seq::<LogFileView>::empty());
        assert(Seq::<LogFileView>::empty().filter(pred) =~= Seq::<LogFileView>::empty());
        if pred(last) {
            assert forall|k: int| 0 <= k < back.len() implies !pred(back[k]) by {
                assert(back[k] == sorted[at + k]);
                assert(recency(sorted[at]) >= recency(sorted[at + k]));
            }
            lemma_filter_nothing(back, pred);
            assert(seq![last].filter(pred) =~= seq![last]);
            assert(with_file(sorted, last).filter(pred) =~= sorted.filter(pred).push(last));
        } else {
            assert(seq![last].filter(pred) =~= Seq::<LogFileView>::empty());
            assert(with_file(sorted, last).filter(pred) =~= sorted.filter(pred));
        }
    }
}

/// A listing holds the log files among the entries, all of them and nothing
/// else, from newest to oldest.
pub proof fn lemma_log_listing(entries: Seq<LogFileView>)
    ensures
        is_newest_first(log_listing(entries)),
        forall|file: LogFileView| #[trigger]
            log_listing(entries).contains(file) <==> entries.contains(file) && is_log_file(file),
{
    let pred = |file: LogFileView| is_log_file(file);
    let files = entries.filter(pred);
    lemma_newest_first_is_ordered(files);
    lemma_newest_first_is_permutation(files);
    files.to_multiset_ensures();
    newest_first(files).to_multiset_ensures();
    assert forall|file: LogFileView| #[trigger]
        log_listing(entries).contains(file) <==> entries.contains(file) && is_log_file(
            file,
        ) by {
        assert(newest_first(files).contains(file) <==> newest_first(files).to_multiset().count(file)
            > 0);
        assert(files.contains(file) <==> files.to_multiset().count(file) > 0);
        assert(log_listing(entries).contains(file) <==> files.contains(file));
        if files.contains(file) {
            entries.lemma_filter_contains_rev(pred, file);
            let i = choose|i: int| 0 <= i < files.len() && files[i] == file;
            entries.lemma_filter_pred(pred, i);
            assert(pred(file));
        }
        if entries.contains(file) && is_log_file(file) {
            let i = choose|i: int| 0 <= i < entries.len() && entries[i] == file;
            assert(pred(entries[i]));
            entries.lemma_filter_contains(pred, i);
        }
    }
}

/// Orders `files` from newest to oldest, keeping files of one age in the
/// order in which they came.
pub fn sort_newest_first(files: &Vec<LogFile>) -> (sorted: Vec<LogFile>)
    ensures
        sorted.deep_view() == newest_first(files.deep_view()),
{
    let mut sorted: Vec<LogFile> = Vec::new();
    let mut i: usize = 0;
    assert(files.deep_view().take(0) =~= Seq::<LogFileView>::empty());
    while i < files.len()
        invariant
            i <= files.len(),
            sorted.len() == i,
            sorted.deep_view() == newest_first(files.deep_view().take(i as int)),
        decreases files.len() - i,
    {
        let file = files[i].duplicate();
        let time = file.recency();
        let mut at: usize = 0;
        while at < sorted.len() && sorted[at].recency() >= time
            invariant
                at <= sorted.len(),
                forall|k: int| 0 <= k < at ==> recency(sorted.deep_view()[k]) >= time,
            decreases sorted.len() - at,
        {
            at += 1;
        }
        proof {
            lemma_at_least_as_recent(sorted.deep_view(), time, at as int);
            let before = files.deep_view().take(i as int);
            let after = files.deep_view().take(i + 1);
            assert(after.drop_last() =~= before);
            assert(after.last() == file@);
        }
        let ghost previous = sorted.deep_view();
        sorted.insert(at, file);
        assert(sorted.deep_view() =~= previous.insert(at as int, file@));
        i += 1;
    }
    assert(files.deep_view().take(i as int) =~= files.deep_view());
    sorted
}

/// Picks the operational log's own files out of a directory's entries,
/// keeping their order.
pub fn select_log_files(entries: &Vec<LogFile>) -> (files: Vec<LogFile>)
    ensures
        files.deep_view() == entries.deep_view().filter(|file: LogFileView| is_log_file(file)),
{
    let ghost pred = |file: LogFileView| is_log_file(file);
    let mut files: Vec<LogFile> = Vec::new();
    let mut i: usize = 0;
    proof {
        reveal(Seq::filter);
        assert(entries.deep_view().take(0) =~= Seq::<LogFileView>::empty());
    }
    while i < entries.len()
        invariant
            i <= entries.len(),
            pred == |file: LogFileView| is_log_file(file),
            files.deep_view() == entries.deep_view().take(i as int).filter(pred),
        decreases entries.len() - i,
    {
        proof {
            reveal(Seq::filter);
            let before = entries.deep_view().take(i as int);
            let after = entries.deep_view().take(i + 1);
            assert(after.drop_last() =~= before);
            assert(after.last() == entries[i as int]@);
        }
        if starts_with(entries[i].name.as_str(), "restic_backup") {
            let ghost previous = files.deep_view();
            files.push(entries[i].duplicate());
            assert(files.deep_view() =~= previous.push(entries[i as int]@));
        }
        i += 1;
    }
    assert(entries.deep_view().take(i as int) =~= entries.deep_view());
    files
}

/// Lists the log files among a directory's entries, newest first.
pub fn list_log_files(entries: &Vec<LogFile>) -> (files: Vec<LogFile>)
    ensures
        files.deep_view() == log_listing(entries.deep_view()),
{
    let files = select_log_files(entries);
    sort_newest_first(&files)
}

/// The newest file of a listing, if the listing holds any.
pub fn latest_log(files: &Vec<LogFile>) -> (latest: Option<&LogFile>)
    ensures
        files.len() == 0 ==> latest is None,
        files.len() > 0 ==> latest == Some(&files[0]),
{
    if files.len() > 0 {
        Some(&files[0])
    } else {
        None
    }
}

/// What is shown as the content of the newest log file.
pub open spec fn latest_content(found: bool, content: Option<Seq<char>>) -> Seq<char> {
    if !found {
        "No log files found"@
    } else {
        match content {
            Some(content) => content,
            None => "Unable to read log file"@,
        }
    }
}

/// Says what to show as the content of the newest log file: `found` tells
/// whether there is one, `content` what reading it gave.
pub fn describe_latest(found: bool, content: Option<String>) -> (shown: String)
    ensures
        shown@ == latest_content(found, content.deep_view()),
{
    if !found {
        String::from_str("No log files found")
    } else {
        match content {
            Some(content) => content,
            None => String::from_str("Unable to read log file"),
        }
    }
}

/// Why the log directory could not be resolved.
#[derive(Clone, Copy, Debug, PartialEq, Eq)]
pub enum LoggingSetupError {
    /// The log directory starts in `~` and no home directory is known.
    HomeNotSet,
}

impl LoggingSetupError {
    /// The message shown for this error.
    pub fn message(&self) -> (text: String)
        ensures
            text@ == "HOME environment variable not set"@,
    {
        String::from_str("HOME environment variable not set")
    }
}

/// The message for a log directory that could not be created: `reason` is
/// what the operating system said.
pub open spec fn directory_failure_message(directory: Seq<char>, reason: Seq<char>) -> Seq<char> {
    "Failed to create log directory "@ + quoted(directory) + ": "@ + reason
        + ". Please ensure you have write permissions or use a user-writable directory (e.g., ~/.local/log/restic)"@
}

/// Writes the message for a log directory whose quoted form is `shown`.
pub fn format_directory_failure(shown: &str, reason: &str) -> (text: String)
    ensures
        text@ == "Failed to create log directory "@ + shown@ + ": "@ + reason@
            + ". Please ensure you have write permissions or use a user-writable directory (e.g., ~/.local/log/restic)"@,
{
    let mut text = String::from_str("Failed to create log directory ");
    text.append(shown);
    text.append(": ");
    text.append(reason);
    text.append(
        ". Please ensure you have write permissions or use a user-writable directory (e.g., ~/.local/log/restic)",
    );
    text
}

/// Writes the message for a log directory that could not be created.
pub fn describe_directory_failure(directory: &str, reason: &str) -> (text: String)
    ensures
        text@ == directory_failure_message(directory@, reason@),
{
    let shown = quote(directory);
    format_directory_failure(shown.as_str(), reason)
}

/// How the operational log rotates.
#[derive(Clone, Debug, PartialEq, Eq)]
pub struct RotationPolicy {
    /// The name that every log file begins with.
    pub basename: String,
    /// The size in bytes at which the current file is rotated out.
    pub max_bytes: u64,
    /// How many rotated files are kept.
    pub keep_files: usize,
}

/// Mathematical model of a [`RotationPolicy`].
pub struct RotationPolicyView {
    pub basename: Seq<char>,
    pub max_bytes: u64,
    pub keep_files: usize,
}

impl View for RotationPolicy {
    type V = RotationPolicyView;

    open spec fn view(&self) -> RotationPolicyView {
        RotationPolicyView {
            basename: self.basename@,
            max_bytes: self.max_bytes,
            keep_files: self.keep_files,
        }
    }
}

/// The rotation policy for a maximum size of `max_bytes`: files are named
/// `restic_backup` and three rotated files are kept.
pub open spec fn rotation_for(max_bytes: u64) -> RotationPolicyView {
    RotationPolicyView { basename: "restic_backup"@, max_bytes, keep_files: 3 }
}

/// The rotation policy that a logging configuration asks for.
pub open spec fn rotation_of(max_size: Seq<char>) -> Result<RotationPolicyView, SizeFormatError> {
    match size_in_bytes(max_size) {
        Ok(max_bytes) => Ok(rotation_for(max_bytes)),
        Err(error) => Err(error),
    }
}

/// Works out how the log rotates from the configured maximum size.
pub fn rotation_policy(logging: &LoggingConfig) -> (policy: Result<RotationPolicy, SizeFormatError>)
    ensures
        match policy {
            Ok(policy) => rotation_of(logging@.max_size) == Ok::<
                RotationPolicyView,
                SizeFormatError,
            >(policy@),
            Err(error) => rotation_of(logging@.max_size) == Err::<
                RotationPolicyView,
                SizeFormatError,
            >(error),
        },
{
    match parse_size(logging.max_size.as_str()) {
        Ok(max_bytes) => Ok(
            RotationPolicy {
                basename: String::from_str("restic_backup"),
                max_bytes,
                keep_files: 3,
            },
        ),
        Err(error) => Err(error),
    }
}

/// Every file that the rotation writes is listed as a log file.
pub proof fn lemma_rotated_files_are_listed(file: LogFileView, max_bytes: u64)
    requires
        rotation_for(max_bytes).basename.is_prefix_of(file.name),
    ensures
        is_log_file(file),
{
}

/// A log directory that begins with `~` is read relative to the home
/// directory.
pub open spec fn needs_home(directory: Seq<char>) -> bool {
    "~"@.is_prefix_of(directory)
}

/// `directory` with its leading `~` replaced by `home`; a `~` anywhere
/// else is an ordinary character and stays.
pub open spec fn with_home(directory: Seq<char>, home: Seq<char>) -> Seq<char> {
    if needs_home(directory) {
        home + directory.skip(1)
    } else {
        directory
    }
}

/// The directory in which the log is kept.
pub open spec fn resolved_directory(directory: Seq<char>, home: Option<Seq<char>>) -> Result<
    Seq<char>,
    LoggingSetupError,
> {
    if needs_home(directory) {
        match home {
            Some(home) => Ok(with_home(directory, home)),
            None => Err(LoggingSetupError::HomeNotSet),
        }
    } else {
        Ok(directory)
    }
}

/// Replaces the leading `~` of `directory`, if it has one, by `home`.
pub fn expand_home(directory: &str, home: &str) -> (expanded: String)
    ensures
        expanded@ == with_home(directory@, home@),
{
    if starts_with(directory, "~") {
        proof {
            reveal_strlit("~");
        }
        let length = directory.unicode_len();
        let mut expanded = String::from_str(home);
        expanded.append(directory.substring_char(1, length));
        assert(directory@.subrange(1, length as int) =~= directory@.skip(1));
        expanded
    } else {
        String::from_str(directory)
    }
}

/// Resolves the directory in which the log is kept. `home` is the home
/// directory, where one is known; it is needed only for a directory that
/// begins with `~`.
pub fn resolve_log_directory(directory: &str, home: Option<&str>) -> (resolved: Result<
    String,
    LoggingSetupError,
>)
    ensures
        match resolved {
            Ok(path) => resolved_directory(directory@, home.deep_view()) == Ok::<
                Seq<char>,
                LoggingSetupError,
            >(path@),
            Err(error) => resolved_directory(directory@, home.deep_view()) == Err::<
                Seq<char>,
                LoggingSetupError,
            >(error),
        },
{
    if starts_with(directory, "~") {
        match home {
            Some(home) => Ok(expand_home(directory, home)),
            None => Err(LoggingSetupError::HomeNotSet),
        }
    } else {
        Ok(String::from_str(directory))
    }
}

} // verus!
