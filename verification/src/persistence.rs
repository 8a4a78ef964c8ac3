//! Files that survive an interruption: their names, and the steps by which they
//! are written.

use crate::paths;
use crate::text;
use vstd::prelude::*;

verus! {

pub const FILE_LOCK_TIMEOUT_MS: u64 = 1_000;

/// How many names are tried for a file that must not exist yet.
pub const NAME_ATTEMPTS: u32 = 128;

/// The name of a file, or a stand-in.
pub open spec fn name_or_data(path: Seq<char>) -> Seq<char> {
    match paths::name_of(path) {
        Some(name) => name,
        None => "data"@,
    }
}

fn name_or_stand_in(path: &str) -> (r: String)
    ensures
        r@ == name_or_data(path@),
{
    match paths::file_name(path) {
        Some(name) => name,
        None => "data".to_owned(),
    }
}

/// The file whose lock guards another file: hidden beside it.
pub open spec fn lock_path_of(path: Seq<char>) -> Seq<char> {
    paths::renamed(path, "."@ + name_or_data(path) + ".lock"@)
}

/// The file whose lock guards another file.
pub fn sibling_lock_path(path: &str) -> (r: String)
    ensures
        r@ == lock_path_of(path@),
{
    let name = text::concat3(".", name_or_stand_in(path).as_str(), ".lock");
    paths::with_file_name(path, name.as_str())
}

/// The name of a file that stands in for another one while it is written.
pub open spec fn temporary_name_of(path: Seq<char>, process: u32, nanos: u128, sequence: u64) -> Seq<char> {
    "."@ + name_or_data(path) + ".tmp-"@ + text::decimal(process as nat) + "-"@ + text::plain_hex(
        nanos as nat,
    ) + "-"@ + text::plain_hex(sequence as nat)
}

/// The name of a file that stands in for another one while it is written.
pub fn temporary_name(path: &str, process: u32, nanos: u128, sequence: u64) -> (r: String)
    ensures
        r@ == temporary_name_of(path@, process, nanos, sequence),
{
    let mut r = text::concat3(".", name_or_stand_in(path).as_str(), ".tmp-");
    text::push_decimal(&mut r, process as u64);
    r.append("-");
    text::push_plain_hex(&mut r, nanos);
    r.append("-");
    text::push_plain_hex(&mut r, sequence as u128);
    r
}

/// A label without anything but letters, digits and hyphens.
pub open spec fn plain_label(label: Seq<char>) -> Seq<char> {
    let kept = label.filter(|c: char| text::is_alphanumeric(c) || c == '-');
    if kept.len() == 0 {
        "invalid"@
    } else {
        kept
    }
}

fn keep_plain(label: &str) -> (r: String)
    ensures
        r@ == plain_label(label@),
{
    let chars = text::chars_of(label);
    let ghost keep = |c: char| text::is_alphanumeric(c) || c == '-';
    let mut r = String::new();
    let mut i: usize = 0;
    assert(label@.take(0).filter(keep) =~= Seq::<char>::empty()) by {
        assert(label@.take(0) =~= Seq::<char>::empty());
        reveal(Seq::filter);
    }
    while i < chars.len()
        invariant
            chars@ == label@,
            i <= chars@.len(),
            keep == (|c: char| text::is_alphanumeric(c) || c == '-'),
            r@ == label@.take(i as int).filter(keep),
        decreases chars@.len() - i,
    {
        let c = chars[i];
        proof {
            reveal(Seq::filter);
            assert(label@.take(i + 1).drop_last() =~= label@.take(i as int));
            assert(label@.take(i + 1).last() == c);
        }
        if text::alphanumeric(c) || c == '-' {
            r.push(c);
        }
        i += 1;
    }
    assert(label@.take(label@.len() as int) =~= label@);
    if r.as_str().is_empty() {
        return "invalid".to_owned();
    }
    r
}

/// The name under which a file that cannot be used is kept.
pub open spec fn quarantine_name_of(
    path: Seq<char>,
    label: Seq<char>,
    seconds: u64,
    sequence: u64,
) -> Seq<char> {
    name_or_data(path) + "."@ + plain_label(label) + "-"@ + text::decimal(seconds as nat) + "-"@
        + text::plain_hex(sequence as nat) + ".bak"@
}

/// The name under which a file that cannot be used is kept.
pub fn quarantine_name(path: &str, label: &str, seconds: u64, sequence: u64) -> (r: String)
    ensures
        r@ == quarantine_name_of(path@, label@, seconds, sequence),
{
    let mut r = text::concat3(name_or_stand_in(path).as_str(), ".", keep_plain(label).as_str());
    r.append("-");
    text::push_decimal(&mut r, seconds);
    r.append("-");
    text::push_plain_hex(&mut r, sequence as u128);
    r.append(".bak");
    r
}

/// What is said where something could not be done with a file.
pub open spec fn fault_text(operation: Seq<char>, path: Seq<char>, source: Seq<char>) -> Seq<char> {
    "could not "@ + operation + " "@ + path + ": "@ + source
}

/// What is said where something could not be done with a file.
pub fn persistence_error(operation: &str, path: &str, source: &str) -> (r: String)
    ensures
        r@ == fault_text(operation@, path@, source@),
{
    let mut r = text::concat3("could not ", operation, " ");
    r.append(path);
    r.append(": ");
    r.append(source);
    r
}

/// Those of the first `n` pieces of a path that name a directory.
pub open spec fn named_pieces(parts: Seq<Seq<char>>, n: nat) -> Seq<Seq<char>>
    decreases n,
{
    if n == 0 || n > parts.len() {
        Seq::empty()
    } else {
        let before = named_pieces(parts, (n - 1) as nat);
        if parts[n - 1].len() == 0 || parts[n - 1] == "."@ {
            before
        } else {
            before.push(parts[n - 1])
        }
    }
}

/// The directories of a path, one below the other, or what is wrong with it.
pub open spec fn directories_of(path: Seq<char>) -> Result<Seq<Seq<char>>, Seq<char>> {
    let parts = text::pieces(path, '/');
    let named = named_pieces(parts, parts.len());
    if parts.contains(".."@) {
        Err("private directory path contains an unsafe component"@)
    } else if named.len() == 0 {
        Err("private directory path does not name a directory below the filesystem root"@)
    } else {
        Ok(named)
    }
}

/// The directories of a path, one below the other. A path that goes up, or that
/// names none, is refused.
pub fn private_directory_components(path: &str) -> (r: Result<Vec<String>, &'static str>)
    ensures
        match directories_of(path@) {
            Ok(named) => r is Ok && text::texts(r->Ok_0@) == named,
            Err(detail) => r is Err && r->Err_0@ == detail,
        },
{
    let parts = text::split(path, '/');
    let ghost all = text::pieces(path@, '/');
    let mut named: Vec<String> = Vec::new();
    let mut i: usize = 0;
    assert(text::texts(named@) =~= named_pieces(all, 0));
    while i < parts.len()
        invariant
            all == text::pieces(path@, '/'),
            text::texts(parts@) == all,
            i <= parts@.len(),
            text::texts(named@) == named_pieces(all, i as nat),
            forall|k: int| 0 <= k < i ==> all[k] != ".."@,
        decreases parts@.len() - i,
    {
        let part = parts[i].as_str();
        assert(all[i as int] == parts@[i as int]@);
        if text::same_text(part, "..") {
            return Err("private directory path contains an unsafe component");
        }
        if !part.is_empty() && !text::same_text(part, ".") {
            named.push(parts[i].clone());
        }
        i += 1;
        assert(text::texts(named@) =~= named_pieces(all, i as nat));
    }
    if named.len() == 0 {
        return Err("private directory path does not name a directory below the filesystem root");
    }
    Ok(named)
}

/// No directory that is created for private files is reached by going up, or is the
/// place where the path begins.
pub proof fn law_private_directories_lie_below_the_start(path: Seq<char>, i: int)
    requires
        directories_of(path) is Ok,
        0 <= i < directories_of(path)->Ok_0.len(),
    ensures
        directories_of(path)->Ok_0[i] != ".."@,
        directories_of(path)->Ok_0[i] != "."@,
        directories_of(path)->Ok_0[i].len() > 0,
{
    let parts = text::pieces(path, '/');
    lemma_named_pieces(parts, parts.len(), i);
}

proof fn lemma_named_pieces(parts: Seq<Seq<char>>, n: nat, i: int)
    requires
        n <= parts.len(),
        0 <= i < named_pieces(parts, n).len(),
    ensures
        parts.contains(named_pieces(parts, n)[i]),
        named_pieces(parts, n)[i] != "."@,
        named_pieces(parts, n)[i].len() > 0,
    decreases n,
{
    if n > 0 {
        let before = named_pieces(parts, (n - 1) as nat);
        if i < before.len() {
            lemma_named_pieces(parts, (n - 1) as nat, i);
        } else {
            assert(parts[n - 1] == named_pieces(parts, n)[i]);
        }
    }
}

/// What a wait for a lock comes to: how long to sleep, and how long the next time.
#[derive(Clone, Copy, Debug, PartialEq, Eq)]
pub struct LockWait {
    pub sleep_ms: u64,
    pub next_delay_ms: u64,
}

/// How to go on waiting for a lock that another process holds: with pauses that
/// grow up to 50 milliseconds, and not beyond the deadline.
pub open spec fn wait_after(now: u64, deadline: u64, delay: u64) -> Option<LockWait> {
    if deadline < now {
        None
    } else {
        Some(
            LockWait {
                sleep_ms: if delay < deadline - now {
                    delay
                } else {
                    (deadline - now) as u64
                },
                next_delay_ms: if delay * 2 < 50 {
                    (delay * 2) as u64
                } else {
                    50
                },
            },
        )
    }
}

/// How to go on waiting for a lock.
pub fn wait_for_lock(now: u64, deadline: u64, delay: u64) -> (r: Option<LockWait>)
    ensures
        r == wait_after(now, deadline, delay),
{
    if deadline < now {
        return None;
    }
    let remaining: u64 = deadline - now;
    let sleep_ms: u64 = if delay < remaining {
        delay
    } else {
        remaining
    };
    let next_delay_ms: u64 = if delay < 25 {
        delay * 2
    } else {
        50
    };
    Some(LockWait { sleep_ms, next_delay_ms })
}

/// What is to be done to replace a file.
#[derive(Clone, Copy, Debug, PartialEq, Eq, Structural)]
pub enum WriteStep {
    WriteTemporary,
    SyncTemporary,
    Rename,
    SyncDirectory,
    Done,
    /// Something failed: the file that stands in is removed, and the failure told.
    RemoveTemporary,
}

/// What is to be done next, from how the step went.
pub open spec fn step_after(step: WriteStep, succeeded: bool) -> WriteStep {
    if step == WriteStep::Done || step == WriteStep::RemoveTemporary {
        step
    } else if !succeeded {
        WriteStep::RemoveTemporary
    } else {
        match step {
            WriteStep::WriteTemporary => WriteStep::SyncTemporary,
            WriteStep::SyncTemporary => WriteStep::Rename,
            WriteStep::Rename => WriteStep::SyncDirectory,
            _ => WriteStep::Done,
        }
    }
}

/// What is to be done next to replace a file.
pub fn next_write_step(step: WriteStep, succeeded: bool) -> (r: WriteStep)
    ensures
        r == step_after(step, succeeded),
{
    match step {
        WriteStep::Done => WriteStep::Done,
        WriteStep::RemoveTemporary => WriteStep::RemoveTemporary,
        _ => {
            if !succeeded {
                return WriteStep::RemoveTemporary;
            }
            match step {
                WriteStep::WriteTemporary => WriteStep::SyncTemporary,
                WriteStep::SyncTemporary => WriteStep::Rename,
                WriteStep::Rename => WriteStep::SyncDirectory,
                _ => WriteStep::Done,
            }
        },
    }
}

/// A file is replaced only by one that is on disk as a whole, and the replacement
/// counts only once the directory is on disk.
pub proof fn law_files_are_replaced_as_a_whole(step: WriteStep, succeeded: bool)
    ensures
        step_after(step, succeeded) == WriteStep::Rename ==> step == WriteStep::SyncTemporary
            && succeeded,
        step != WriteStep::Done && step_after(step, succeeded) == WriteStep::Done ==> step
            == WriteStep::SyncDirectory && succeeded,
{
}

/// The names of files that are written under different numbers differ.
pub proof fn law_fresh_names_differ(
    path: Seq<char>,
    label: Seq<char>,
    process: u32,
    nanos: u128,
    seconds: u64,
    first: u64,
    second: u64,
)
    requires
        first != second,
    ensures
        temporary_name_of(path, process, nanos, first) != temporary_name_of(
            path,
            process,
            nanos,
            second,
        ),
        quarantine_name_of(path, label, seconds, first) != quarantine_name_of(
            path,
            label,
            seconds,
            second,
        ),
{
    let a = text::plain_hex(first as nat);
    let b = text::plain_hex(second as nat);
    let start = "."@ + name_or_data(path) + ".tmp-"@ + text::decimal(process as nat) + "-"@
        + text::plain_hex(nanos as nat) + "-"@;
    if start + a == start + b {
        assert((start + a).skip(start.len() as int) =~= a);
        assert((start + b).skip(start.len() as int) =~= b);
        text::lemma_plain_hex_is_unique(first as nat, second as nat);
    }
    let begin = name_or_data(path) + "."@ + plain_label(label) + "-"@ + text::decimal(
        seconds as nat,
    ) + "-"@;
    let end = ".bak"@;
    if begin + a + end == begin + b + end {
        let whole = begin + a + end;
        assert(whole.subrange(begin.len() as int, whole.len() - end.len()) =~= a);
        assert((begin + b + end).subrange(begin.len() as int, whole.len() - end.len()) =~= b);
        text::lemma_plain_hex_is_unique(first as nat, second as nat);
    }
}

/// How something that was to be done with a file failed.
#[derive(Debug, PartialEq, Eq)]
pub struct FileFault {
    /// The file exists although it must not.
    pub exists: bool,
    /// The file does not exist although it should.
    pub missing: bool,
    pub detail: String,
}

/// What a fresh name is wanted for.
#[derive(Clone, Copy, Debug, PartialEq, Eq, Structural)]
pub enum NamePurpose {
    /// A file that stands in for another one while it is written.
    Temporary,
    /// A file that cannot be used, and that is kept.
    Quarantine,
}

/// The search for a name that no file has yet.
#[derive(Debug, PartialEq, Eq)]
pub struct NameSearch {
    pub purpose: NamePurpose,
    /// The file that is to be replaced or kept.
    pub target: String,
    /// How many names were taken already.
    pub attempts: u32,
}

/// How the search for a name goes on.
#[derive(Debug, PartialEq, Eq)]
pub enum NameStep {
    /// The name was free.
    Found,
    /// The next name is tried.
    TryNext,
    /// The search is given up.
    Fail(String),
}

/// The mathematical value of [`NameStep`].
#[verifier::ext_equal]
pub enum NameStepView {
    Found,
    TryNext,
    Fail(Seq<char>),
}

impl View for NameStep {
    type V = NameStepView;

    open spec fn view(&self) -> NameStepView {
        match self {
            NameStep::Found => NameStepView::Found,
            NameStep::TryNext => NameStepView::TryNext,
            NameStep::Fail(detail) => NameStepView::Fail(detail@),
        }
    }
}

/// What is said where all names were taken.
pub open spec fn exhausted_text(purpose: NamePurpose, target: Seq<char>) -> Seq<char> {
    match purpose {
        NamePurpose::Temporary => fault_text(
            "create temporary file for"@,
            target,
            "temporary file namespace is exhausted"@,
        ),
        NamePurpose::Quarantine => fault_text(
            "quarantine"@,
            target,
            "quarantine filename namespace is exhausted"@,
        ),
    }
}

/// How the search goes on after a name was tried: only where a file has the name
/// already, and not for ever, is another one tried.
pub open spec fn name_step(
    purpose: NamePurpose,
    target: Seq<char>,
    attempts: u32,
    tried: Seq<char>,
    result: Result<(), FileFault>,
) -> NameStepView {
    match result {
        Ok(_) => NameStepView::Found,
        Err(fault) => if fault.exists {
            if attempts + 1 < NAME_ATTEMPTS {
                NameStepView::TryNext
            } else {
                NameStepView::Fail(exhausted_text(purpose, target))
            }
        } else {
            match purpose {
                NamePurpose::Temporary => NameStepView::Fail(
                    fault_text("create temporary file"@, tried, fault.detail@),
                ),
                NamePurpose::Quarantine => NameStepView::Fail(
                    fault_text("quarantine"@, target, fault.detail@),
                ),
            }
        },
    }
}

impl NameSearch {
    /// A search in which nothing was tried yet.
    pub fn begin(purpose: NamePurpose, target: &str) -> (r: Self)
        ensures
            r.purpose == purpose,
            r.target@ == target@,
            r.attempts == 0,
    {
        NameSearch { purpose, target: target.to_owned(), attempts: 0 }
    }

    /// A name was tried.
    pub fn tried(&mut self, name: &str, result: Result<(), FileFault>) -> (r: NameStep)
        ensures
            r@ == name_step(
                old(self).purpose,
                old(self).target@,
                old(self).attempts,
                name@,
                result,
            ),
            final(self).purpose == old(self).purpose,
            final(self).target == old(self).target,
            final(self).attempts == old(self).attempts + (if r is TryNext {
                1int
            } else {
                0
            }),
    {
        match result {
            Ok(_) => NameStep::Found,
            Err(fault) => {
                if fault.exists {
                    if self.attempts < NAME_ATTEMPTS - 1 {
                        self.attempts = self.attempts + 1;
                        return NameStep::TryNext;
                    }
                    return NameStep::Fail(
                        match self.purpose {
                            NamePurpose::Temporary => persistence_error(
                                "create temporary file for",
                                self.target.as_str(),
                                "temporary file namespace is exhausted",
                            ),
                            NamePurpose::Quarantine => persistence_error(
                                "quarantine",
                                self.target.as_str(),
                                "quarantine filename namespace is exhausted",
                            ),
                        },
                    );
                }
                NameStep::Fail(
                    match self.purpose {
                        NamePurpose::Temporary => persistence_error(
                            "create temporary file",
                            name,
                            fault.detail.as_str(),
                        ),
                        NamePurpose::Quarantine => persistence_error(
                            "quarantine",
                            self.target.as_str(),
                            fault.detail.as_str(),
                        ),
                    },
                )
            },
        }
    }
}

/// A search for a name ends: after a bounded number of names that were taken, and after
/// one name that was not, whatever became of it.
pub proof fn law_name_searches_end(
    purpose: NamePurpose,
    target: Seq<char>,
    attempts: u32,
    tried: Seq<char>,
    result: Result<(), FileFault>,
)
    ensures
        name_step(purpose, target, attempts, tried, result) is TryNext ==> attempts + 1
            < NAME_ATTEMPTS && result is Err && result->Err_0.exists,
{
}

/// Whether there is a file to be kept.
pub fn begin_quarantine(path: &str, inspected: Result<(), FileFault>) -> (r: Result<bool, String>)
    ensures
        match inspected {
            Ok(_) => r == Ok::<bool, String>(true),
            Err(fault) => if fault.missing {
                r == Ok::<bool, String>(false)
            } else {
                r is Err && r->Err_0@ == fault_text("inspect"@, path@, fault.detail@)
            },
        },
{
    match inspected {
        Ok(_) => Ok(true),
        Err(fault) => {
            if fault.missing {
                Ok(false)
            } else {
                Err(persistence_error("inspect", path, fault.detail.as_str()))
            }
        },
    }
}

/// What became of the removal of a file: whether its directory has to be brought to
/// disk. A file that is missing counts as removed.
pub fn conclude_removal(path: &str, removed: Result<(), FileFault>) -> (r: Result<bool, String>)
    ensures
        match removed {
            Ok(_) => r == Ok::<bool, String>(true),
            Err(fault) => if fault.missing {
                r == Ok::<bool, String>(false)
            } else {
                r is Err && r->Err_0@ == fault_text("remove"@, path@, fault.detail@)
            },
        },
{
    match removed {
        Ok(_) => Ok(true),
        Err(fault) => {
            if fault.missing {
                Ok(false)
            } else {
                Err(persistence_error("remove", path, fault.detail.as_str()))
            }
        },
    }
}

/// The directory of a file.
pub fn parent_directory(path: &str) -> (r: Result<String, String>)
    ensures
        match paths::parent_of(path@) {
            Some(directory) => r is Ok && r->Ok_0@ == directory,
            None => r is Err && r->Err_0@ == fault_text(
                "resolve parent for"@,
                path@,
                "path has no parent directory"@,
            ),
        },
{
    match paths::parent(path) {
        Some(directory) => Ok(directory),
        None => Err(persistence_error("resolve parent for", path, "path has no parent directory")),
    }
}

/// How an attempt to take a lock went.
#[derive(Debug, PartialEq, Eq)]
pub enum LockAttempt {
    Taken,
    /// Another process holds it.
    Busy,
    Failed(String),
}

/// How the taking of a lock goes on.
#[derive(Debug, PartialEq, Eq)]
pub enum LockStep {
    Held,
    Wait(LockWait),
    Fail(String),
}

/// How the taking of a lock goes on after an attempt.
pub fn lock_step(path: &str, attempt: LockAttempt, now: u64, deadline: u64, delay: u64) -> (r:
    LockStep)
    ensures
        match attempt {
            LockAttempt::Taken => r is Held,
            LockAttempt::Failed(detail) => r matches LockStep::Fail(text) && text@ == fault_text(
                "lock"@,
                path@,
                detail@,
            ),
            LockAttempt::Busy => match wait_after(now, deadline, delay) {
                Some(wait) => r == LockStep::Wait(wait),
                None => r matches LockStep::Fail(text) && text@ == fault_text(
                    "lock"@,
                    path@,
                    "another Dogi process kept the file busy beyond the lock timeout"@,
                ),
            },
        },
{
    match attempt {
        LockAttempt::Taken => LockStep::Held,
        LockAttempt::Failed(detail) => LockStep::Fail(
            persistence_error("lock", path, detail.as_str()),
        ),
        LockAttempt::Busy => match wait_for_lock(now, deadline, delay) {
            Some(wait) => LockStep::Wait(wait),
            None => LockStep::Fail(
                persistence_error(
                    "lock",
                    path,
                    "another Dogi process kept the file busy beyond the lock timeout",
                ),
            ),
        },
    }
}

/// A wait for a lock never reaches beyond its deadline, and no pause is longer than 50
/// milliseconds.
pub proof fn law_lock_waits_are_bounded(now: u64, deadline: u64, delay: u64)
    requires
        delay <= 50,
    ensures
        wait_after(now, deadline, delay) matches Some(wait) ==> now + wait.sleep_ms <= deadline
            && wait.sleep_ms <= 50 && wait.next_delay_ms <= 50,
{
}

/// A file is written to one beside it, made durable, put in its place, and then the directory is
/// made durable; where a step fails the other file is removed.
pub proof fn law_files_are_written_in_these_steps(step: WriteStep)
    ensures
        step_after(WriteStep::WriteTemporary, true) == WriteStep::SyncTemporary,
        step_after(WriteStep::SyncTemporary, true) == WriteStep::Rename,
        step_after(WriteStep::Rename, true) == WriteStep::SyncDirectory,
        step_after(WriteStep::SyncDirectory, true) == WriteStep::Done,
        step != WriteStep::Done ==> step_after(step, false) == WriteStep::RemoveTemporary,
        step_after(WriteStep::Done, false) == WriteStep::Done,
{
}

/// A busy lock is waited for until the deadline, twice as long each time and no longer than
/// 50 milliseconds, and then given up.
pub proof fn law_busy_locks_are_waited_for(
    path: &str,
    attempt: LockAttempt,
    now: u64,
    deadline: u64,
    delay: u64,
)
    ensures
        FILE_LOCK_TIMEOUT_MS == 1000,
        wait_after(now, deadline, delay) is Some <==> now <= deadline,
        wait_after(now, deadline, delay) matches Some(wait) ==> {
            &&& delay <= deadline - now ==> wait.sleep_ms == delay
            &&& delay > deadline - now ==> wait.sleep_ms == deadline - now
            &&& delay <= 25 ==> wait.next_delay_ms == 2 * delay
            &&& delay > 25 ==> wait.next_delay_ms == 50
        },
        forall|r: LockStep|
            #![trigger call_ensures(lock_step, (path, attempt, now, deadline, delay), r)]
            call_ensures(lock_step, (path, attempt, now, deadline, delay), r) ==> {
                &&& attempt is Taken <==> r is Held
                &&& attempt is Failed ==> r is Fail
                &&& attempt is Busy && now <= deadline ==> r is Wait
                &&& attempt is Busy && now > deadline ==> r is Fail
            },
{
}

/// A name that is taken is followed by another, up to 128 of them; any other failure ends the
/// search, and a name that is free ends it with that name.
pub proof fn law_free_names_are_searched_for(
    purpose: NamePurpose,
    target: Seq<char>,
    attempts: u32,
    tried: Seq<char>,
    fault: FileFault,
)
    ensures
        name_step(purpose, target, attempts, tried, Ok(())) is Found,
        fault.exists && attempts < 127 ==> name_step(
            purpose,
            target,
            attempts,
            tried,
            Err(fault),
        ) is TryNext,
        !fault.exists || attempts >= 127 ==> name_step(
            purpose,
            target,
            attempts,
            tried,
            Err(fault),
        ) is Fail,
{
}

/// What belongs to a file lies beside it: its lock, a new version of it, and what was set aside.
pub proof fn law_names_are_made_from_the_file(
    directory: Seq<char>,
    name: Seq<char>,
    process: u32,
    nanos: u128,
    seconds: u64,
    sequence: u64,
)
    requires
        directory.len() > 0,
        paths::trimmed_len(directory, directory.len() as int) == directory.len(),
        name.len() > 0 && !name.contains('/'),
        name != "."@ && name != ".."@,
    ensures
        lock_path_of(paths::joined(directory, name)) == paths::joined(
            directory,
            "."@ + name + ".lock"@,
        ),
        temporary_name_of(paths::joined(directory, name), process, nanos, sequence) == "."@ + name
            + ".tmp-"@ + text::decimal(process as nat) + "-"@ + text::plain_hex(nanos as nat) + "-"@
            + text::plain_hex(sequence as nat),
        quarantine_name_of(paths::joined(directory, name), "corrupt"@, seconds, sequence) == name
            + "."@ + plain_label("corrupt"@) + "-"@ + text::decimal(seconds as nat) + "-"@
            + text::plain_hex(sequence as nat) + ".bak"@,
{
    paths::law_join_and_take_apart(directory, name);
}

/// A file that is not there needs neither to be set aside nor to be removed; any other failure
/// is told.
pub proof fn law_missing_files_are_no_failure(path: &str, fault: FileFault)
    ensures
        forall|r: Result<bool, String>|
            #![trigger call_ensures(begin_quarantine, (path, Ok(())), r)]
            call_ensures(begin_quarantine, (path, Ok(())), r) ==> r == Ok::<bool, String>(true),
        forall|r: Result<bool, String>|
            #![trigger call_ensures(begin_quarantine, (path, Err(fault)), r)]
            call_ensures(begin_quarantine, (path, Err(fault)), r) ==> (fault.missing ==> r == Ok::<
                bool,
                String,
            >(false)) && (!fault.missing ==> r is Err),
        forall|r: Result<bool, String>|
            #![trigger call_ensures(conclude_removal, (path, Ok(())), r)]
            call_ensures(conclude_removal, (path, Ok(())), r) ==> r == Ok::<bool, String>(true),
        forall|r: Result<bool, String>|
            #![trigger call_ensures(conclude_removal, (path, Err(fault)), r)]
            call_ensures(conclude_removal, (path, Err(fault)), r) ==> (fault.missing ==> r == Ok::<
                bool,
                String,
            >(false)) && (!fault.missing ==> r is Err),
{
}

/// A private directory is named by the pieces of its path, but for the empty ones and `.`, and
/// none of them leads up.
pub proof fn law_private_directories_are_named(path: Seq<char>)
    ensures
        text::pieces(path, '/').contains(".."@) ==> directories_of(path) is Err,
        (forall|k: int|
            0 <= k < text::pieces(path, '/').len() ==> (#[trigger] text::pieces(path, '/')[k]).len()
                > 0 && text::pieces(path, '/')[k] != "."@ && text::pieces(path, '/')[k] != ".."@)
            && text::pieces(path, '/').len() > 0 ==> directories_of(path) == Ok::<
            Seq<Seq<char>>,
            Seq<char>,
        >(text::pieces(path, '/')),
{
    let parts = text::pieces(path, '/');
    if forall|k: int|
        0 <= k < parts.len() ==> (#[trigger] parts[k]).len() > 0 && parts[k] != "."@ && parts[k]
            != ".."@ {
        lemma_all_named(parts, parts.len());
        assert(parts.take(parts.len() as int) =~= parts);
    }
}

proof fn lemma_all_named(parts: Seq<Seq<char>>, n: nat)
    requires
        n <= parts.len(),
        forall|k: int| 0 <= k < parts.len() ==> (#[trigger] parts[k]).len() > 0 && parts[k] != "."@,
    ensures
        named_pieces(parts, n) == parts.take(n as int),
    decreases n,
{
    if n > 0 {
        lemma_all_named(parts, (n - 1) as nat);
        assert(parts.take(n as int) =~= parts.take(n - 1).push(parts[n - 1]));
    } else {
        assert(parts.take(0) =~= Seq::empty());
    }
}

/// A label keeps its letters, its digits and its hyphens, and one without any is `invalid`.
pub proof fn law_labels_are_plain(label: Seq<char>)
    ensures
        label.len() > 0 && (forall|i: int|
            0 <= i < label.len() ==> {
                let c = #[trigger] label[i];
                'a' <= c <= 'z' || 'A' <= c <= 'Z' || '0' <= c <= '9' || c == '-'
            }) ==> plain_label(label) == label,
        (forall|i: int|
            0 <= i < label.len() ==> {
                let c = #[trigger] label[i];
                !('a' <= c <= 'z' || 'A' <= c <= 'Z' || '0' <= c <= '9' || c == '-')
            }) ==> plain_label(label) == "invalid"@,
{
    lemma_plain_filter(label);
}

proof fn lemma_plain_filter(label: Seq<char>)
    ensures
        (forall|i: int|
            0 <= i < label.len() ==> (text::is_alphanumeric(#[trigger] label[i]) || label[i] == '-'))
            ==> label.filter(|c: char| text::is_alphanumeric(c) || c == '-') == label,
        (forall|i: int|
            0 <= i < label.len() ==> !(text::is_alphanumeric(#[trigger] label[i]) || label[i] == '-'))
            ==> label.filter(|c: char| text::is_alphanumeric(c) || c == '-') == Seq::<char>::empty(),
    decreases label.len(),
{
    reveal(Seq::filter);
    if label.len() > 0 {
        let rest = label.drop_last();
        lemma_plain_filter(rest);
        assert(forall|i: int| 0 <= i < rest.len() ==> #[trigger] rest[i] == label[i]);
        assert(rest.push(label.last()) =~= label);
        let last = label[label.len() - 1];
        assert(label.last() == last);
    }
}

}
