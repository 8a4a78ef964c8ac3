//! What is unpacked of the archive of a portable release.

use crate::text;
use vstd::prelude::*;

verus! {

pub const MAX_ARCHIVE_ENTRIES: u64 = 256;

pub const MAX_UNPACKED_SIZE: u64 = 268435456;

/// A step on the way that a path names.
#[derive(Debug, PartialEq, Eq)]
pub enum PathPart {
    Root,
    Here,
    Up,
    Name(String),
}

/// The mathematical value of [`PathPart`].
#[verifier::ext_equal]
pub enum PartView {
    Root,
    Here,
    Up,
    Name(Seq<char>),
}

impl View for PathPart {
    type V = PartView;

    open spec fn view(&self) -> PartView {
        match self {
            PathPart::Root => PartView::Root,
            PathPart::Here => PartView::Here,
            PathPart::Up => PartView::Up,
            PathPart::Name(name) => PartView::Name(name@),
        }
    }
}

/// The views of some steps.
pub open spec fn part_views(parts: Seq<PathPart>) -> Seq<PartView> {
    parts.map_values(|part: PathPart| part@)
}

/// The steps that the first `n` pieces of a path between its slashes name. A piece that
/// names the place itself counts only where the path starts with it.
pub open spec fn parts_of_pieces(pieces: Seq<Seq<char>>, n: nat) -> Seq<PartView>
    decreases n,
{
    if n == 0 {
        Seq::empty()
    } else {
        let before = parts_of_pieces(pieces, (n - 1) as nat);
        let piece = pieces[n - 1];
        if piece.len() == 0 {
            if n == 1 && pieces.len() > 1 {
                before.push(PartView::Root)
            } else {
                before
            }
        } else if piece == "."@ {
            if n == 1 {
                before.push(PartView::Here)
            } else {
                before
            }
        } else if piece == ".."@ {
            before.push(PartView::Up)
        } else {
            before.push(PartView::Name(piece))
        }
    }
}

/// The steps that a path names.
pub open spec fn parts_of(path: Seq<char>) -> Seq<PartView> {
    let pieces = text::pieces(path, '/');
    parts_of_pieces(pieces, pieces.len())
}

/// Takes a path apart into the steps that it names.
pub fn path_parts(path: &str) -> (r: Vec<PathPart>)
    ensures
        part_views(r@) == parts_of(path@),
{
    let mut pieces = text::split(path, '/');
    let ghost all = text::pieces(path@, '/');
    let count: usize = pieces.len();
    assert(text::texts(pieces@).len() == pieces@.len());
    let ghost whole = pieces@;
    let mut parts: Vec<PathPart> = Vec::new();
    let mut i: usize = 0;
    assert(part_views(parts@) =~= Seq::empty());
    while i < count
        invariant
            all == text::texts(whole),
            count == whole.len(),
            i <= count,
            pieces@ == whole.skip(i as int),
            part_views(parts@) == parts_of_pieces(all, i as nat),
        decreases count - i,
    {
        let piece = pieces.remove(0);
        assert(piece == whole[i as int]);
        assert(all[i as int] == piece@);
        let ghost before = parts@;
        if piece.as_str().is_empty() {
            if i == 0 && count > 1 {
                parts.push(PathPart::Root);
                assert(part_views(parts@) =~= part_views(before).push(PartView::Root));
            }
        } else if text::same_text(piece.as_str(), ".") {
            if i == 0 {
                parts.push(PathPart::Here);
                assert(part_views(parts@) =~= part_views(before).push(PartView::Here));
            }
        } else if text::same_text(piece.as_str(), "..") {
            parts.push(PathPart::Up);
            assert(part_views(parts@) =~= part_views(before).push(PartView::Up));
        } else {
            parts.push(PathPart::Name(piece));
            assert(part_views(parts@) =~= part_views(before).push(PartView::Name(piece@)));
        }
        i += 1;
        assert(pieces@ =~= whole.skip(i as int));
    }
    parts
}

/// A path starts anywhere but below its first step.
proof fn lemma_later_parts(pieces: Seq<Seq<char>>, n: nat, k: int)
    requires
        n <= pieces.len(),
        1 <= k < parts_of_pieces(pieces, n).len(),
    ensures
        parts_of_pieces(pieces, n)[k] is Up || parts_of_pieces(pieces, n)[k] is Name,
    decreases n,
{
    let before = parts_of_pieces(pieces, (n - 1) as nat);
    if k < before.len() {
        lemma_later_parts(pieces, (n - 1) as nat, k);
        assert(parts_of_pieces(pieces, n)[k] == before[k]);
    } else {
        lemma_parts_len(pieces, (n - 1) as nat);
    }
}

proof fn lemma_parts_len(pieces: Seq<Seq<char>>, n: nat)
    ensures
        parts_of_pieces(pieces, n).len() <= n,
    decreases n,
{
    if n > 0 {
        lemma_parts_len(pieces, (n - 1) as nat);
    }
}

/// The steps of a path below a place; nothing where the path does not lead there.
pub open spec fn below(parts: Seq<PartView>, root: Seq<PartView>) -> Option<Seq<PartView>> {
    if root.len() <= parts.len() && parts.take(root.len() as int) == root {
        Some(parts.skip(root.len() as int))
    } else {
        None
    }
}

/// Whether a way leads out of its place.
pub open spec fn leads_out(parts: Seq<PartView>) -> bool {
    exists|i: int| 0 <= i < parts.len() && (#[trigger] parts[i] is Up || parts[i] is Root)
}

/// A way as a path, up to step `n`.
pub open spec fn path_text(parts: Seq<PartView>, n: nat) -> Seq<char>
    decreases n,
{
    if n == 0 {
        Seq::empty()
    } else {
        let name = match parts[n - 1] {
            PartView::Name(name) => name,
            PartView::Up => ".."@,
            PartView::Here => "."@,
            PartView::Root => Seq::empty(),
        };
        if n == 1 {
            name
        } else {
            path_text(parts, (n - 1) as nat) + "/"@ + name
        }
    }
}

/// What an entry of an archive is.
#[derive(Clone, Copy, Debug, PartialEq, Eq, Structural)]
pub enum EntryKind {
    File,
    Directory,
    Other,
}

/// What is done with an entry of an archive.
#[derive(Debug, PartialEq, Eq)]
pub enum Admission {
    /// It is the place of the package itself.
    Skip,
    CreateDirectory(String),
    WriteFile(String),
}

/// The mathematical value of [`Admission`].
pub enum AdmissionView {
    Refuse(Seq<char>),
    Skip,
    CreateDirectory(Seq<char>),
    WriteFile(Seq<char>),
}

/// The view of what is done with an entry, or of why it is refused.
pub open spec fn admission_view(answer: Result<Admission, String>) -> AdmissionView {
    match answer {
        Ok(Admission::Skip) => AdmissionView::Skip,
        Ok(Admission::CreateDirectory(path)) => AdmissionView::CreateDirectory(path@),
        Ok(Admission::WriteFile(path)) => AdmissionView::WriteFile(path@),
        Err(detail) => AdmissionView::Refuse(detail@),
    }
}

/// What was seen of an archive.
#[derive(Debug, PartialEq, Eq)]
pub struct ArchiveReader {
    pub root: Vec<PathPart>,
    pub entries: u64,
    pub unpacked: u64,
    pub seen: Vec<Vec<PathPart>>,
}

/// The mathematical value of [`ArchiveReader`].
#[verifier::ext_equal]
pub struct ArchiveView {
    pub root: Seq<PartView>,
    pub entries: u64,
    pub unpacked: u64,
    pub seen: Seq<Seq<PartView>>,
}

/// The views of the ways that were seen.
pub open spec fn seen_views(seen: Seq<Vec<PathPart>>) -> Seq<Seq<PartView>> {
    seen.map_values(|parts: Vec<PathPart>| part_views(parts@))
}

impl View for ArchiveReader {
    type V = ArchiveView;

    open spec fn view(&self) -> ArchiveView {
        ArchiveView {
            root: part_views(self.root@),
            entries: self.entries,
            unpacked: self.unpacked,
            seen: seen_views(self.seen@),
        }
    }
}

impl ArchiveView {
    /// The archive is in its bounds, and nothing was seen twice.
    pub open spec fn wf(self) -> bool {
        &&& self.root.len() > 0
        &&& self.entries <= MAX_ARCHIVE_ENTRIES
        &&& self.unpacked <= MAX_UNPACKED_SIZE
        &&& self.seen.no_duplicates()
    }
}

/// An entry of an archive: how large it is, what it is, and its path, or why its path
/// cannot be told.
pub struct EntryView {
    pub size: u64,
    pub kind: EntryKind,
    pub path: Result<Seq<char>, Seq<char>>,
}

/// What is done with an entry.
pub open spec fn admission(archive: ArchiveView, entry: EntryView) -> AdmissionView {
    if archive.entries + 1 > MAX_ARCHIVE_ENTRIES {
        AdmissionView::Refuse("the portable update contains too many files"@)
    } else if archive.unpacked + entry.size > u64::MAX {
        AdmissionView::Refuse("the portable update is too large"@)
    } else if archive.unpacked + entry.size > MAX_UNPACKED_SIZE {
        AdmissionView::Refuse("the portable update expands beyond the safety limit"@)
    } else if entry.kind == EntryKind::Other {
        AdmissionView::Refuse("the portable update contains an unsupported entry type"@)
    } else {
        match entry.path {
            Err(detail) => AdmissionView::Refuse(
                "the portable update contains an invalid path: "@ + detail,
            ),
            Ok(path) => match below(parts_of(path), archive.root) {
                None => AdmissionView::Refuse(
                    "the portable update contains a file outside its package root"@,
                ),
                Some(parts) => if parts.len() == 0 {
                    AdmissionView::Skip
                } else if leads_out(parts) {
                    AdmissionView::Refuse("the portable update contains an unsafe path"@)
                } else if archive.seen.contains(parts) {
                    AdmissionView::Refuse("the portable update contains duplicate paths"@)
                } else if entry.kind == EntryKind::Directory {
                    AdmissionView::CreateDirectory(path_text(parts, parts.len()))
                } else {
                    AdmissionView::WriteFile(path_text(parts, parts.len()))
                },
            },
        }
    }
}

/// The way below the package that an entry names.
pub open spec fn way_of(archive: ArchiveView, entry: EntryView) -> Seq<PartView> {
    parts_of(entry.path->Ok_0).skip(archive.root.len() as int)
}

/// What was seen of an archive after an entry; nothing more where it is refused.
pub open spec fn archive_after(archive: ArchiveView, entry: EntryView) -> ArchiveView {
    match admission(archive, entry) {
        AdmissionView::Refuse(_) => archive,
        AdmissionView::Skip => ArchiveView {
            entries: (archive.entries + 1) as u64,
            unpacked: (archive.unpacked + entry.size) as u64,
            ..archive
        },
        _ => ArchiveView {
            entries: (archive.entries + 1) as u64,
            unpacked: (archive.unpacked + entry.size) as u64,
            seen: archive.seen.push(way_of(archive, entry)),
            ..archive
        },
    }
}

/// Whether two ways are the same.
fn same_parts(a: &Vec<PathPart>, b: &Vec<PathPart>) -> (r: bool)
    ensures
        r == (part_views(a@) == part_views(b@)),
{
    assert(part_views(a@).len() == a@.len());
    assert(part_views(b@).len() == b@.len());
    if a.len() != b.len() {
        return false;
    }
    let n: usize = a.len();
    let mut i: usize = 0;
    while i < n
        invariant
            n == a@.len(),
            n == b@.len(),
            i <= n,
            part_views(a@).len() == n,
            part_views(b@).len() == n,
            forall|k: int| 0 <= k < i ==> part_views(a@)[k] == part_views(b@)[k],
        decreases n - i,
    {
        assert(part_views(a@)[i as int] == a@[i as int]@);
        assert(part_views(b@)[i as int] == b@[i as int]@);
        let same = match (&a[i], &b[i]) {
            (PathPart::Root, PathPart::Root) => true,
            (PathPart::Here, PathPart::Here) => true,
            (PathPart::Up, PathPart::Up) => true,
            (PathPart::Name(x), PathPart::Name(y)) => text::same_text(x.as_str(), y.as_str()),
            _ => false,
        };
        if !same {
            return false;
        }
        i += 1;
    }
    assert(part_views(a@) =~= part_views(b@));
    true
}

/// The steps of a path below a place.
fn strip_root(parts: Vec<PathPart>, root: &Vec<PathPart>) -> (r: Option<Vec<PathPart>>)
    ensures
        match r {
            Some(rest) => below(part_views(parts@), part_views(root@)) == Some(
                part_views(rest@),
            ),
            None => below(part_views(parts@), part_views(root@)) is None,
        },
{
    let n: usize = root.len();
    assert(part_views(parts@).len() == parts@.len());
    assert(part_views(root@).len() == root@.len());
    if parts.len() < n {
        return None;
    }
    let mut first = parts;
    let rest = first.split_off(n);
    assert(part_views(first@) =~= part_views(parts@).take(n as int));
    assert(part_views(rest@) =~= part_views(parts@).skip(n as int));
    if same_parts(&first, root) {
        Some(rest)
    } else {
        None
    }
}

/// Whether a way leads out of its place.
fn is_unsafe(parts: &Vec<PathPart>) -> (r: bool)
    ensures
        r == leads_out(part_views(parts@)),
{
    let n: usize = parts.len();
    let ghost views = part_views(parts@);
    let mut i: usize = 0;
    while i < n
        invariant
            n == parts@.len(),
            views == part_views(parts@),
            i <= n,
            forall|k: int| 0 <= k < i ==> !(#[trigger] views[k] is Up || views[k] is Root),
        decreases n - i,
    {
        assert(views[i as int] == parts@[i as int]@);
        let bad = match &parts[i] {
            PathPart::Up => true,
            PathPart::Root => true,
            _ => false,
        };
        if bad {
            return true;
        }
        i += 1;
    }
    false
}

/// A way as a path.
fn written(parts: &Vec<PathPart>) -> (r: String)
    ensures
        r@ == path_text(part_views(parts@), part_views(parts@).len()),
{
    let n: usize = parts.len();
    let ghost views = part_views(parts@);
    let mut path = String::new();
    let mut i: usize = 0;
    while i < n
        invariant
            n == parts@.len(),
            views == part_views(parts@),
            i <= n,
            path@ == path_text(views, i as nat),
        decreases n - i,
    {
        assert(views[i as int] == parts@[i as int]@);
        if i > 0 {
            path.append("/");
        }
        match &parts[i] {
            PathPart::Name(name) => path.append(name.as_str()),
            PathPart::Up => path.append(".."),
            PathPart::Here => path.append("."),
            PathPart::Root => (),
        }
        i += 1;
        assert(path@ =~= path_text(views, i as nat));
    }
    path
}

/// Whether a way was seen.
fn was_seen(seen: &Vec<Vec<PathPart>>, parts: &Vec<PathPart>) -> (r: bool)
    ensures
        r == seen_views(seen@).contains(part_views(parts@)),
{
    let n: usize = seen.len();
    let ghost views = seen_views(seen@);
    let mut i: usize = 0;
    while i < n
        invariant
            n == seen@.len(),
            views == seen_views(seen@),
            i <= n,
            forall|k: int| 0 <= k < i ==> #[trigger] views[k] != part_views(parts@),
        decreases n - i,
    {
        assert(views[i as int] == part_views(seen@[i as int]@));
        if same_parts(&seen[i], parts) {
            return true;
        }
        i += 1;
    }
    false
}

impl ArchiveReader {
    /// The archive of a version for a target.
    pub fn new(version: &str, target: &str) -> (r: Self)
        ensures
            r@ == (ArchiveView {
                root: parts_of("dogi-"@ + version@ + "-"@ + target@),
                entries: 0,
                unpacked: 0,
                seen: Seq::empty(),
            }),
            r@.wf(),
    {
        let mut name = text::concat3("dogi-", version, "-");
        name.append(target);
        let reader = ArchiveReader {
            root: path_parts(name.as_str()),
            entries: 0,
            unpacked: 0,
            seen: Vec::new(),
        };
        assert(reader@.seen =~= Seq::empty());
        proof {
            lemma_new_archive(version@, target@);
        }
        reader
    }

    /// Decides what is done with the next entry.
    pub fn next_entry(&mut self, size: u64, kind: EntryKind, path: Result<String, String>) -> (r: Result<
        Admission,
        String,
    >)
        requires
            old(self)@.wf(),
        ensures
            final(self)@.wf(),
            ({
                let entry = EntryView {
                    size,
                    kind,
                    path: match path {
                        Ok(path) => Ok(path@),
                        Err(detail) => Err(detail@),
                    },
                };
                &&& admission_view(r) == admission(old(self)@, entry)
                &&& final(self)@ == archive_after(old(self)@, entry)
            }),
    {
        if self.entries + 1 > MAX_ARCHIVE_ENTRIES {
            return Err("the portable update contains too many files".to_owned());
        }
        let unpacked: u64 = match self.unpacked.checked_add(size) {
            Some(unpacked) => unpacked,
            None => return Err("the portable update is too large".to_owned()),
        };
        if unpacked > MAX_UNPACKED_SIZE {
            return Err("the portable update expands beyond the safety limit".to_owned());
        }
        if kind == EntryKind::Other {
            return Err("the portable update contains an unsupported entry type".to_owned());
        }
        let path = match path {
            Ok(path) => path,
            Err(detail) => return Err(
                text::concat2("the portable update contains an invalid path: ", detail.as_str()),
            ),
        };
        let parts = match strip_root(path_parts(path.as_str()), &self.root) {
            Some(parts) => parts,
            None => return Err(
                "the portable update contains a file outside its package root".to_owned(),
            ),
        };
        assert(part_views(parts@).len() == parts@.len());
        if parts.len() == 0 {
            self.entries = self.entries + 1;
            self.unpacked = unpacked;
            return Ok(Admission::Skip);
        }
        if is_unsafe(&parts) {
            return Err("the portable update contains an unsafe path".to_owned());
        }
        if was_seen(&self.seen, &parts) {
            return Err("the portable update contains duplicate paths".to_owned());
        }
        let output = written(&parts);
        let ghost before = self.seen@;
        let ghost way = part_views(parts@);
        self.entries = self.entries + 1;
        self.unpacked = unpacked;
        self.seen.push(parts);
        assert(seen_views(self.seen@) =~= seen_views(before).push(way));
        if kind == EntryKind::Directory {
            Ok(Admission::CreateDirectory(output))
        } else {
            Ok(Admission::WriteFile(output))
        }
    }
}

/// The place that an archive unpacks to is not empty, so that every way below it has
/// only names in it: nothing is written outside of that place.
pub proof fn law_nothing_is_written_outside(archive: ArchiveView, entry: EntryView, k: int)
    requires
        archive.wf(),
        admission(archive, entry) is CreateDirectory || admission(archive, entry) is WriteFile,
        0 <= k < way_of(archive, entry).len(),
    ensures
        way_of(archive, entry)[k] is Name,
{
    let path = entry.path->Ok_0;
    let pieces = text::pieces(path, '/');
    let parts = parts_of(path);
    let at = archive.root.len() + k;
    assert(way_of(archive, entry)[k] == parts[at]);
    lemma_later_parts(pieces, pieces.len(), at);
    assert(!leads_out(way_of(archive, entry)));
}

/// However many entries follow, the archive stays in its bounds and no path is written
/// twice.
pub proof fn law_archives_stay_in_bounds(archive: ArchiveView, entry: EntryView)
    requires
        archive.wf(),
    ensures
        archive_after(archive, entry).wf(),
        archive_after(archive, entry).root == archive.root,
{
    if !(admission(archive, entry) is Refuse) && !(admission(archive, entry) is Skip) {
        let way = way_of(archive, entry);
        assert(archive.seen.push(way).no_duplicates());
    }
}

/// The name of the package names a place.
proof fn lemma_new_archive(version: Seq<char>, target: Seq<char>)
    ensures
        parts_of("dogi-"@ + version + "-"@ + target).len() > 0,
{
    let name = "dogi-"@ + version + "-"@ + target;
    reveal_strlit("dogi-");
    assert(name[0] == 'd');
    let pieces = text::pieces(name, '/');
    text::lemma_index_from(name, '/', 0);
    assert(text::index_from(name, '/', 0) > 0);
    assert(pieces[0] == name.subrange(0, text::index_from(name, '/', 0)));
    assert(pieces[0].len() > 0);
    reveal_strlit(".");
    assert(pieces[0][0] == 'd');
    lemma_parts_kept(pieces, pieces.len());
}

proof fn lemma_parts_kept(pieces: Seq<Seq<char>>, n: nat)
    requires
        1 <= n <= pieces.len(),
        pieces[0].len() > 0,
    ensures
        parts_of_pieces(pieces, n).len() > 0,
    decreases n,
{
    if n > 1 {
        lemma_parts_kept(pieces, (n - 1) as nat);
    } else {
        assert(parts_of_pieces(pieces, 0) =~= Seq::empty());
    }
}

/// An entry is taken exactly where there is room for it, of the up to 256 entries and the up to
/// 256 MiB that they unpack to, it is a file or a directory, its path can be read and lies in
/// the root of the package, and there was none of that path before; and what is taken is
/// written under its path below the root.
pub proof fn law_sound_entries_are_taken(
    archive: ArchiveView,
    size: u64,
    kind: EntryKind,
    path: Seq<char>,
    parts: Seq<PartView>,
)
    requires
        parts_of(path) == archive.root + parts,
        parts.len() > 0,
    ensures
        ({
            let entry = EntryView { size, kind, path: Ok(path) };
            let sound = {
                &&& archive.entries < 256
                &&& archive.unpacked + size <= 268_435_456
                &&& !(kind is Other)
                &&& forall|i: int|
                    0 <= i < parts.len() ==> !(#[trigger] parts[i] is Up) && !(parts[i] is Root)
                &&& !archive.seen.contains(parts)
            };
            &&& sound && kind is File ==> admission(archive, entry) == AdmissionView::WriteFile(
                path_text(parts, parts.len()),
            )
            &&& sound && kind is Directory ==> admission(archive, entry)
                == AdmissionView::CreateDirectory(path_text(parts, parts.len()))
            &&& !sound ==> admission(archive, entry) is Refuse
            &&& sound ==> archive_after(archive, entry).entries == archive.entries + 1
                && archive_after(archive, entry).unpacked == archive.unpacked + size
                && archive_after(archive, entry).seen == archive.seen.push(parts)
            &&& !sound ==> archive_after(archive, entry) == archive
        }),
{
    let whole = parts_of(path);
    assert(whole.take(archive.root.len() as int) =~= archive.root);
    assert(whole.skip(archive.root.len() as int) =~= parts);
}

/// The root of the package itself is passed over, and a path that does not lie in it is
/// refused.
pub proof fn law_entries_lie_in_the_root(archive: ArchiveView, size: u64, path: Seq<char>)
    requires
        archive.entries < 256,
        archive.unpacked + size <= 268_435_456,
    ensures
        ({
            let entry = EntryView { size, kind: EntryKind::Directory, path: Ok(path) };
            &&& parts_of(path) == archive.root ==> admission(archive, entry) is Skip
            &&& archive.root.len() > parts_of(path).len() ==> admission(archive, entry) is Refuse
            &&& archive.root.len() <= parts_of(path).len() && parts_of(path).take(
                archive.root.len() as int,
            ) != archive.root ==> admission(archive, entry) is Refuse
        }),
        admission(
            archive,
            EntryView { size, kind: EntryKind::File, path: Err(path) },
        ) is Refuse,
{
    let whole = parts_of(path);
    if whole == archive.root {
        assert(whole.take(archive.root.len() as int) =~= archive.root);
    }
}

/// A path of plain names has these names as its parts.
pub proof fn law_plain_paths_are_taken_apart(path: Seq<char>, i: int)
    requires
        forall|k: int|
            0 <= k < text::pieces(path, '/').len() ==> (#[trigger] text::pieces(path, '/')[k]).len()
                > 0 && text::pieces(path, '/')[k] != "."@ && text::pieces(path, '/')[k] != ".."@,
        0 <= i < text::pieces(path, '/').len(),
    ensures
        parts_of(path).len() == text::pieces(path, '/').len(),
        parts_of(path)[i] == PartView::Name(text::pieces(path, '/')[i]),
{
    lemma_plain_parts(text::pieces(path, '/'), text::pieces(path, '/').len());
}

proof fn lemma_plain_parts(pieces: Seq<Seq<char>>, n: nat)
    requires
        n <= pieces.len(),
        forall|k: int|
            0 <= k < pieces.len() ==> (#[trigger] pieces[k]).len() > 0 && pieces[k] != "."@
                && pieces[k] != ".."@,
    ensures
        parts_of_pieces(pieces, n).len() == n,
        forall|i: int|
            0 <= i < n ==> #[trigger] parts_of_pieces(pieces, n)[i] == PartView::Name(pieces[i]),
    decreases n,
{
    if n > 0 {
        lemma_plain_parts(pieces, (n - 1) as nat);
    }
}

/// A path is written with its names in their order and a `/` between them.
pub proof fn law_paths_are_written(parts: Seq<PartView>, name: Seq<char>, last: Seq<char>)
    requires
        parts.len() > 0,
    ensures
        path_text(seq![PartView::Name(name)], 1) == name,
        path_text(parts.push(PartView::Name(last)), parts.len() + 1) == path_text(
            parts,
            parts.len(),
        ) + "/"@ + last,
{
    lemma_path_text_is_local(parts, parts.push(PartView::Name(last)), parts.len());
}

proof fn lemma_path_text_is_local(a: Seq<PartView>, b: Seq<PartView>, n: nat)
    requires
        n <= a.len() && n <= b.len(),
        forall|i: int| 0 <= i < n ==> a[i] == #[trigger] b[i],
    ensures
        path_text(a, n) == path_text(b, n),
    decreases n,
{
    if n > 0 {
        lemma_path_text_is_local(a, b, (n - 1) as nat);
        assert(a[n - 1] == b[n - 1]);
    }
}

/// The root of a package is named after its version and its target.
pub proof fn law_package_root(version: &str, target: &str)
    ensures
        forall|r: ArchiveReader|
            #![trigger call_ensures(ArchiveReader::new, (version, target), r)]
            call_ensures(ArchiveReader::new, (version, target), r) ==> r@.root == parts_of(
                "dogi-"@ + version@ + "-"@ + target@,
            ) && r@.entries == 0 && r@.unpacked == 0 && r@.seen.len() == 0,
{
}

/// What is to be done with an entry is what the reader answers.
pub proof fn law_entries_are_answered(size: u64, kind: EntryKind, path: String)
    ensures
        forall|reader: &mut ArchiveReader, r: Result<Admission, String>|
            #![trigger call_ensures(ArchiveReader::next_entry, (reader, size, kind, Ok(path)), r)]
            call_ensures(ArchiveReader::next_entry, (reader, size, kind, Ok(path)), r) ==> {
                let entry = EntryView { size, kind, path: Ok(path@) };
                let answer = admission((*reader)@, entry);
                &&& r is Err <==> answer is Refuse
                &&& r matches Ok(Admission::Skip) ==> answer is Skip
                &&& r matches Ok(Admission::CreateDirectory(p)) ==> answer
                    == AdmissionView::CreateDirectory(p@)
                &&& r matches Ok(Admission::WriteFile(p)) ==> answer == AdmissionView::WriteFile(p@)
                &&& final(reader)@ == archive_after((*reader)@, entry)
            },
{
}

}
