//! Directories for private files: how they are made, one below the other, without
//! following a link that someone else put in the way.

use crate::persistence::{persistence_error, private_directory_components, FileFault};
use crate::persistence;
use crate::text;
use vstd::prelude::*;

verus! {

/// The permissions of a directory for private files.
pub const PRIVATE_DIRECTORY_MODE: u32 = 0o700;

/// Where the making of a directory stands.
#[derive(Debug, PartialEq, Eq)]
pub enum WalkStage {
    /// The place where the path begins is opened.
    OpeningStart,
    /// The directory at a position of the path is created.
    Creating { at: usize },
    /// It is opened, unless it is a link. `created` tells that it was missing.
    Opening { at: usize, created: bool },
    /// It is handed to its owner.
    Owning { at: usize },
    /// The last directory is made private.
    SettingMode,
    /// The last directory is handed to its owner.
    SettingOwner,
    /// The directory can be used.
    Ready,
    Failed { detail: String },
}

/// The mathematical value of [`WalkStage`].
#[verifier::ext_equal]
pub enum WalkStageView {
    OpeningStart,
    Creating { at: nat },
    Opening { at: nat, created: bool },
    Owning { at: nat },
    SettingMode,
    SettingOwner,
    Ready,
    Failed { detail: Seq<char> },
}

impl View for WalkStage {
    type V = WalkStageView;

    open spec fn view(&self) -> WalkStageView {
        match self {
            WalkStage::OpeningStart => WalkStageView::OpeningStart,
            WalkStage::Creating { at } => WalkStageView::Creating { at: *at as nat },
            WalkStage::Opening { at, created } => WalkStageView::Opening {
                at: *at as nat,
                created: *created,
            },
            WalkStage::Owning { at } => WalkStageView::Owning { at: *at as nat },
            WalkStage::SettingMode => WalkStageView::SettingMode,
            WalkStage::SettingOwner => WalkStageView::SettingOwner,
            WalkStage::Ready => WalkStageView::Ready,
            WalkStage::Failed { detail } => WalkStageView::Failed { detail: detail@ },
        }
    }
}

/// The making of a directory for private files.
#[derive(Debug, PartialEq, Eq)]
pub struct DirectoryWalk {
    pub path: String,
    /// The directories of the path, one below the other.
    pub names: Vec<String>,
    /// Whether the directories belong to someone else than this process.
    pub owned: bool,
    pub stage: WalkStage,
}

/// The mathematical value of [`DirectoryWalk`].
#[verifier::ext_equal]
pub struct WalkView {
    pub path: Seq<char>,
    pub names: Seq<Seq<char>>,
    pub owned: bool,
    pub stage: WalkStageView,
}

impl View for DirectoryWalk {
    type V = WalkView;

    open spec fn view(&self) -> WalkView {
        WalkView {
            path: self.path@,
            names: text::texts(self.names@),
            owned: self.owned,
            stage: self.stage@,
        }
    }
}

/// The place where a path begins.
pub open spec fn start_of(path: Seq<char>) -> Seq<char> {
    if path.len() > 0 && path[0] == '/' {
        "/"@
    } else {
        "."@
    }
}

/// A failure of the walk.
pub open spec fn walk_failure(operation: Seq<char>, path: Seq<char>, detail: Seq<char>) -> WalkStageView {
    WalkStageView::Failed { detail: persistence::fault_text(operation, path, detail) }
}

/// The stage in which the directory at a position is made, or the last stages behind
/// the last one.
pub open spec fn enter(w: WalkView, at: nat) -> WalkStageView {
    if at >= w.names.len() {
        WalkStageView::SettingMode
    } else if w.names[at as int].contains('\0') {
        walk_failure("resolve directory"@, w.path, "directory name contains NUL"@)
    } else {
        WalkStageView::Creating { at }
    }
}

/// The stage after a step was done.
pub open spec fn walk_after_success(w: WalkView) -> WalkStageView {
    match w.stage {
        WalkStageView::OpeningStart => enter(w, 0),
        WalkStageView::Creating { at } => WalkStageView::Opening { at, created: true },
        WalkStageView::Opening { at, created } => if created && w.owned {
            WalkStageView::Owning { at }
        } else {
            enter(w, at + 1)
        },
        WalkStageView::Owning { at } => enter(w, at + 1),
        WalkStageView::SettingMode => if w.owned {
            WalkStageView::SettingOwner
        } else {
            WalkStageView::Ready
        },
        WalkStageView::SettingOwner => WalkStageView::Ready,
        WalkStageView::Ready => w.stage,
        WalkStageView::Failed { .. } => w.stage,
    }
}

/// The stage after a step failed. That a directory exists already is no failure of its
/// creation.
pub open spec fn walk_after_failure(w: WalkView, present: bool, detail: Seq<char>) -> WalkStageView {
    match w.stage {
        WalkStageView::OpeningStart => walk_failure(
            "open directory"@,
            start_of(w.path),
            detail,
        ),
        WalkStageView::Creating { at } => if present {
            WalkStageView::Opening { at, created: false }
        } else {
            walk_failure("create directory"@, w.path, detail)
        },
        WalkStageView::Opening { .. } => walk_failure(
            "open directory without following symlinks"@,
            w.path,
            detail,
        ),
        WalkStageView::Owning { .. } => walk_failure("set ownership for"@, w.path, detail),
        WalkStageView::SettingMode => walk_failure(
            "set directory permissions for"@,
            w.path,
            detail,
        ),
        WalkStageView::SettingOwner => walk_failure("set ownership for"@, w.path, detail),
        WalkStageView::Ready => w.stage,
        WalkStageView::Failed { .. } => w.stage,
    }
}

/// The stage after a step.
pub open spec fn walk_after(w: WalkView, result: Result<(), FileFault>) -> WalkStageView {
    match result {
        Ok(_) => walk_after_success(w),
        Err(fault) => walk_after_failure(w, fault.exists, fault.detail@),
    }
}

/// How far a walk is from its end.
pub open spec fn walk_distance(w: WalkView) -> int {
    let n = w.names.len() as int;
    match w.stage {
        WalkStageView::OpeningStart => 3 * n + 3,
        WalkStageView::Creating { at } => 3 * (n - at) + 2,
        WalkStageView::Opening { at, .. } => 3 * (n - at) + 1,
        WalkStageView::Owning { at } => 3 * (n - at),
        WalkStageView::SettingMode => 2,
        WalkStageView::SettingOwner => 1,
        WalkStageView::Ready => 0,
        WalkStageView::Failed { .. } => 0,
    }
}

impl WalkView {
    /// Whether the stage is one of this path.
    pub open spec fn wf(self) -> bool {
        match self.stage {
            WalkStageView::Creating { at } => at < self.names.len(),
            WalkStageView::Opening { at, .. } => at < self.names.len(),
            WalkStageView::Owning { at } => at < self.names.len(),
            _ => true,
        }
    }

    /// Whether nothing is left to do.
    pub open spec fn ended(self) -> bool {
        self.stage is Ready || self.stage is Failed
    }
}

/// Every walk ends: each step brings it nearer to its end.
pub proof fn law_walks_end(w: WalkView, result: Result<(), FileFault>)
    requires
        w.wf(),
        !w.ended(),
    ensures
        (WalkView { stage: walk_after(w, result), ..w }).wf(),
        0 <= walk_distance(WalkView { stage: walk_after(w, result), ..w }) < walk_distance(w),
{
}

/// Nothing is created below a directory that was not opened without following a link:
/// the walk comes to the next directory only by way of the one above it.
pub proof fn law_nothing_is_created_below_a_link(w: WalkView, result: Result<(), FileFault>, at: nat)
    requires
        w.wf(),
        walk_after(w, result) == (WalkStageView::Creating { at }),
    ensures
        result is Ok,
        at == 0 ==> w.stage is OpeningStart,
        at > 0 ==> w.stage == (WalkStageView::Owning { at: (at - 1) as nat }) || (
        w.stage matches WalkStageView::Opening { at: above, .. } && above == at - 1),
{
}

/// On the way, only a directory that was missing before is handed to an owner.
pub proof fn law_only_new_directories_change_hands(
    w: WalkView,
    result: Result<(), FileFault>,
    at: nat,
)
    requires
        walk_after(w, result) == (WalkStageView::Owning { at }),
    ensures
        w.owned,
        result is Ok,
        w.stage == (WalkStageView::Opening { at, created: true }),
{
}

/// A directory is used only once it is private and belongs to its owner.
pub proof fn law_used_directories_are_private(w: WalkView, result: Result<(), FileFault>)
    requires
        !(w.stage is Ready),
        walk_after(w, result) is Ready,
    ensures
        result is Ok,
        w.owned ==> w.stage is SettingOwner,
        !w.owned ==> w.stage is SettingMode || w.stage is SettingOwner,
{
}

fn holds_nul(s: &str) -> (r: bool)
    ensures
        r == s@.contains('\0'),
{
    let chars = text::chars_of(s);
    let mut i: usize = 0;
    while i < chars.len()
        invariant
            chars@ == s@,
            i <= chars@.len(),
            forall|k: int| 0 <= k < i ==> s@[k] != '\0',
        decreases chars@.len() - i,
    {
        if chars[i] == '\0' {
            assert(s@[i as int] == '\0');
            return true;
        }
        i += 1;
    }
    false
}

impl DirectoryWalk {
    /// The walk to a directory, from where its path begins. A path that goes up, or
    /// that names no directory, is refused.
    pub fn begin(path: &str, owned: bool) -> (r: Result<Self, String>)
        ensures
            match persistence::directories_of(path@) {
                Ok(names) => r is Ok && r->Ok_0@ == (WalkView {
                    path: path@,
                    names,
                    owned,
                    stage: WalkStageView::OpeningStart,
                }) && r->Ok_0@.wf(),
                Err(detail) => r is Err && r->Err_0@ == persistence::fault_text(
                    "resolve directory"@,
                    path@,
                    detail,
                ),
            },
    {
        match private_directory_components(path) {
            Ok(names) => Ok(
                DirectoryWalk {
                    path: path.to_owned(),
                    names,
                    owned,
                    stage: WalkStage::OpeningStart,
                },
            ),
            Err(detail) => Err(persistence_error("resolve directory", path, detail)),
        }
    }

    /// The place where the path begins.
    pub fn start(&self) -> (r: &'static str)
        ensures
            r@ == start_of(self@.path),
    {
        let chars = text::chars_of(self.path.as_str());
        if chars.len() > 0 && chars[0] == '/' {
            "/"
        } else {
            "."
        }
    }

    fn failed(&self, operation: &str, detail: &str) -> (r: WalkStage)
        ensures
            r@ == walk_failure(operation@, self@.path, detail@),
    {
        WalkStage::Failed { detail: persistence_error(operation, self.path.as_str(), detail) }
    }

    fn enter(&self, at: usize) -> (r: WalkStage)
        ensures
            r@ == enter(self@, at as nat),
    {
        if at >= self.names.len() {
            return WalkStage::SettingMode;
        }
        assert(self@.names[at as int] == self.names@[at as int]@);
        if holds_nul(self.names[at].as_str()) {
            return self.failed("resolve directory", "directory name contains NUL");
        }
        WalkStage::Creating { at }
    }

    fn stage_after(&self, result: Result<(), FileFault>) -> (r: WalkStage)
        requires
            self@.wf(),
        ensures
            r@ == walk_after(self@, result),
    {
        assert(self.names.len() == self@.names.len());
        match result {
            Ok(_) => match &self.stage {
                WalkStage::OpeningStart => self.enter(0),
                WalkStage::Creating { at } => WalkStage::Opening { at: *at, created: true },
                WalkStage::Opening { at, created } => {
                    if *created && self.owned {
                        WalkStage::Owning { at: *at }
                    } else {
                        self.enter(*at + 1)
                    }
                },
                WalkStage::Owning { at } => self.enter(*at + 1),
                WalkStage::SettingMode => {
                    if self.owned {
                        WalkStage::SettingOwner
                    } else {
                        WalkStage::Ready
                    }
                },
                WalkStage::SettingOwner => WalkStage::Ready,
                WalkStage::Ready => WalkStage::Ready,
                WalkStage::Failed { detail } => WalkStage::Failed { detail: detail.clone() },
            },
            Err(fault) => {
                let detail = fault.detail.as_str();
                match &self.stage {
                    WalkStage::OpeningStart => WalkStage::Failed {
                        detail: persistence_error("open directory", self.start(), detail),
                    },
                    WalkStage::Creating { at } => {
                        if fault.exists {
                            WalkStage::Opening { at: *at, created: false }
                        } else {
                            self.failed("create directory", detail)
                        }
                    },
                    WalkStage::Opening { .. } => self.failed(
                        "open directory without following symlinks",
                        detail,
                    ),
                    WalkStage::Owning { .. } => self.failed("set ownership for", detail),
                    WalkStage::SettingMode => self.failed("set directory permissions for", detail),
                    WalkStage::SettingOwner => self.failed("set ownership for", detail),
                    WalkStage::Ready => WalkStage::Ready,
                    WalkStage::Failed { detail } => WalkStage::Failed { detail: detail.clone() },
                }
            },
        }
    }

    /// A step was done, or failed.
    pub fn advance(&mut self, result: Result<(), FileFault>)
        requires
            old(self)@.wf(),
        ensures
            final(self)@ == (WalkView { stage: walk_after(old(self)@, result), ..old(self)@ }),
            final(self)@.wf(),
    {
        let ghost before = self@;
        let stage = self.stage_after(result);
        self.stage = stage;
        assert(self@ == (WalkView { stage: walk_after(before, result), ..before }));
    }
}

/// A directory is walked to from `/` or from where the program runs, by making and entering one
/// part of its path after the other; at the end it is made private, and one that belongs to
/// another user is given to them.
pub proof fn law_walks_reach_the_directory(w: WalkView, fault: FileFault, at: nat)
    requires
        forall|k: int| 0 <= k < w.names.len() ==> !(#[trigger] w.names[k]).contains('\0'),
    ensures
        PRIVATE_DIRECTORY_MODE == 0o700,
        w.path.len() > 0 && w.path[0] == '/' ==> start_of(w.path) == "/"@,
        w.path.len() == 0 || w.path[0] != '/' ==> start_of(w.path) == "."@,
        w.stage is OpeningStart && w.names.len() > 0 ==> walk_after(w, Ok(()))
            == (WalkStageView::Creating { at: 0 }),
        w.stage == (WalkStageView::Creating { at }) ==> {
            &&& walk_after(w, Ok(())) == (WalkStageView::Opening { at, created: true })
            &&& fault.exists ==> walk_after(w, Err(fault)) == (WalkStageView::Opening {
                at,
                created: false,
            })
            &&& !fault.exists ==> walk_after(w, Err(fault)) is Failed
        },
        w.stage == (WalkStageView::Opening { at, created: true }) && w.owned ==> walk_after(
            w,
            Ok(()),
        ) == (WalkStageView::Owning { at }),
        w.stage == (WalkStageView::Opening { at, created: false }) || (w.stage
            == (WalkStageView::Opening { at, created: true }) && !w.owned) || w.stage
            == (WalkStageView::Owning { at }) ==> {
            &&& at + 1 < w.names.len() ==> walk_after(w, Ok(())) == (WalkStageView::Creating {
                at: at + 1,
            })
            &&& at + 1 >= w.names.len() ==> walk_after(w, Ok(())) is SettingMode
        },
        w.stage is SettingMode && w.owned ==> walk_after(w, Ok(())) is SettingOwner,
        w.stage is SettingMode && !w.owned ==> walk_after(w, Ok(())) is Ready,
        w.stage is SettingOwner ==> walk_after(w, Ok(())) is Ready,
        !w.ended() && !(w.stage is Creating) ==> walk_after(w, Err(fault)) is Failed,
{
}

}
