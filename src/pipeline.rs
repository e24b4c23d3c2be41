use vstd::prelude::*;
use vstd::string::*;

use crate::arch::{detect_arch, tag_of_report, MicroarchTag};
use crate::error::InstallError;
use crate::layout::{
    choose_install_root, chosen_root, find_payload, install_root_candidates, payload_prefix, prune_targets,
    dir_with_prefix, superseded, EntryInfo,
};
use crate::release::{first_fit, install_name, install_name_of, select_asset, url_fits, Release};

verus! {

/// Where a run stands: the event it waits for next, or its end.
#[derive(Clone, Copy, Debug, PartialEq, Eq, Structural)]
pub enum Stage {
    /// Waits for the effective user id.
    Start,
    /// Waits for the home directory.
    Home,
    /// Waits to learn which candidate install directories exist.
    Roots,
    /// Waits for the install directory to be created.
    RootCreated,
    /// Waits for the CPU report.
    CpuInfo,
    /// Waits for the release metadata.
    Metadata,
    /// Waits to learn whether the target directory exists.
    Installed,
    /// Waits for the asset's bytes.
    Download,
    /// Waits for the archive to be unpacked into the scratch directory.
    Extract,
    /// Waits for the listing of the scratch directory.
    Payload,
    /// Waits for the package directory to be moved into place.
    Move,
    /// Waits for the listing of the install directory.
    Prune,
    /// Waits for the superseded versions to be removed.
    Cleanup,
    /// The run has ended well.
    Done,
    /// The run has ended on an error.
    Failed,
}

/// How a successful run ended.
#[derive(Clone, Copy, Debug, PartialEq, Eq, Structural)]
pub enum Outcome {
    /// The target directory existed: nothing was downloaded or changed.
    AlreadyInstalled,
    /// The new version was installed.
    Installed,
}

/// What the environment reports back after an action.
pub enum Event {
    /// The effective user id of the process.
    Euid(u32),
    /// The home directory, where it is set.
    Home(Option<String>),
    /// For each candidate install directory, whether it exists.
    RootsExist(Vec<bool>),
    /// Whether the install directory could be created.
    RootCreated(bool),
    /// The CPU report, where it could be read.
    CpuInfo(Option<Vec<u8>>),
    /// The parsed release metadata, or why it could not be had.
    Metadata(Result<Release, InstallError>),
    /// Whether the target directory exists.
    Installed(bool),
    /// The asset's bytes, where the download succeeded.
    Downloaded(Option<Vec<u8>>),
    /// Whether the archive was unpacked into a fresh scratch directory.
    Extracted(bool),
    /// The entries of the scratch directory, where it could be listed.
    ScratchListed(Option<Vec<EntryInfo>>),
    /// Whether the package directory was moved into place.
    Moved(bool),
    /// The entries of the install directory, where it could be listed.
    RootListed(Option<Vec<EntryInfo>>),
    /// The superseded versions were removed, as far as possible.
    Pruned,
}

/// What the environment is asked to do next.
pub enum Action {
    /// Read the home directory.
    ReadHome,
    /// Report which of these directories exist.
    ProbeRoots(Vec<String>),
    /// Create this directory and its parents.
    CreateRoot(String),
    /// Read the CPU report.
    ReadCpuInfo,
    /// Fetch and parse the release metadata at this address, with this user agent.
    FetchMetadata(String, String),
    /// Report whether this directory exists.
    CheckInstalled(String),
    /// Download the asset at this address.
    Download(String),
    /// Empty the scratch directory and unpack these bytes, an xz-compressed
    /// tar archive, into it.
    Extract(Vec<u8>),
    /// List the scratch directory.
    ListScratch,
    /// Move the scratch directory's entry of this name to this path.
    Move(String, String),
    /// List this directory.
    ListRoot(String),
    /// Remove these directories, below the install directory, ignoring failures.
    Prune(Vec<String>),
    /// End the run with success.
    Finish(Outcome),
    /// End the run with this error.
    Fail(InstallError),
}

/// The action ends the run with error `e`.
pub open spec fn fails_with(a: Action, e: InstallError) -> bool {
    a is Fail && a->Fail_0 == e
}

/// The path of the entry `name` inside directory `dir`.
pub open spec fn child_path(dir: Seq<char>, name: Seq<char>) -> Seq<char> {
    dir + "/"@ + name
}

/// `name` is the name of an entry of `entries` that is a version of the
/// package superseded by `keep`.
pub open spec fn names_superseded(entries: Seq<EntryInfo>, keep: Seq<char>, name: Seq<char>) -> bool {
    exists|j: int|
        0 <= j < entries.len() && #[trigger] superseded(entries[j], keep) && entries[j].name@ == name
}

/// `names` are the names of exactly the entries of `entries` that are
/// versions of the package superseded by `keep`.
pub open spec fn prune_list(names: Seq<String>, entries: Seq<EntryInfo>, keep: Seq<char>) -> bool {
    &&& (forall|k: int|
        0 <= k < names.len() ==> names_superseded(entries, keep, #[trigger] names[k]@))
    &&& (forall|j: int|
        0 <= j < entries.len() && #[trigger] superseded(entries[j], keep) ==> exists|k: int|
            0 <= k < names.len() && #[trigger] names[k]@ == entries[j].name@)
}

/// The release feed's address.
pub open spec fn feed_url() -> Seq<char> {
    "https://api.github.com/repos/CachyOS/proton-cachyos/releases/latest"@
}

/// The user agent sent to the release feed.
pub open spec fn feed_user_agent() -> Seq<char> {
    "protonup-cachyos"@
}

/// The path of the entry `name` inside directory `dir`.
pub fn join_path(dir: &str, name: &str) -> (r: String)
    ensures
        r@ == child_path(dir@, name@),
{
    dir.to_owned().concat("/").concat(name)
}

/// The state of one install run.
pub struct Run {
    pub stage: Stage,
    /// The candidate install directories.
    pub candidates: Vec<String>,
    /// The install directory in use.
    pub root: String,
    /// The CPU level detected.
    pub tag: MicroarchTag,
    /// The address of the selected asset.
    pub url: String,
    /// The directory name that the selected asset installs under.
    pub name: String,
    /// The path that the package is installed at.
    pub target: String,
}

impl Run {
    /// `e` is the event that this run waits for.
    pub open spec fn accepts(&self, e: &Event) -> bool {
        match self.stage {
            Stage::Start => e is Euid,
            Stage::Home => e is Home,
            Stage::Roots => e is RootsExist && e->RootsExist_0@.len() == self.candidates@.len()
                && self.candidates@.len() > 0,
            Stage::RootCreated => e is RootCreated,
            Stage::CpuInfo => e is CpuInfo,
            Stage::Metadata => e is Metadata,
            Stage::Installed => e is Installed,
            Stage::Download => e is Downloaded,
            Stage::Extract => e is Extracted,
            Stage::Payload => e is ScratchListed,
            Stage::Move => e is Moved,
            Stage::Prune => e is RootListed,
            Stage::Cleanup => e is Pruned,
            Stage::Done => false,
            Stage::Failed => false,
        }
    }

    /// The chosen values that a step after the asset's selection keeps.
    pub open spec fn keeps_selection(&self, other: &Run) -> bool {
        &&& other.root@ == self.root@
        &&& other.tag == self.tag
        &&& other.url@ == self.url@
        &&& other.name@ == self.name@
        &&& other.target@ == self.target@
    }

    /// A run that waits for the effective user id, and for no other event:
    /// the superuser check comes before any other work.
    pub fn new() -> (r: Run)
        ensures
            r.stage == Stage::Start,
            forall|e: Event| #[trigger] r.accepts(&e) <==> e is Euid,
    {
        Run {
            stage: Stage::Start,
            candidates: Vec::new(),
            root: String::new(),
            tag: MicroarchTag::Baseline,
            url: String::new(),
            name: String::new(),
            target: String::new(),
        }
    }

    /// Whether `e` is the event that this run waits for.
    pub fn accepts_event(&self, e: &Event) -> (r: bool)
        ensures
            r == self.accepts(e),
    {
        match self.stage {
            Stage::Start => matches!(e, Event::Euid(_)),
            Stage::Home => matches!(e, Event::Home(_)),
            Stage::Roots => match e {
                Event::RootsExist(v) => v.len() == self.candidates.len() && self.candidates.len()
                    > 0,
                _ => false,
            },
            Stage::RootCreated => matches!(e, Event::RootCreated(_)),
            Stage::CpuInfo => matches!(e, Event::CpuInfo(_)),
            Stage::Metadata => matches!(e, Event::Metadata(_)),
            Stage::Installed => matches!(e, Event::Installed(_)),
            Stage::Download => matches!(e, Event::Downloaded(_)),
            Stage::Extract => matches!(e, Event::Extracted(_)),
            Stage::Payload => matches!(e, Event::ScratchListed(_)),
            Stage::Move => matches!(e, Event::Moved(_)),
            Stage::Prune => matches!(e, Event::RootListed(_)),
            Stage::Cleanup => matches!(e, Event::Pruned),
            Stage::Done => false,
            Stage::Failed => false,
        }
    }
    /// Takes the event that this run waits for, moves the run on and returns
    /// what to do next. Every stage error ends the run; the one outcome
    /// that ends it without work is a target directory that already exists.
    pub fn step(&mut self, event: Event) -> (a: Action)
        requires
            old(self).accepts(&event),
        ensures
            old(self).stage == Stage::Start ==> match event {
                Event::Euid(uid) => if uid == 0 {
                    fails_with(a, InstallError::Privilege) && final(self).stage == Stage::Failed
                } else {
                    a is ReadHome && final(self).stage == Stage::Home
                },
                _ => false,
            },
            old(self).stage == Stage::Home ==> match event {
                Event::Home(None) => fails_with(a, InstallError::Config) && final(self).stage
                    == Stage::Failed,
                Event::Home(Some(home)) => {
                    &&& a is ProbeRoots
                    &&& a->ProbeRoots_0@.len() == 2
                    &&& a->ProbeRoots_0@[0]@ == final(self).candidates@[0]@
                    &&& a->ProbeRoots_0@[1]@ == final(self).candidates@[1]@
                    &&& final(self).candidates@.len() == 2
                    &&& final(self).candidates@[0]@ == home@ + crate::layout::steam_root_dir()
                    &&& final(self).candidates@[1]@ == home@ + crate::layout::steam_share_dir()
                    &&& final(self).stage == Stage::Roots
                },
                _ => false,
            },
            old(self).stage == Stage::Roots ==> match event {
                Event::RootsExist(present) => exists|i: int|
                    {
                        &&& #[trigger] chosen_root(present@, i)
                        &&& final(self).root@ == old(self).candidates@[i]@
                        &&& a is CreateRoot
                        &&& a->CreateRoot_0@ == final(self).root@
                        &&& final(self).stage == Stage::RootCreated
                    },
                _ => false,
            },
            old(self).stage == Stage::RootCreated ==> match event {
                Event::RootCreated(ok) => if ok {
                    a is ReadCpuInfo && final(self).stage == Stage::CpuInfo && final(self).root@
                        == old(self).root@
                } else {
                    fails_with(a, InstallError::Filesystem) && final(self).stage == Stage::Failed
                },
                _ => false,
            },
            old(self).stage == Stage::CpuInfo ==> match event {
                Event::CpuInfo(report) => {
                    &&& report is None ==> final(self).tag == MicroarchTag::Baseline
                    &&& report is Some ==> final(self).tag == tag_of_report(report->0@)
                    &&& a is FetchMetadata
                    &&& a->FetchMetadata_0@ == feed_url()
                    &&& a->FetchMetadata_1@ == feed_user_agent()
                    &&& final(self).root@ == old(self).root@
                    &&& final(self).stage == Stage::Metadata
                },
                _ => false,
            },
            old(self).stage == Stage::Metadata ==> match event {
                Event::Metadata(Err(e)) => fails_with(a, e) && final(self).stage == Stage::Failed,
                Event::Metadata(Ok(rel)) => {
                    &&& (forall|i: int|
                        0 <= i < rel.urls().len() ==> !url_fits(#[trigger] rel.urls()[i], old(self).tag))
                        ==> fails_with(a, InstallError::NoMatchingAsset) && final(self).stage
                        == Stage::Failed
                    &&& (exists|i: int|
                        0 <= i < rel.urls().len() && url_fits(#[trigger] rel.urls()[i], old(self).tag))
                        ==> exists|i: int|
                        #[trigger] first_fit(rel.urls(), old(self).tag, i) && final(self).url@
                            == rel.urls()[i] && match install_name(rel.urls()[i]) {
                            None => fails_with(a, InstallError::NoMatchingAsset) && final(self).stage
                                == Stage::Failed,
                            Some(name) => {
                                &&& final(self).name@ == name
                                &&& final(self).target@ == child_path(old(self).root@, name)
                                &&& final(self).root@ == old(self).root@
                                &&& final(self).tag == old(self).tag
                                &&& a is CheckInstalled
                                &&& a->CheckInstalled_0@ == final(self).target@
                                &&& final(self).stage == Stage::Installed
                            },
                        }
                },
                _ => false,
            },
            old(self).stage == Stage::Installed ==> match event {
                Event::Installed(present) => if present {
                    a == Action::Finish(Outcome::AlreadyInstalled) && final(self).stage == Stage::Done
                } else {
                    a is Download && a->Download_0@ == old(self).url@ && final(self).stage
                        == Stage::Download
                },
                _ => false,
            },
            old(self).stage == Stage::Download ==> match event {
                Event::Downloaded(None) => fails_with(a, InstallError::Download) && final(self).stage
                    == Stage::Failed,
                Event::Downloaded(Some(data)) => a is Extract && a->Extract_0@ == data@
                    && final(self).stage == Stage::Extract,
                _ => false,
            },
            old(self).stage == Stage::Extract ==> match event {
                Event::Extracted(ok) => if ok {
                    a is ListScratch && final(self).stage == Stage::Payload
                } else {
                    fails_with(a, InstallError::Archive) && final(self).stage == Stage::Failed
                },
                _ => false,
            },
            old(self).stage == Stage::Payload ==> match event {
                Event::ScratchListed(None) => fails_with(a, InstallError::Filesystem)
                    && final(self).stage == Stage::Failed,
                Event::ScratchListed(Some(entries)) => {
                    &&& (forall|j: int|
                        0 <= j < entries@.len() ==> !dir_with_prefix(
                            #[trigger] entries@[j],
                            payload_prefix(),
                        )) ==> fails_with(a, InstallError::Layout) && final(self).stage
                        == Stage::Failed
                    &&& (exists|j: int|
                        0 <= j < entries@.len() && dir_with_prefix(
                            #[trigger] entries@[j],
                            payload_prefix(),
                        )) ==> exists|i: int|
                        {
                            &&& 0 <= i < entries@.len()
                            &&& dir_with_prefix(entries@[i], payload_prefix())
                            &&& forall|j: int|
                                0 <= j < i ==> !dir_with_prefix(
                                    #[trigger] entries@[j],
                                    payload_prefix(),
                                )
                            &&& a is Move
                            &&& a->Move_0@ == entries@[i].name@
                            &&& a->Move_1@ == old(self).target@
                            &&& final(self).stage == Stage::Move
                        }
                },
                _ => false,
            },
            old(self).stage == Stage::Move ==> match event {
                Event::Moved(ok) => if ok {
                    a is ListRoot && a->ListRoot_0@ == old(self).root@ && final(self).stage
                        == Stage::Prune
                } else {
                    fails_with(a, InstallError::InstallMove) && final(self).stage == Stage::Failed
                },
                _ => false,
            },
            old(self).stage == Stage::Prune ==> match event {
                Event::RootListed(None) => a == Action::Finish(Outcome::Installed)
                    && final(self).stage == Stage::Done,
                Event::RootListed(Some(entries)) => {
                    &&& a is Prune
                    &&& prune_list(a->Prune_0@, entries@, old(self).name@)
                    &&& final(self).stage == Stage::Cleanup
                },
                _ => false,
            },
            a is Move ==> old(self).stage == Stage::Payload && a->Move_1@ == old(self).target@,
            final(self).stage == Stage::Payload ==> old(self).stage == Stage::Extract && event
                == Event::Extracted(true),
            a is Extract ==> old(self).stage == Stage::Download,
            old(self).stage == Stage::Cleanup ==> a == Action::Finish(Outcome::Installed)
                && final(self).stage == Stage::Done,
            old(self).stage != Stage::Start && old(self).stage != Stage::Home && old(self).stage
                != Stage::Roots && old(self).stage != Stage::RootCreated && old(self).stage
                != Stage::CpuInfo && old(self).stage != Stage::Metadata ==> old(self).keeps_selection(
                final(self),
            ),
    {
        match event {
            Event::Euid(uid) => {
                if uid == 0 {
                    self.stage = Stage::Failed;
                    Action::Fail(InstallError::Privilege)
                } else {
                    self.stage = Stage::Home;
                    Action::ReadHome
                }
            },
            Event::Home(home) => match home {
                None => {
                    self.stage = Stage::Failed;
                    Action::Fail(InstallError::Config)
                },
                Some(home) => {
                    self.candidates = install_root_candidates(home.as_str());
                    self.stage = Stage::Roots;
                    Action::ProbeRoots(install_root_candidates(home.as_str()))
                },
            },
            Event::RootsExist(present) => {
                let i = choose_install_root(&present);
                self.root = self.candidates[i].clone();
                assert(chosen_root(present@, i as int));
                self.stage = Stage::RootCreated;
                Action::CreateRoot(self.root.clone())
            },
            Event::RootCreated(ok) => {
                if ok {
                    self.stage = Stage::CpuInfo;
                    Action::ReadCpuInfo
                } else {
                    self.stage = Stage::Failed;
                    Action::Fail(InstallError::Filesystem)
                }
            },
            Event::CpuInfo(report) => {
                self.tag = match &report {
                    Some(bytes) => detect_arch(Some(bytes.as_slice())),
                    None => detect_arch(None),
                };
                self.stage = Stage::Metadata;
                Action::FetchMetadata(
                    "https://api.github.com/repos/CachyOS/proton-cachyos/releases/latest".to_owned(),
                    "protonup-cachyos".to_owned(),
                )
            },
            Event::Metadata(Err(e)) => {
                self.stage = Stage::Failed;
                Action::Fail(e)
            },
            Event::Metadata(Ok(rel)) => {
                match select_asset(&rel, self.tag) {
                    Err(e) => {
                        self.stage = Stage::Failed;
                        Action::Fail(e)
                    },
                    Ok(url) => {
                        self.url = url;
                        match install_name_of(self.url.as_str()) {
                            None => {
                                self.stage = Stage::Failed;
                                Action::Fail(InstallError::NoMatchingAsset)
                            },
                            Some(name) => {
                                self.target = join_path(self.root.as_str(), name.as_str());
                                self.name = name;
                                self.stage = Stage::Installed;
                                Action::CheckInstalled(self.target.clone())
                            },
                        }
                    },
                }
            },
            Event::Installed(present) => {
                if present {
                    self.stage = Stage::Done;
                    Action::Finish(Outcome::AlreadyInstalled)
                } else {
                    self.stage = Stage::Download;
                    Action::Download(self.url.clone())
                }
            },
            Event::Downloaded(data) => match data {
                None => {
                    self.stage = Stage::Failed;
                    Action::Fail(InstallError::Download)
                },
                Some(data) => {
                    self.stage = Stage::Extract;
                    Action::Extract(data)
                },
            },
            Event::Extracted(ok) => {
                if ok {
                    self.stage = Stage::Payload;
                    Action::ListScratch
                } else {
                    self.stage = Stage::Failed;
                    Action::Fail(InstallError::Archive)
                }
            },
            Event::ScratchListed(entries) => match entries {
                None => {
                    self.stage = Stage::Failed;
                    Action::Fail(InstallError::Filesystem)
                },
                Some(entries) => match find_payload(&entries) {
                    None => {
                        self.stage = Stage::Failed;
                        Action::Fail(InstallError::Layout)
                    },
                    Some(i) => {
                        self.stage = Stage::Move;
                        Action::Move(entries[i].name.clone(), self.target.clone())
                    },
                },
            },
            Event::Moved(ok) => {
                if ok {
                    self.stage = Stage::Prune;
                    Action::ListRoot(self.root.clone())
                } else {
                    self.stage = Stage::Failed;
                    Action::Fail(InstallError::InstallMove)
                }
            },
            Event::RootListed(entries) => match entries {
                None => {
                    self.stage = Stage::Done;
                    Action::Finish(Outcome::Installed)
                },
                Some(entries) => {
                    let picked = prune_targets(&entries, self.name.as_str());
                    let names = names_at(&entries, &picked);
                    proof {
                        lemma_prune_list(names@, picked@, entries@, self.name@);
                    }
                    self.stage = Stage::Cleanup;
                    Action::Prune(names)
                },
            },
            Event::Pruned => {
                self.stage = Stage::Done;
                Action::Finish(Outcome::Installed)
            },
        }
    }
}

/// A run that has ended, well or on an error, waits for no event: nothing
/// more is done in it. In particular, once the download or the unpacking
/// has failed, nothing is ever moved to the target path.
pub proof fn lemma_ended_run_takes_no_event(run: &Run, e: &Event)
    requires
        run.stage == Stage::Done || run.stage == Stage::Failed,
    ensures
        !run.accepts(e),
{
}

/// The names at the positions that `prune_targets` picked are exactly the
/// names of the superseded versions.
proof fn lemma_prune_list(
    names: Seq<String>,
    picked: Seq<usize>,
    entries: Seq<EntryInfo>,
    keep: Seq<char>,
)
    requires
        names.len() == picked.len(),
        forall|k: int| 0 <= k < picked.len() ==> #[trigger] picked[k] < entries.len(),
        forall|k: int| 0 <= k < picked.len() ==> superseded(#[trigger] entries[picked[k] as int], keep),
        forall|j: int|
            0 <= j < entries.len() && superseded(#[trigger] entries[j], keep) ==> exists|k: int|
                0 <= k < picked.len() && #[trigger] picked[k] == j,
        forall|k: int| 0 <= k < picked.len() ==> #[trigger] names[k]@ == entries[picked[k] as int].name@,
    ensures
        prune_list(names, entries, keep),
{
    assert forall|k: int| 0 <= k < names.len() implies names_superseded(
        entries,
        keep,
        #[trigger] names[k]@,
    ) by {
        let j = picked[k] as int;
        assert(picked[k] < entries.len());
        assert(superseded(entries[picked[k] as int], keep));
        assert(names[k]@ == entries[j].name@);
        assert(superseded(entries[j], keep));
    }
    assert forall|j: int|
        0 <= j < entries.len() && #[trigger] superseded(entries[j], keep) implies exists|k: int|
            0 <= k < names.len() && #[trigger] names[k]@ == entries[j].name@ by {
        let k = choose|k: int| 0 <= k < picked.len() && #[trigger] picked[k] == j;
        assert(names[k]@ == entries[j].name@);
    }
}

/// The names of the entries at the positions `picked`, in that order.
fn names_at(entries: &Vec<EntryInfo>, picked: &Vec<usize>) -> (r: Vec<String>)
    requires
        forall|k: int| 0 <= k < picked@.len() ==> #[trigger] picked@[k] < entries@.len(),
    ensures
        r@.len() == picked@.len(),
        forall|k: int|
            0 <= k < picked@.len() ==> #[trigger] r@[k]@ == entries@[picked@[k] as int].name@,
{
    let mut r: Vec<String> = Vec::new();
    let mut k: usize = 0;
    while k < picked.len()
        invariant
            k <= picked@.len(),
            r@.len() == k,
            forall|m: int| 0 <= m < picked@.len() ==> #[trigger] picked@[m] < entries@.len(),
            forall|m: int| 0 <= m < k ==> #[trigger] r@[m]@ == entries@[picked@[m] as int].name@,
        decreases picked@.len() - k,
    {
        r.push(entries[picked[k]].name.clone());
        k = k + 1;
    }
    r
}


} // verus!
