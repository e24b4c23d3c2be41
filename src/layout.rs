use vstd::prelude::*;
use vstd::string::*;

use crate::text::{has_prefix, starts_with};

verus! {

/// A directory entry as read from disk: its file name, and whether it is a
/// directory.
pub struct EntryInfo {
    pub name: String,
    pub is_dir: bool,
}

/// The install directory of Steam's primary layout, below the home directory.
pub open spec fn steam_root_dir() -> Seq<char> {
    "/.steam/root/compatibilitytools.d"@
}

/// The install directory of Steam's other layout, below the home directory.
pub open spec fn steam_share_dir() -> Seq<char> {
    "/.local/share/Steam/compatibilitytools.d"@
}

/// Every directory that the unpacked archive may hold the package in
/// begins with this.
pub open spec fn payload_prefix() -> Seq<char> {
    "proton-"@
}

/// Every installed version of the package begins with this.
pub open spec fn package_prefix() -> Seq<char> {
    "proton-cachyos-"@
}

/// The entry is a directory whose name begins with `prefix`.
pub open spec fn dir_with_prefix(e: EntryInfo, prefix: Seq<char>) -> bool {
    e.is_dir && has_prefix(e.name@, prefix)
}

/// The entry is an installed version of the package other than `keep`.
pub open spec fn superseded(e: EntryInfo, keep: Seq<char>) -> bool {
    dir_with_prefix(e, package_prefix()) && e.name@ != keep
}

/// Candidate `i` is the install directory to use, given which candidates
/// exist: the first that exists, or the first candidate where none does.
pub open spec fn chosen_root(present: Seq<bool>, i: int) -> bool {
    &&& 0 <= i < present.len()
    &&& forall|j: int| 0 <= j < i ==> !present[j]
    &&& present[i] || (i == 0 && forall|j: int| 0 <= j < present.len() ==> !present[j])
}

/// The candidate install directories below `home`, in order of preference.
pub fn install_root_candidates(home: &str) -> (r: Vec<String>)
    ensures
        r@.len() == 2,
        r@[0]@ == home@ + steam_root_dir(),
        r@[1]@ == home@ + steam_share_dir(),
{
    let mut r: Vec<String> = Vec::new();
    r.push(home.to_owned().concat("/.steam/root/compatibilitytools.d"));
    r.push(home.to_owned().concat("/.local/share/Steam/compatibilitytools.d"));
    r
}

/// The index of the install directory to use, given which candidates exist:
/// the first that exists, or the first candidate where none does.
pub fn choose_install_root(exists: &Vec<bool>) -> (r: usize)
    requires
        exists@.len() > 0,
    ensures
        chosen_root(exists@, r as int),
{
    let mut i: usize = 0;
    while i < exists.len()
        invariant
            i <= exists@.len(),
            forall|j: int| 0 <= j < i ==> !exists@[j],
        decreases exists@.len() - i,
    {
        if exists[i] {
            return i;
        }
        i = i + 1;
    }
    0
}

/// The index of the first entry of `entries` that is a directory named
/// `proton-...`: the package inside an unpacked archive. `None` exactly when
/// there is no such entry.
pub fn find_payload(entries: &Vec<EntryInfo>) -> (r: Option<usize>)
    ensures
        r is None <==> forall|j: int|
            0 <= j < entries@.len() ==> !dir_with_prefix(#[trigger] entries@[j], payload_prefix()),
        r is Some ==> {
            &&& r->0 < entries@.len()
            &&& dir_with_prefix(entries@[r->0 as int], payload_prefix())
            &&& forall|j: int|
                0 <= j < r->0 ==> !dir_with_prefix(#[trigger] entries@[j], payload_prefix())
        },
{
    let prefix = "proton-";
    let mut i: usize = 0;
    while i < entries.len()
        invariant
            i <= entries@.len(),
            prefix@ == payload_prefix(),
            forall|j: int|
                0 <= j < i ==> !dir_with_prefix(#[trigger] entries@[j], payload_prefix()),
        decreases entries@.len() - i,
    {
        let e = &entries[i];
        if e.is_dir && starts_with(e.name.as_str(), prefix) {
            return Some(i);
        }
        i = i + 1;
    }
    None
}

/// The indices, in increasing order, of the entries of the install directory
/// to remove once `keep` is installed: every directory named
/// `proton-cachyos-...` but `keep`. Any other entry stays.
pub fn prune_targets(entries: &Vec<EntryInfo>, keep: &str) -> (r: Vec<usize>)
    ensures
        forall|k: int| 0 <= k < r@.len() ==> #[trigger] r@[k] < entries@.len(),
        forall|k: int|
            0 <= k < r@.len() ==> superseded(#[trigger] entries@[r@[k] as int], keep@),
        forall|j: int|
            0 <= j < entries@.len() && superseded(#[trigger] entries@[j], keep@) ==> exists|k: int|
                0 <= k < r@.len() && #[trigger] r@[k] == j,
        forall|k1: int, k2: int| 0 <= k1 < k2 < r@.len() ==> r@[k1] < r@[k2],
{
    let prefix = "proton-cachyos-";
    let mut r: Vec<usize> = Vec::new();
    let mut i: usize = 0;
    while i < entries.len()
        invariant
            i <= entries@.len(),
            prefix@ == package_prefix(),
            forall|k: int| 0 <= k < r@.len() ==> #[trigger] r@[k] < i,
            forall|k: int|
                0 <= k < r@.len() ==> superseded(#[trigger] entries@[r@[k] as int], keep@),
            forall|j: int|
                0 <= j < i && superseded(#[trigger] entries@[j], keep@) ==> exists|k: int|
                    0 <= k < r@.len() && #[trigger] r@[k] == j,
            forall|k1: int, k2: int| 0 <= k1 < k2 < r@.len() ==> r@[k1] < r@[k2],
        decreases entries@.len() - i,
    {
        let e = &entries[i];
        if e.is_dir && starts_with(e.name.as_str(), prefix) && !text_eq(e.name.as_str(), keep) {
            let ghost before = r@;
            r.push(i);
            assert forall|j: int|
                0 <= j < i + 1 && superseded(#[trigger] entries@[j], keep@) implies exists|k: int|
                0 <= k < r@.len() && #[trigger] r@[k] == j by {
                if j == i {
                    assert(r@[before.len() as int] == j);
                } else {
                    let k = choose|k: int| 0 <= k < before.len() && #[trigger] before[k] == j;
                    assert(r@[k] == j);
                }
            }
        }
        i = i + 1;
    }
    r
}

/// Whether `a` and `b` hold the same characters.
fn text_eq(a: &str, b: &str) -> (r: bool)
    ensures
        r == (a@ == b@),
{
    let n = a.unicode_len();
    if n != b.unicode_len() {
        return false;
    }
    let mut i: usize = 0;
    while i < n
        invariant
            n == a@.len() == b@.len(),
            i <= n,
            forall|j: int| 0 <= j < i ==> a@[j] == b@[j],
        decreases n - i,
    {
        if a.get_char(i) != b.get_char(i) {
            return false;
        }
        i = i + 1;
    }
    assert(a@ =~= b@);
    true
}

} // verus!
