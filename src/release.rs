use vstd::prelude::*;
use vstd::string::*;

use crate::arch::MicroarchTag;
use crate::error::InstallError;
use crate::text::{ends_with, has_suffix};

verus! {

/// One downloadable build attached to a release.
pub struct ReleaseAsset {
    pub browser_download_url: String,
}

/// The latest release as the feed reports it.
pub struct Release {
    pub tag_name: String,
    pub assets: Vec<ReleaseAsset>,
}

impl Release {
    /// The download addresses of the assets, in feed order.
    pub open spec fn urls(&self) -> Seq<Seq<char>> {
        self.assets@.map_values(|a: ReleaseAsset| a.browser_download_url@)
    }
}

/// The end of the address of the asset built for `tag`.
pub open spec fn asset_suffix(tag: MicroarchTag) -> Seq<char> {
    match tag {
        MicroarchTag::V3 => "x86_64_v3.tar.xz"@,
        MicroarchTag::Baseline => "x86_64.tar.xz"@,
    }
}

/// The address `url` is that of an asset built for `tag`.
pub open spec fn url_fits(url: Seq<char>, tag: MicroarchTag) -> bool {
    has_suffix(url, asset_suffix(tag))
}

/// Asset `i` is the first in `urls` built for `tag`.
pub open spec fn first_fit(urls: Seq<Seq<char>>, tag: MicroarchTag, i: int) -> bool {
    &&& 0 <= i < urls.len()
    &&& url_fits(urls[i], tag)
    &&& forall|j: int| 0 <= j < i ==> !url_fits(#[trigger] urls[j], tag)
}

/// The end of the address of the asset built for `tag`.
pub fn asset_suffix_of(tag: MicroarchTag) -> (r: &'static str)
    ensures
        r@ == asset_suffix(tag),
{
    match tag {
        MicroarchTag::V3 => "x86_64_v3.tar.xz",
        MicroarchTag::Baseline => "x86_64.tar.xz",
    }
}

/// The download address of the first asset of `release`, in feed order,
/// whose address ends with the archive name of `tag`; `NoMatchingAsset`
/// exactly when there is none.
pub fn select_asset(release: &Release, tag: MicroarchTag) -> (r: Result<String, InstallError>)
    ensures
        r is Ok <==> exists|i: int| 0 <= i < release.urls().len() && url_fits(
            #[trigger] release.urls()[i],
            tag,
        ),
        r is Ok ==> exists|i: int|
            #[trigger] first_fit(release.urls(), tag, i) && r->Ok_0@ == release.urls()[i],
        r is Err ==> r->Err_0 == InstallError::NoMatchingAsset,
{
    let suffix = asset_suffix_of(tag);
    let mut i: usize = 0;
    while i < release.assets.len()
        invariant
            i <= release.assets@.len(),
            suffix@ == asset_suffix(tag),
            forall|j: int| 0 <= j < i ==> !url_fits(#[trigger] release.urls()[j], tag),
        decreases release.assets@.len() - i,
    {
        let url = &release.assets[i].browser_download_url;
        if ends_with(url.as_str(), suffix) {
            assert(first_fit(release.urls(), tag, i as int));
            return Ok(url.clone());
        }
        i = i + 1;
    }
    Err(InstallError::NoMatchingAsset)
}

/// The last `/`-separated segment of `s`.
pub open spec fn last_segment(s: Seq<char>) -> Seq<char>
    decreases s.len(),
{
    if s.len() == 0 {
        s
    } else if s.last() == '/' {
        Seq::empty()
    } else {
        last_segment(s.drop_last()).push(s.last())
    }
}

/// The archive extension that asset addresses end with.
pub open spec fn archive_extension() -> Seq<char> {
    ".tar.xz"@
}

/// The directory name that the asset at `url` installs under: its file
/// name without the archive extension, where it has that extension.
pub open spec fn install_name(url: Seq<char>) -> Option<Seq<char>> {
    let file = last_segment(url);
    if has_suffix(file, archive_extension()) {
        Some(file.subrange(0, file.len() - archive_extension().len()))
    } else {
        None
    }
}

/// The directory name that the asset at `url` installs under: the last
/// segment of the address without `.tar.xz`, or `None` where that segment
/// does not end with it.
pub fn install_name_of(url: &str) -> (r: Option<String>)
    ensures
        r is None <==> install_name(url@) is None,
        r is Some ==> r->0@ == install_name(url@)->0,
{
    let n = url.unicode_len();
    let mut k: usize = n;
    assert(url@.subrange(0, n as int) =~= url@);
    assert(last_segment(url@) =~= last_segment(url@) + url@.subrange(n as int, n as int));
    while k > 0 && url.get_char(k - 1) != '/'
        invariant
            k <= n,
            n == url@.len(),
            last_segment(url@) == last_segment(url@.subrange(0, k as int)) + url@.subrange(
                k as int,
                n as int,
            ),
        decreases k,
    {
        let ghost pre = url@.subrange(0, k as int);
        assert(pre.drop_last() =~= url@.subrange(0, k - 1));
        assert(url@.subrange(k - 1, n as int) =~= seq![pre.last()] + url@.subrange(
            k as int,
            n as int,
        ));
        assert(last_segment(pre) == last_segment(pre.drop_last()).push(pre.last()));
        assert(last_segment(pre.drop_last()).push(pre.last()) + url@.subrange(k as int, n as int)
            =~= last_segment(pre.drop_last()) + url@.subrange(k - 1, n as int));
        k = k - 1;
    }
    assert(last_segment(url@.subrange(0, k as int)) =~= Seq::<char>::empty());
    let file = url.substring_char(k, n);
    assert(file@ =~= last_segment(url@));
    let ext = ".tar.xz";
    if ends_with(file, ext) {
        let m = file.unicode_len();
        let e = ext.unicode_len();
        Some(file.substring_char(0, m - e).to_string())
    } else {
        None
    }
}

} // verus!
