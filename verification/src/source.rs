//! The pinned OpenBLAS release: its version, its address and the directory
//! that its archive unpacks to.

use vstd::prelude::*;
use vstd::string::*;

verus! {

/// The release of OpenBLAS that is fetched.
pub const OPENBLAS_VERSION: &'static str = "0.3.21";

/// Name of the directory that the archive of release `version` unpacks to.
pub open spec fn source_dir_of(version: Seq<char>) -> Seq<char> {
    "OpenBLAS-"@ + version
}

/// Address of the archive of release `version` on the release host.
pub open spec fn source_url_of(version: Seq<char>) -> Seq<char> {
    "https://github.com/xianyi/OpenBLAS/releases/download/v"@ + version + "/"@ + source_dir_of(
        version,
    ) + ".tar.gz"@
}

/// Address of the archive of the pinned release.
pub open spec fn source_url() -> Seq<char> {
    source_url_of(OPENBLAS_VERSION@)
}

/// Name of the directory that the archive of the pinned release unpacks to.
pub open spec fn source_dir() -> Seq<char> {
    source_dir_of(OPENBLAS_VERSION@)
}

/// The address from which the pinned release is downloaded.
pub fn openblas_source_url() -> (url: String)
    ensures
        url@ == source_url(),
        url@
            == "https://github.com/xianyi/OpenBLAS/releases/download/v0.3.21/OpenBLAS-0.3.21.tar.gz"@,
{
    proof {
        lemma_pinned_release();
    }
    let mut url = String::from_str("https://github.com/xianyi/OpenBLAS/releases/download/v");
    url.append(OPENBLAS_VERSION);
    url.append("/");
    url.append("OpenBLAS-");
    url.append(OPENBLAS_VERSION);
    url.append(".tar.gz");
    assert(url@ =~= source_url());
    url
}

/// The name of the directory that the downloaded archive unpacks to, below
/// the directory it is extracted in.
pub fn source_dir_name() -> (name: String)
    ensures
        name@ == source_dir(),
        name@ == "OpenBLAS-0.3.21"@,
{
    proof {
        lemma_pinned_release();
    }
    let mut name = String::from_str("OpenBLAS-");
    name.append(OPENBLAS_VERSION);
    name
}

/// The pinned release, its directory and its address, spelled out.
pub proof fn lemma_pinned_release()
    ensures
        OPENBLAS_VERSION@ == "0.3.21"@,
        source_dir() == "OpenBLAS-0.3.21"@,
        source_url()
            == "https://github.com/xianyi/OpenBLAS/releases/download/v0.3.21/OpenBLAS-0.3.21.tar.gz"@,
{
    reveal_strlit("0.3.21");
    reveal_strlit("OpenBLAS-");
    reveal_strlit("/");
    reveal_strlit(".tar.gz");
    reveal_strlit("https://github.com/xianyi/OpenBLAS/releases/download/v");
    reveal_strlit("OpenBLAS-0.3.21");
    reveal_strlit(
        "https://github.com/xianyi/OpenBLAS/releases/download/v0.3.21/OpenBLAS-0.3.21.tar.gz",
    );
    assert(source_dir() =~= "OpenBLAS-0.3.21"@);
    assert(source_url()
        =~= "https://github.com/xianyi/OpenBLAS/releases/download/v0.3.21/OpenBLAS-0.3.21.tar.gz"@);
}

/// Whatever the release, the address of its archive ends in the name of the
/// directory that the archive unpacks to, followed by `.tar.gz`.
pub proof fn lemma_url_names_directory(version: Seq<char>)
    ensures
        (source_dir_of(version) + ".tar.gz"@).is_suffix_of(source_url_of(version)),
{
    let url = source_url_of(version);
    let tail = source_dir_of(version) + ".tar.gz"@;
    assert(tail =~= url.subrange(url.len() - tail.len(), url.len() as int));
}

} // verus!
