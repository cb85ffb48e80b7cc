//! What is known of a file, and how far a download has come.

use vstd::prelude::*;

verus! {

/// What is known of a file.
#[derive(Debug, Clone, Copy, PartialEq, Eq, Structural)]
pub struct FileMetadata {
    /// When the file was last changed, in seconds since 1970, cut down to 32 bits.
    pub last_modified: u32,
}

impl FileMetadata {
    /// The metadata of a file that was last changed `seconds` after the start of 1970.
    pub fn from_seconds(seconds: u64) -> (r: FileMetadata)
        ensures
            r.last_modified == seconds % 0x1_0000_0000,
    {
        let low: u64 = seconds % 0x1_0000_0000;
        FileMetadata { last_modified: low as u32 }
    }
}

/// How a downloaded file is to be stored.
#[derive(Debug, Clone, Copy, PartialEq, Eq, Structural)]
pub enum ArchiveKind {
    Zip,
    Tar,
    Plain,
}

/// Whether `s` ends with `suffix`.
pub open spec fn ends_with(s: Seq<char>, suffix: Seq<char>) -> bool {
    s.len() >= suffix.len() && s.subrange(s.len() - suffix.len(), s.len() as int) == suffix
}

/// How a file from an address is stored: unpacked where the address ends in
/// `.zip` or `.tar`, written as it is otherwise.
pub open spec fn archive_kind_of(url: Seq<char>) -> ArchiveKind {
    if ends_with(url, ".zip"@) {
        ArchiveKind::Zip
    } else if ends_with(url, ".tar"@) {
        ArchiveKind::Tar
    } else {
        ArchiveKind::Plain
    }
}

fn has_suffix(s: &str, suffix: &str) -> (r: bool)
    ensures
        r == ends_with(s@, suffix@),
{
    let n: usize = s.unicode_len();
    let k: usize = suffix.unicode_len();
    if n < k {
        return false;
    }
    let mut i: usize = 0;
    while i < k
        invariant
            n == s@.len(),
            k == suffix@.len(),
            k <= n,
            i <= k,
            forall|j: int| 0 <= j < i ==> s@[n - k + j] == suffix@[j],
        decreases k - i,
    {
        if s.get_char(n - k + i) != suffix.get_char(i) {
            assert(s@.subrange(n - k, n as int)[i as int] != suffix@[i as int]);
            return false;
        }
        i = i + 1;
    }
    assert(s@.subrange(n - k, n as int) =~= suffix@);
    true
}

/// Decides from its address how a downloaded file is stored.
pub fn archive_kind(url: &str) -> (r: ArchiveKind)
    ensures
        r == archive_kind_of(url@),
{
    if has_suffix(url, ".zip") {
        ArchiveKind::Zip
    } else if has_suffix(url, ".tar") {
        ArchiveKind::Tar
    } else {
        ArchiveKind::Plain
    }
}

/// How much of a download of `total` bytes is done after `downloaded` bytes,
/// in hundredths of a percent and never above 100%.
pub open spec fn download_share(downloaded: u64, total: u64) -> int {
    if total == 0 || downloaded >= total {
        10000
    } else {
        (downloaded as int) * 10000 / (total as int)
    }
}

/// How far a download has come, in hundredths of a percent; `None` where the
/// size of the file is not known.
pub fn download_progress(downloaded: u64, total: Option<u64>) -> (r: Option<u32>)
    ensures
        match total {
            Some(t) => r == Some(download_share(downloaded, t) as u32),
            None => r.is_none(),
        },
{
    match total {
        Some(t) => {
            if t == 0 || downloaded >= t {
                Some(10000)
            } else {
                let wide: u128 = (downloaded as u128) * 10000 / (t as u128);
                assert(wide < 10000) by (nonlinear_arith)
                    requires
                        wide == (downloaded as int) * 10000 / (t as int),
                        downloaded < t,
                        t > 0,
                ;
                Some(wide as u32)
            }
        },
        None => None,
    }
}


/// How far a download has come.
#[derive(Debug, Clone, PartialEq, Eq)]
pub struct DownloadProgress {
    /// In hundredths of a percent; `None` while the size of the file is not known.
    pub progress: Option<u32>,
    pub id: String,
    pub finished: bool,
}

impl DownloadProgress {
    /// The report after `downloaded` bytes of a download of `total` bytes.
    pub fn during(id: String, downloaded: u64, total: Option<u64>) -> (r: DownloadProgress)
        ensures
            r.id == id,
            !r.finished,
            match total {
                Some(t) => r.progress == Some(download_share(downloaded, t) as u32),
                None => r.progress.is_none(),
            },
    {
        DownloadProgress { progress: download_progress(downloaded, total), id, finished: false }
    }

    /// The report of a download that is done.
    pub fn done(id: String) -> (r: DownloadProgress)
        ensures
            r.id == id,
            r.finished,
            r.progress == Some(10000u32),
    {
        DownloadProgress { progress: Some(10000), id, finished: true }
    }
}

} // verus!
