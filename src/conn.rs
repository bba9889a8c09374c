use vstd::prelude::*;
use crate::command::{Compression, DatasetConn, FileOpts};

verus! {

pub open spec fn has_prefix(s: Seq<char>, p: Seq<char>) -> bool {
    p.len() <= s.len() && s.subrange(0, p.len() as int) == p
}

pub open spec fn has_suffix(s: Seq<char>, p: Seq<char>) -> bool {
    p.len() <= s.len() && s.subrange(s.len() - p.len(), s.len() as int) == p
}

/// The compression a file name announces, and the length of the name
/// without that suffix.
pub open spec fn compression_of(s: Seq<char>) -> (Compression, int) {
    if has_suffix(s, ".gz"@) {
        (Compression::Gzip, s.len() - 3)
    } else if has_suffix(s, ".bz2"@) {
        (Compression::Bzip2, s.len() - 4)
    } else if has_suffix(s, ".xz"@) {
        (Compression::Xz, s.len() - 3)
    } else if has_suffix(s, ".zst"@) {
        (Compression::Zstd, s.len() - 4)
    } else {
        (Compression::Uncompressed, s.len() as int)
    }
}

/// The extension a file source is read with: its format extension followed
/// by any compression suffix.
pub open spec fn file_ext_of(s: Seq<char>, format_ext: Seq<char>) -> Seq<char> {
    format_ext + s.subrange(compression_of(s).1, s.len() as int)
}

/// Kinds of source a location names, by prefix or extension.
pub open spec fn is_postgres(s: Seq<char>) -> bool {
    has_prefix(s, "postgres://"@)
}

pub open spec fn is_csv(s: Seq<char>) -> bool {
    has_suffix(s.subrange(0, compression_of(s).1), ".csv"@)
}

pub open spec fn is_ndjson(s: Seq<char>) -> bool {
    has_suffix(s.subrange(0, compression_of(s).1), ".json"@)
}

pub open spec fn is_parquet(s: Seq<char>) -> bool {
    has_suffix(s, ".parquet"@)
}

/// The location names no source kind that can be connected.
#[derive(Clone, Copy, Debug, PartialEq, Eq, Structural)]
pub enum ConnError {
    UnknownSource,
}

fn ends_with(s: &str, p: &str) -> (r: bool)
    ensures
        r == has_suffix(s@, p@),
{
    let n = s.unicode_len();
    let m = p.unicode_len();
    if m > n {
        return false;
    }
    let mut j: usize = 0;
    while j < m
        invariant
            n == s@.len(),
            m == p@.len(),
            m <= n,
            j <= m,
            forall|t: int| 0 <= t < j ==> s@[n - m + t] == p@[t],
        decreases m - j,
    {
        if s.get_char(n - m + j) != p.get_char(j) {
            assert(s@.subrange(n - m, n as int)[j as int] != p@[j as int]);
            return false;
        }
        j = j + 1;
    }
    assert(s@.subrange(n - m, n as int) =~= p@);
    true
}

fn starts_with(s: &str, p: &str) -> (r: bool)
    ensures
        r == has_prefix(s@, p@),
{
    let n = s.unicode_len();
    let m = p.unicode_len();
    if m > n {
        return false;
    }
    let mut j: usize = 0;
    while j < m
        invariant
            n == s@.len(),
            m == p@.len(),
            m <= n,
            j <= m,
            forall|t: int| 0 <= t < j ==> s@[t] == p@[t],
        decreases m - j,
    {
        if s.get_char(j) != p.get_char(j) {
            assert(s@.subrange(0, m as int)[j as int] != p@[j as int]);
            return false;
        }
        j = j + 1;
    }
    assert(s@.subrange(0, m as int) =~= p@);
    true
}

fn split_compression(s: &str) -> (r: (Compression, usize))
    ensures
        r.0 == compression_of(s@).0,
        r.1 as int == compression_of(s@).1,
        r.1 <= s@.len(),
{
    proof {
        reveal_strlit(".gz");
        reveal_strlit(".bz2");
        reveal_strlit(".xz");
        reveal_strlit(".zst");
    }
    let n = s.unicode_len();
    if ends_with(s, ".gz") {
        (Compression::Gzip, n - 3)
    } else if ends_with(s, ".bz2") {
        (Compression::Bzip2, n - 4)
    } else if ends_with(s, ".xz") {
        (Compression::Xz, n - 3)
    } else if ends_with(s, ".zst") {
        (Compression::Zstd, n - 4)
    } else {
        (Compression::Uncompressed, n)
    }
}

/// Reads a connection location: a `postgres://` address, or a file whose
/// extension is `.csv` or `.json` (each optionally followed by `.gz`, `.bz2`,
/// `.xz` or `.zst`) or `.parquet`.
pub fn parse_conn(location: String) -> (r: Result<DatasetConn, ConnError>)
    ensures
        is_postgres(location@) ==> (r is Ok && r->Ok_0 is Postgres && r->Ok_0->Postgres_0@
            == location@),
        !is_postgres(location@) && is_parquet(location@) ==> (r is Ok && r->Ok_0 is Parquet
            && r->Ok_0->Parquet_0@ == location@),
        !is_postgres(location@) && !is_parquet(location@) && is_csv(location@) ==> (r is Ok
            && r->Ok_0 is Csv && r->Ok_0->Csv_0.filename@ == location@
            && r->Ok_0->Csv_0.ext@ == file_ext_of(location@, ".csv"@)
            && r->Ok_0->Csv_0.compression == compression_of(location@).0),
        !is_postgres(location@) && !is_parquet(location@) && !is_csv(location@) && is_ndjson(
            location@,
        ) ==> (r is Ok && r->Ok_0 is NdJson && r->Ok_0->NdJson_0.filename@ == location@
            && r->Ok_0->NdJson_0.ext@ == file_ext_of(location@, ".json"@)
            && r->Ok_0->NdJson_0.compression == compression_of(location@).0),
        !is_postgres(location@) && !is_parquet(location@) && !is_csv(location@) && !is_ndjson(
            location@,
        ) ==> r == Err::<DatasetConn, ConnError>(ConnError::UnknownSource),
{
    if starts_with(location.as_str(), "postgres://") {
        return Ok(DatasetConn::Postgres(location));
    }
    if ends_with(location.as_str(), ".parquet") {
        return Ok(DatasetConn::Parquet(location));
    }
    let (compression, stem_len) = split_compression(location.as_str());
    let stem = location.as_str().substring_char(0, stem_len);
    let suffix = location.as_str().substring_char(stem_len, location.as_str().unicode_len());
    if ends_with(stem, ".csv") {
        let ext = String::from_str(".csv").concat(suffix);
        let filename = location.clone();
        return Ok(DatasetConn::Csv(FileOpts::new(filename, ext, compression)));
    }
    if ends_with(stem, ".json") {
        let ext = String::from_str(".json").concat(suffix);
        let filename = location.clone();
        return Ok(DatasetConn::NdJson(FileOpts::new(filename, ext, compression)));
    }
    Err(ConnError::UnknownSource)
}

} // verus!
