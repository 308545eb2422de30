//! The archive store.
//!
//! A packed container holds every asset as a contiguous, possibly
//! compressed byte range, addressed by the hash of its normalized logical
//! path. The container opens from plain bytes: a little-endian directory —
//! entry count, then per entry (path hash, offset, length, compression
//! flag), ordered strictly by hash — followed by the content region that
//! offsets point into. The ordering is a format constant; it makes path
//! lookup a logarithmic search over the directory.
//!
//! `find` maps a path to its directory slot and fails closed: a path whose
//! hash matches no entry is `NotFound`, a recoverable outcome that scan
//! loops skip. `read` extracts an entry's bytes, inflating a compressed
//! entry first; corruption surfaces as `IoError` or `DecompressionError`
//! and is never mapped to a value. The store is read-only after opening and
//! holds no state besides the container bytes and the parsed directory, so
//! concurrent reads of distinct or equal entries cannot interfere.

use crate::bytes::{le32, read_u32, read_u8};
use crate::error::ArchiveError;
use crate::hash::{path_hash, spec_path_hash};
use vstd::prelude::*;

verus! {

/// One directory entry: where an asset's bytes lie and whether they are
/// compressed.
#[derive(Debug, Clone, Copy, PartialEq, Eq, Structural)]
pub struct DirEntry {
    pub path_hash: u32,
    pub offset: usize,
    pub len: usize,
    pub compressed: bool,
}

/// The model of a store: the container bytes and the parsed directory.
pub struct StoreV {
    pub data: Seq<u8>,
    pub entries: Seq<DirEntry>,
}

/// An open container: its bytes and its parsed directory table.
#[derive(Debug)]
pub struct Store {
    pub(crate) data: Vec<u8>,
    pub(crate) entries: Vec<DirEntry>,
}

impl View for Store {
    type V = StoreV;

    open(crate) spec fn view(&self) -> StoreV {
        StoreV { data: self.data@, entries: self.entries@ }
    }
}

/// What `decompress_to_vec_zlib` returns for these bytes: the inflated
/// payload, or nothing when the bytes are not a valid zlib stream. The
/// result is a function of the input bytes alone.
pub uninterp spec fn inflated(s: Seq<u8>) -> Option<Seq<u8>>;

/// Relies on miniz_oxide::inflate::decompress_to_vec_zlib: inflates a
/// zlib-framed deflate stream, returning the decompressed bytes, or an
/// error for a malformed stream; the outcome depends on the input bytes
/// alone.
#[verifier::external_body]
fn inflate_zlib(data: &[u8]) -> (r: Option<Vec<u8>>)
    ensures
        match r {
            Some(v) => inflated(data@) == Some(v@),
            None => inflated(data@) is None,
        },
{
    match miniz_oxide::inflate::decompress_to_vec_zlib(data) {
        Ok(v) => Some(v),
        Err(_) => None,
    }
}

/// The number of directory entries the container header declares.
pub open spec fn spec_dir_count(s: Seq<u8>) -> u32 {
    le32(s, 0)
}

/// The directory entry parsed from slot `i` of the container bytes.
pub open spec fn spec_dir_entry(s: Seq<u8>, i: int) -> DirEntry {
    DirEntry {
        path_hash: le32(s, 4 + 13 * i),
        offset: le32(s, 4 + 13 * i + 4) as usize,
        len: le32(s, 4 + 13 * i + 8) as usize,
        compressed: s[4 + 13 * i + 12] == 1,
    }
}

/// A container's bytes parse: the header and the whole directory table are
/// present, and every compression flag is 0 or 1.
pub open spec fn container_parses(s: Seq<u8>) -> bool {
    &&& s.len() >= 4
    &&& 4 + 13 * (spec_dir_count(s) as int) <= s.len()
    &&& forall|i: int|
        0 <= i < spec_dir_count(s) as int ==> #[trigger] s[4 + 13 * i + 12] == 0 || s[4 + 13 * i
            + 12] == 1
}

/// The parsed form of a container's bytes.
pub open spec fn parsed_store(s: Seq<u8>) -> StoreV {
    StoreV {
        data: s,
        entries: Seq::new(spec_dir_count(s) as nat, |i: int| spec_dir_entry(s, i)),
    }
}

/// The directory is ordered strictly by hash: the format constant behind
/// the logarithmic lookup, which also rules duplicate hashes out.
pub open spec fn dir_sorted(sv: StoreV) -> bool {
    forall|i: int, j: int|
        0 <= i < j < sv.entries.len() ==> (#[trigger] sv.entries[i]).path_hash < (
        #[trigger] sv.entries[j]).path_hash
}

/// Strictly increasing adjacent hashes order the whole directory.
proof fn lemma_hash_increases(es: Seq<DirEntry>, i: int, j: int)
    requires
        forall|k: int| 0 <= k < es.len() - 1 ==> (#[trigger] es[k]).path_hash < es[k + 1].path_hash,
        0 <= i < j < es.len(),
    ensures
        es[i].path_hash < es[j].path_hash,
    decreases j - i,
{
    if i + 1 < j {
        lemma_hash_increases(es, i, j - 1);
        assert(es[j - 1].path_hash < es[j].path_hash);
    }
}

/// A store is consistent: every directory entry's byte range lies inside
/// the container bytes.
pub open spec fn store_wf(sv: StoreV) -> bool {
    forall|i: int|
        0 <= i < sv.entries.len() ==> (#[trigger] sv.entries[i]).offset + sv.entries[i].len
            <= sv.data.len()
}

/// A container is fully readable: it is consistent and every compressed
/// entry's bytes inflate.
pub open spec fn store_readable(sv: StoreV) -> bool {
    &&& store_wf(sv)
    &&& forall|i: int|
        0 <= i < sv.entries.len() && (#[trigger] sv.entries[i]).compressed ==> inflated(
            sv.data.subrange(
                sv.entries[i].offset as int,
                sv.entries[i].offset + sv.entries[i].len,
            ),
        ) is Some
}

/// What looking a path up in the directory yields: the first slot whose
/// stored hash equals the path's hash, or `NotFound`.
pub open spec fn spec_find_from(sv: StoreV, hash: u32, i: int) -> Result<int, ArchiveError>
    decreases sv.entries.len() - i,
{
    if i < 0 || i >= sv.entries.len() {
        Err(ArchiveError::NotFound)
    } else if sv.entries[i].path_hash == hash {
        Ok(i)
    } else {
        spec_find_from(sv, hash, i + 1)
    }
}

/// What `find` yields for a path.
pub open spec fn spec_find(sv: StoreV, path: Seq<u8>) -> Result<int, ArchiveError> {
    spec_find_from(sv, spec_path_hash(path), 0)
}

/// A successful lookup is in range and matches the path's hash; a failure
/// means no entry from `i` on matches — the lookup fails closed.
pub proof fn lemma_find_from(sv: StoreV, hash: u32, i: int)
    requires
        0 <= i <= sv.entries.len(),
    ensures
        match spec_find_from(sv, hash, i) {
            Ok(t) => i <= t < sv.entries.len() && sv.entries[t].path_hash == hash && forall|j: int|
                i <= j < t ==> (#[trigger] sv.entries[j]).path_hash != hash,
            Err(e) => e == ArchiveError::NotFound && forall|j: int|
                i <= j < sv.entries.len() ==> (#[trigger] sv.entries[j]).path_hash != hash,
        },
    decreases sv.entries.len() - i,
{
    if i < sv.entries.len() && sv.entries[i].path_hash != hash {
        lemma_find_from(sv, hash, i + 1);
    }
}

/// What `read` yields for the entry in slot `id`: the raw byte range for a
/// stored entry, its inflation for a compressed one; `IoError` for a range
/// outside the container, `DecompressionError` for a payload that does not
/// inflate.
pub open spec fn spec_read(sv: StoreV, id: int) -> Result<Seq<u8>, ArchiveError> {
    let e = sv.entries[id];
    if e.offset + e.len <= sv.data.len() {
        let raw = sv.data.subrange(e.offset as int, e.offset + e.len);
        if e.compressed {
            match inflated(raw) {
                Some(p) => Ok(p),
                None => Err(ArchiveError::DecompressionError),
            }
        } else {
            Ok(raw)
        }
    } else {
        Err(ArchiveError::IoError)
    }
}

impl Store {
    /// Open a container from its bytes: parse the directory table, check
    /// its hash order, and keep the content region. Fails with `IoError`
    /// exactly when the header or table is truncated, a compression flag is
    /// out of domain, or the directory is out of hash order; offsets are
    /// not validated here — a corrupt range surfaces as `IoError` from
    /// `read`, never as wrong bytes.
    pub fn open_container(data: Vec<u8>) -> (r: Result<Store, ArchiveError>)
        ensures
            match r {
                Ok(s) => {
                    &&& container_parses(data@)
                    &&& s@ == parsed_store(data@)
                    &&& dir_sorted(s@)
                },
                Err(e) => e == ArchiveError::IoError && !(container_parses(data@) && dir_sorted(
                    parsed_store(data@),
                )),
            },
    {
        let n = match read_u32(data.as_slice(), 0) {
            Ok((n, _)) => n,
            Err(_) => {
                return Err(ArchiveError::IoError);
            },
        };
        if (data.len() - 4) / 13 < n as usize {
            proof {
                assert(13 * (n as int) > data@.len() - 4) by (nonlinear_arith)
                    requires
                        ((data@.len() - 4) / 13) < n as int,
                        data@.len() >= 4,
                ;
                assert(4 + 13 * (spec_dir_count(data@) as int) > data@.len());
            }
            return Err(ArchiveError::IoError);
        }
        proof {
            assert(13 * (n as int) <= data@.len() - 4) by (nonlinear_arith)
                requires
                    ((data@.len() - 4) / 13) >= n as int,
                    data@.len() >= 4,
            ;
        }
        let count = n as usize;
        let mut entries: Vec<DirEntry> = Vec::new();
        let mut i: usize = 0;
        while i < count
            invariant
                i <= count,
                count == spec_dir_count(data@) as int,
                4 + 13 * (count as int) <= data@.len(),
                entries@.len() == i,
                forall|j: int|
                    0 <= j < i ==> #[trigger] entries@[j] == spec_dir_entry(data@, j) && (
                    data@[4 + 13 * j + 12] == 0 || data@[4 + 13 * j + 12] == 1),
            decreases count - i,
        {
            proof {
                assert(13 * (i as int) + 13 <= 13 * (count as int)) by (nonlinear_arith)
                    requires
                        i as int <= count as int - 1,
                ;
                assert(data@.len() == data.len());
            }
            let base: usize = 4 + 13 * i;
            let hash = match read_u32(data.as_slice(), base) {
                Ok((v, _)) => v,
                Err(_) => {
                    return Err(ArchiveError::IoError);
                },
            };
            let offset = match read_u32(data.as_slice(), base + 4) {
                Ok((v, _)) => v,
                Err(_) => {
                    return Err(ArchiveError::IoError);
                },
            };
            let len = match read_u32(data.as_slice(), base + 8) {
                Ok((v, _)) => v,
                Err(_) => {
                    return Err(ArchiveError::IoError);
                },
            };
            let flag = match read_u8(data.as_slice(), base + 12) {
                Ok((v, _)) => v,
                Err(_) => {
                    return Err(ArchiveError::IoError);
                },
            };
            if flag > 1 {
                proof {
                    assert(data@[4 + 13 * (i as int) + 12] == flag);
                    assert(!container_parses(data@));
                }
                return Err(ArchiveError::IoError);
            }
            let ghost prev = entries@;
            entries.push(
                DirEntry {
                    path_hash: hash,
                    offset: offset as usize,
                    len: len as usize,
                    compressed: flag == 1,
                },
            );
            proof {
                assert(data@[4 + 13 * (i as int) + 12] == flag);
                assert(entries@[i as int] == spec_dir_entry(data@, i as int));
                assert forall|j: int|
                    0 <= j < i + 1 implies #[trigger] entries@[j] == spec_dir_entry(data@, j) && (
                data@[4 + 13 * j + 12] == 0 || data@[4 + 13 * j + 12] == 1) by {
                    if j < i {
                        assert(entries@[j] == prev[j]);
                    }
                }
            }
            i = i + 1;
        }
        proof {
            assert forall|k: int| 0 <= k < spec_dir_count(data@) as int implies #[trigger] data@[4
                + 13 * k + 12] == 0 || data@[4 + 13 * k + 12] == 1 by {
                assert(entries@[k] == spec_dir_entry(data@, k) && (data@[4 + 13 * k + 12] == 0
                    || data@[4 + 13 * k + 12] == 1));
            }
            assert(container_parses(data@));
            assert(entries@ =~= parsed_store(data@).entries);
        }
        let mut k: usize = 1;
        while k < count
            invariant
                1 <= k,
                count == entries@.len(),
                entries@ == parsed_store(data@).entries,
                container_parses(data@),
                data@.len() >= 4,
                forall|j: int|
                    0 <= j < k - 1 ==> (#[trigger] entries@[j]).path_hash < entries@[j
                        + 1].path_hash,
            decreases count - k,
        {
            if entries[k - 1].path_hash >= entries[k].path_hash {
                proof {
                    assert(!dir_sorted(parsed_store(data@)));
                }
                return Err(ArchiveError::IoError);
            }
            k = k + 1;
        }
        proof {
            assert forall|i: int, j: int|
                0 <= i < j < entries@.len() implies (#[trigger] entries@[i]).path_hash < (
            #[trigger] entries@[j]).path_hash by {
                lemma_hash_increases(entries@, i, j);
            }
        }
        let s = Store { data, entries };
        proof {
            assert(s@.entries =~= parsed_store(s@.data).entries);
            assert(s@ == parsed_store(s@.data));
        }
        Ok(s)
    }

    /// The number of directory entries.
    pub fn entry_count(&self) -> (r: usize)
        ensures
            r == self@.entries.len(),
    {
        self.entries.len()
    }

    /// The directory entry in slot `id`.
    pub fn entry(&self, id: usize) -> (r: DirEntry)
        requires
            id < self@.entries.len(),
        ensures
            r == self@.entries[id as int],
    {
        self.entries[id]
    }

    /// Resolve a logical path to its directory slot: normalize, hash, and
    /// search the hash-ordered directory for the hash, in logarithmically
    /// many steps. Fails closed with `NotFound` when no entry carries the
    /// hash — the recoverable outcome that existence probes rely on.
    pub fn find(&self, path: &[u8]) -> (r: Result<usize, ArchiveError>)
        requires
            dir_sorted(self@),
        ensures
            match r {
                Ok(id) => spec_find(self@, path@) == Ok::<int, ArchiveError>(id as int),
                Err(e) => spec_find(self@, path@) == Err::<int, ArchiveError>(e),
            },
    {
        let hash = path_hash(path);
        let mut lo: usize = 0;
        let mut hi: usize = self.entries.len();
        while lo < hi
            invariant
                lo <= hi <= self@.entries.len(),
                dir_sorted(self@),
                hash == spec_path_hash(path@),
                forall|j: int| 0 <= j < lo ==> (#[trigger] self@.entries[j]).path_hash < hash,
                forall|j: int|
                    hi <= j < self@.entries.len() ==> (#[trigger] self@.entries[j]).path_hash
                        > hash,
            decreases hi - lo,
        {
            let mid = lo + (hi - lo) / 2;
            let h = self.entries[mid].path_hash;
            if h == hash {
                proof {
                    assert forall|j: int| 0 <= j < mid implies (
                    #[trigger] self@.entries[j]).path_hash != hash by {
                        if lo <= j {
                            assert(self@.entries[j].path_hash < self@.entries[mid as int].path_hash);
                        }
                    }
                    lemma_find_from(self@, hash, 0);
                    match spec_find_from(self@, hash, 0) {
                        Ok(t) => {
                            if t < mid {
                                assert(self@.entries[t].path_hash == hash);
                            } else if t > mid {
                                assert(self@.entries[mid as int].path_hash != hash);
                            }
                        },
                        Err(_) => {
                            assert(self@.entries[mid as int].path_hash != hash);
                        },
                    }
                }
                return Ok(mid);
            } else if h < hash {
                proof {
                    assert forall|j: int| 0 <= j < mid + 1 implies (
                    #[trigger] self@.entries[j]).path_hash < hash by {
                        if lo <= j < mid {
                            assert(self@.entries[j].path_hash < self@.entries[mid as int].path_hash);
                        }
                    }
                }
                lo = mid + 1;
            } else {
                proof {
                    assert forall|j: int|
                        mid <= j < self@.entries.len() implies (
                    #[trigger] self@.entries[j]).path_hash > hash by {
                        if mid < j {
                            assert(self@.entries[mid as int].path_hash < self@.entries[j].path_hash);
                        }
                    }
                }
                hi = mid;
            }
        }
        proof {
            lemma_find_from(self@, hash, 0);
            if spec_find_from(self@, hash, 0) is Ok {
                let t = spec_find_from(self@, hash, 0)->Ok_0;
                assert(self@.entries[t].path_hash != hash);
            }
        }
        Err(ArchiveError::NotFound)
    }

    /// Extract the bytes of the entry in slot `id`: the stored range as it
    /// lies for a plain entry, its inflation for a compressed one. Fails
    /// with `IoError` when the range runs outside the container and with
    /// `DecompressionError` when a compressed payload does not inflate.
    pub fn read(&self, id: usize) -> (r: Result<Vec<u8>, ArchiveError>)
        requires
            id < self@.entries.len(),
        ensures
            match r {
                Ok(v) => spec_read(self@, id as int) == Ok::<_, ArchiveError>(v@),
                Err(e) => spec_read(self@, id as int) == Err::<Seq<u8>, _>(e),
            },
    {
        let e = self.entries[id];
        if e.len > self.data.len() || e.offset > self.data.len() - e.len {
            return Err(ArchiveError::IoError);
        }
        let mut raw: Vec<u8> = Vec::new();
        let mut j: usize = e.offset;
        let end: usize = e.offset + e.len;
        while j < end
            invariant
                e.offset <= j <= end,
                end == e.offset + e.len,
                end <= self@.data.len(),
                raw@ == self@.data.subrange(e.offset as int, j as int),
            decreases end - j,
        {
            raw.push(self.data[j]);
            j = j + 1;
            proof {
                assert(raw@ =~= self@.data.subrange(e.offset as int, j as int));
            }
        }
        if e.compressed {
            match inflate_zlib(raw.as_slice()) {
                Some(v) => Ok(v),
                None => Err(ArchiveError::DecompressionError),
            }
        } else {
            Ok(raw)
        }
    }
}

/// Archive lookup closure: on a fully readable container — entry ranges
/// inside the bytes, compressed payloads that inflate — a path that `find`
/// resolves is always extracted by `read`; only genuinely absent paths
/// yield `NotFound`, and no resolvable entry ever surfaces corruption.
pub proof fn lemma_find_then_read(sv: StoreV, path: Seq<u8>)
    requires
        store_readable(sv),
        spec_find(sv, path) is Ok,
    ensures
        spec_read(sv, spec_find(sv, path)->Ok_0) is Ok,
{
    lemma_find_from(sv, spec_path_hash(path), 0);
}

} // verus!
