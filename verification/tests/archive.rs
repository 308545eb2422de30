//! The archive store: opening containers, hashed path lookup, extraction.

use mhrice::archive::Store;
use mhrice::error::ArchiveError;
use mhrice::hash::{normalize_path, path_hash};

fn le32(v: u32, out: &mut Vec<u8>) {
    out.extend_from_slice(&v.to_le_bytes());
}

/// Assemble a container: a hash-ordered directory of (path, payload,
/// compressed) triples, content region behind it.
fn container(entries: &[(&[u8], Vec<u8>, bool)]) -> Vec<u8> {
    let mut hashed: Vec<(u32, &Vec<u8>, bool)> = entries
        .iter()
        .map(|(path, payload, compressed)| (path_hash(path), payload, *compressed))
        .collect();
    hashed.sort_by_key(|e| e.0);
    let dir_len = 4 + 13 * hashed.len();
    let mut offsets = Vec::new();
    let mut off = dir_len;
    for (_, payload, _) in &hashed {
        offsets.push(off);
        off += payload.len();
    }
    let mut out = Vec::new();
    le32(hashed.len() as u32, &mut out);
    for (i, (hash, payload, compressed)) in hashed.iter().enumerate() {
        le32(*hash, &mut out);
        le32(offsets[i] as u32, &mut out);
        le32(payload.len() as u32, &mut out);
        out.push(if *compressed { 1 } else { 0 });
    }
    for (_, payload, _) in &hashed {
        out.extend_from_slice(payload);
    }
    out
}

#[test]
fn fnv1a_reference_values() {
    assert_eq!(path_hash(b""), 0x811C9DC5);
    assert_eq!(path_hash(b"abc"), 0x1A47E90B);
    assert_eq!(path_hash(b"a/b.user"), 0x0DD2284A);
}

#[test]
fn normalization_folds_case_and_separators() {
    assert_eq!(normalize_path(b"A\\B.USER"), b"a/b.user".to_vec());
    assert_eq!(normalize_path(b"data/Define/Player"), b"data/define/player".to_vec());
    // The same logical path under either convention hashes identically.
    assert_eq!(path_hash(b"A\\B.USER"), 0x0DD2284A);
}

#[test]
fn find_and_read_plain_entry() {
    let data = container(&[(b"a/b.user", vec![1, 2, 3, 4], false)]);
    let store = Store::open_container(data).unwrap();
    let id = store.find(b"a/b.user").unwrap();
    assert_eq!(store.read(id).unwrap(), vec![1, 2, 3, 4]);
    // The alternate spelling of the same logical path resolves too.
    let id2 = store.find(b"A\\B.USER").unwrap();
    assert_eq!(id2, id);
}

#[test]
fn absent_path_fails_closed_and_scan_continues() {
    let data = container(&[(b"enemy/em001/00/x.bin", vec![7], false)]);
    let store = Store::open_container(data).unwrap();
    // A dense scan: most probes are absent, each a recoverable NotFound.
    let mut hits = 0;
    for id in 0..16u32 {
        let path = format!("enemy/em{:03}/00/x.bin", id);
        match store.find(path.as_bytes()) {
            Ok(slot) => {
                hits += 1;
                assert_eq!(store.read(slot).unwrap(), vec![7]);
            }
            Err(e) => assert_eq!(e, ArchiveError::NotFound),
        }
    }
    assert_eq!(hits, 1);
}

#[test]
fn compressed_entry_inflates() {
    let payload = b"the quick brown fox jumps over the lazy dog".repeat(8);
    let packed = miniz_oxide::deflate::compress_to_vec_zlib(&payload, 6);
    assert_ne!(packed, payload);
    let data = container(&[(b"big/blob.bin", packed, true)]);
    let store = Store::open_container(data).unwrap();
    let id = store.find(b"big/blob.bin").unwrap();
    // read yields the inflated payload, not the stored bytes.
    assert_eq!(store.read(id).unwrap(), payload);
}

#[test]
fn bad_compressed_payload_is_decompression_error() {
    let data = container(&[(b"bad.bin", vec![0xFF, 0x00, 0xAB], true)]);
    let store = Store::open_container(data).unwrap();
    let id = store.find(b"bad.bin").unwrap();
    assert_eq!(store.read(id).unwrap_err(), ArchiveError::DecompressionError);
}

#[test]
fn out_of_range_entry_is_io_error() {
    // Directory says 8 bytes at an offset past the end of the container.
    let mut data = Vec::new();
    le32(1, &mut data);
    le32(path_hash(b"x"), &mut data);
    le32(9999, &mut data);
    le32(8, &mut data);
    data.push(0);
    let store = Store::open_container(data).unwrap();
    let id = store.find(b"x").unwrap();
    assert_eq!(store.read(id).unwrap_err(), ArchiveError::IoError);
}

#[test]
fn truncated_directory_is_io_error() {
    assert_eq!(Store::open_container(vec![]).unwrap_err(), ArchiveError::IoError);
    assert_eq!(Store::open_container(vec![1, 0]).unwrap_err(), ArchiveError::IoError);
    // Header declares two entries but only one fits.
    let mut data = Vec::new();
    le32(2, &mut data);
    data.extend_from_slice(&[0u8; 13]);
    assert_eq!(Store::open_container(data).unwrap_err(), ArchiveError::IoError);
}

#[test]
fn bad_compression_flag_is_io_error() {
    let mut data = Vec::new();
    le32(1, &mut data);
    le32(path_hash(b"x"), &mut data);
    le32(17, &mut data);
    le32(0, &mut data);
    data.push(2);
    assert_eq!(Store::open_container(data).unwrap_err(), ArchiveError::IoError);
}

#[test]
fn lookup_searches_a_larger_directory() {
    let entries: Vec<(String, Vec<u8>)> = (0..40u32)
        .map(|i| (format!("data/table{:02}.user", i), vec![i as u8; 3]))
        .collect();
    let borrowed: Vec<(&[u8], Vec<u8>, bool)> = entries
        .iter()
        .map(|(p, payload)| (p.as_bytes(), payload.clone(), false))
        .collect();
    let store = Store::open_container(container(&borrowed)).unwrap();
    for (p, payload) in &entries {
        let id = store.find(p.as_bytes()).unwrap();
        assert_eq!(&store.read(id).unwrap(), payload);
    }
    assert!(store.find(b"data/table99.user").is_err());
}

#[test]
fn out_of_order_directory_is_io_error() {
    let ha = path_hash(b"a");
    let hb = path_hash(b"b");
    let (first, second) = if ha < hb { (hb, ha) } else { (ha, hb) };
    let mut data = Vec::new();
    le32(2, &mut data);
    for h in [first, second] {
        le32(h, &mut data);
        le32(30, &mut data);
        le32(0, &mut data);
        data.push(0);
    }
    assert_eq!(Store::open_container(data).unwrap_err(), ArchiveError::IoError);
}
