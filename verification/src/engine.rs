//! The scan engine proper: which enumerated entries yield records, what each
//! record holds, and the aggregation of a whole enumeration into one result
//! collection. Anything a worker could not read is skipped silently; one bad
//! entry never taints the rest.

use vstd::prelude::*;

verus! {

/// Classification of one enumerated filesystem entry.
#[derive(Clone, Copy, Debug, PartialEq, Eq)]
pub enum EntryKind {
    File,
    Directory,
    Other,
}

/// Output shape of a scan: fingerprint only, or fingerprint plus metadata.
#[derive(Clone, Copy, Debug, PartialEq, Eq)]
pub enum ScanMode {
    Minimal,
    Extended,
}

/// Metadata reported by one stat call, as plain values.
#[derive(Clone, Copy, Debug, PartialEq, Eq)]
pub struct FileMeta {
    /// Byte count reported by the filesystem.
    pub size_bytes: u64,
    /// Whole seconds of the modification time since the epoch.
    pub mtime_secs: u64,
    /// Sub-second part of the modification time, in nanoseconds.
    pub mtime_nanos: u32,
}

/// One enumerated entry together with what the filesystem yielded for it.
/// `content` is `None` when the bytes could not be read (permission, deleted
/// meanwhile, I/O fault); `meta` is `None` when the stat failed.
#[derive(Debug)]
pub struct ScanEntry {
    pub path: String,
    pub kind: EntryKind,
    pub content: Option<Vec<u8>>,
    pub meta: Option<FileMeta>,
}

/// One record of the result collection.
#[derive(Debug, PartialEq, Eq)]
pub struct FileRecord {
    /// The entry's path, unique within one scan when the input paths are.
    pub path: String,
    /// 64 lowercase hex characters: the SHA-256 digest of the bytes read.
    pub content_hash: String,
    /// Present exactly in extended mode.
    pub meta: Option<FileMeta>,
}

/// The mathematical shadow of a `ScanEntry`.
pub ghost struct EntryModel {
    pub path: Seq<char>,
    pub kind: EntryKind,
    pub content: Option<Seq<u8>>,
    pub meta: Option<FileMeta>,
}

/// The mathematical shadow of a `FileRecord`.
pub ghost struct RecordModel {
    pub path: Seq<char>,
    pub content_hash: Seq<char>,
    pub meta: Option<FileMeta>,
}

impl View for ScanEntry {
    type V = EntryModel;

    open spec fn view(&self) -> EntryModel {
        EntryModel {
            path: self.path@,
            kind: self.kind,
            content: match self.content {
                Some(b) => Some(b@),
                None => None,
            },
            meta: self.meta,
        }
    }
}

impl View for FileRecord {
    type V = RecordModel;

    open spec fn view(&self) -> RecordModel {
        RecordModel {
            path: self.path@,
            content_hash: self.content_hash@,
            meta: self.meta,
        }
    }
}

/// Whether an enumerated entry yields a record: a regular file whose bytes
/// could be read and, in extended mode, whose metadata was available.
pub open spec fn spec_admits(e: EntryModel, mode: ScanMode) -> bool {
    &&& e.kind is File
    &&& e.content is Some
    &&& mode is Extended ==> e.meta is Some
}

/// The record an admitted entry yields: its path, the fingerprint of the
/// bytes that were read, and the stat values exactly in extended mode.
pub open spec fn spec_record(e: EntryModel, mode: ScanMode) -> RecordModel {
    RecordModel {
        path: e.path,
        content_hash: crate::digest::sha256_hex_of(e.content->0),
        meta: if mode is Extended {
            e.meta
        } else {
            None
        },
    }
}

/// The outcome of one unit of work: a record, or a silent skip.
pub open spec fn spec_outcome(e: EntryModel, mode: ScanMode) -> Option<RecordModel> {
    if spec_admits(e, mode) {
        Some(spec_record(e, mode))
    } else {
        None
    }
}

/// `spec_outcome` as a function value, so that every use names one symbol.
pub open spec fn outcome_fn(mode: ScanMode) -> spec_fn(EntryModel) -> Option<RecordModel> {
    |e: EntryModel| spec_outcome(e, mode)
}

/// The whole scan over a sequence of enumerated entries, in order.
pub open spec fn spec_scan(es: Seq<EntryModel>, mode: ScanMode) -> Seq<RecordModel> {
    es.filter_map(outcome_fn(mode))
}

/// The models of a sequence of entries.
pub open spec fn entry_models(es: Seq<ScanEntry>) -> Seq<EntryModel> {
    es.map_values(|e: ScanEntry| e@)
}

/// The models of a sequence of records.
pub open spec fn record_models(rs: Seq<FileRecord>) -> Seq<RecordModel> {
    rs.map_values(|r: FileRecord| r@)
}

/// Combine a path, a computed fingerprint and the stat outcome into a
/// record, per the requested output mode: in extended mode the metadata
/// must be there, in minimal mode it is left out.
pub fn assemble_record(
    path: String,
    content_hash: String,
    meta: Option<FileMeta>,
    mode: ScanMode,
) -> (r: Option<FileRecord>)
    ensures
        r is Some <==> (mode is Extended ==> meta is Some),
        r matches Some(rec) ==> rec@ == (RecordModel {
            path: path@,
            content_hash: content_hash@,
            meta: if mode is Extended {
                meta
            } else {
                None
            },
        }),
{
    let kept: Option<FileMeta> = match mode {
        ScanMode::Extended => {
            match meta {
                Some(m) => Some(m),
                None => {
                    return None;
                },
            }
        },
        ScanMode::Minimal => None,
    };
    Some(FileRecord { path, content_hash, meta: kept })
}

impl ScanEntry {
    /// One unit of work: the record this entry yields, or `None` for the
    /// silent per-file skip.
    pub fn to_record(&self, mode: ScanMode) -> (r: Option<FileRecord>)
        ensures
            r is Some <==> spec_admits(self@, mode),
            r matches Some(rec) ==> rec@ == spec_record(self@, mode),
            r matches Some(rec) ==> rec.content_hash@.len() == 64,
    {
        match self.kind {
            EntryKind::File => {},
            _ => {
                return None;
            },
        }
        let content = match &self.content {
            Some(c) => c,
            None => {
                return None;
            },
        };
        let hash = crate::digest::sha256_hex(content.as_slice());
        assemble_record(self.path.clone(), hash, self.meta, mode)
    }
}

/// Aggregate a whole enumeration into one result collection: one record per
/// admitted entry, in enumeration order, and nothing else.
pub fn scan_entries(entries: &Vec<ScanEntry>, mode: ScanMode) -> (r: Vec<FileRecord>)
    ensures
        record_models(r@) == spec_scan(entry_models(entries@), mode),
        forall|k: int| 0 <= k < r@.len() ==> #[trigger] r@[k].content_hash@.len() == 64,
{
    let ghost models = entry_models(entries@);
    let mut r: Vec<FileRecord> = Vec::new();
    let mut i: usize = 0;
    while i < entries.len()
        invariant
            i <= entries.len(),
            models == entry_models(entries@),
            models.len() == entries@.len(),
            record_models(r@) == spec_scan(models.take(i as int), mode),
            forall|k: int| 0 <= k < r@.len() ==> #[trigger] r@[k].content_hash@.len() == 64,
        decreases entries.len() - i,
    {
        let ghost r_old = r@;
        let rec_opt = entries[i].to_record(mode);
        match rec_opt {
            Some(rec) => {
                r.push(rec);
                proof {
                    assert(record_models(r@) =~= record_models(r_old).push(
                    spec_record(models[i as int], mode)));
                }
            },
            None => {},
        }
        proof {
            models.lemma_filter_map_take_succ(outcome_fn(mode), i as int);
            assert(record_models(r@) =~= spec_scan(models.take(i as int + 1), mode));
        }
        i = i + 1;
    }
    proof {
        assert(models.take(entries@.len() as int) =~= models);
    }
    r
}

} // verus!
