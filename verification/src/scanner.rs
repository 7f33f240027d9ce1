//! One-shot directory scan.
//!
//! The surrounding process walks the directory tree (following symbolic
//! links, skipping entries it cannot visit) and hands the scanner one
//! [`FsEntry`] per entry it could visit, in traversal order, with the
//! outcome of the metadata read for that entry. The scanner keeps exactly
//! the regular files whose name carries a recognized audio extension and
//! returns their records in the same order.
//!
//! A failed metadata read on an eligible file aborts the whole scan with
//! that failure's message; a failed read on any other entry is ignored. A
//! missing creation or modification timestamp is not a failure: the record
//! carries 0 instead.

use vstd::prelude::*;

use crate::extensions::ext_of;
use crate::extensions::extension_of;
use crate::extensions::is_audio_ext;
use crate::extensions::is_recognized_extension;

verus! {

/// Metadata of one file, as plain values. `created` and `modified` are
/// seconds since the epoch; `None` means the filesystem could not supply
/// the timestamp.
#[derive(Debug, Clone, Copy)]
pub struct FileMeta {
    pub created: Option<u64>,
    pub modified: Option<u64>,
    pub size: u64,
}

/// One visited directory entry: its full path, its file name, whether it
/// is a regular file, and the outcome of reading its metadata (`Err`
/// carries the failure's message).
#[derive(Debug)]
pub struct FsEntry {
    pub path: String,
    pub name: String,
    pub is_file: bool,
    pub meta: Result<FileMeta, String>,
}

/// Mathematical value of an [`FsEntry`].
#[verifier::ext_equal]
pub ghost struct FsEntryModel {
    pub path: Seq<char>,
    pub name: Seq<char>,
    pub is_file: bool,
    pub meta: Result<FileMeta, Seq<char>>,
}

impl View for FsEntry {
    type V = FsEntryModel;

    open spec fn view(&self) -> FsEntryModel {
        FsEntryModel {
            path: self.path@,
            name: self.name@,
            is_file: self.is_file,
            meta: match self.meta {
                Ok(m) => Ok(m),
                Err(ref msg) => Err(msg@),
            },
        }
    }
}

/// Snapshot record of one audio file found by a scan. Timestamps are
/// seconds since the epoch, 0 where the filesystem supplied none.
#[derive(Debug)]
pub struct AudioFile {
    pub path: String,
    pub name: String,
    pub created: u64,
    pub modified: u64,
    pub size: u64,
}

/// Mathematical value of an [`AudioFile`].
#[verifier::ext_equal]
pub ghost struct AudioFileModel {
    pub path: Seq<char>,
    pub name: Seq<char>,
    pub created: u64,
    pub modified: u64,
    pub size: u64,
}

impl View for AudioFile {
    type V = AudioFileModel;

    open spec fn view(&self) -> AudioFileModel {
        AudioFileModel {
            path: self.path@,
            name: self.name@,
            created: self.created,
            modified: self.modified,
            size: self.size,
        }
    }
}

/// Result of one scan: the root that was scanned and the records of the
/// audio files under it, in traversal order.
#[derive(Debug)]
pub struct FolderInfo {
    pub path: String,
    pub files: Vec<AudioFile>,
}

/// Mathematical value of a [`FolderInfo`].
#[verifier::ext_equal]
pub ghost struct FolderInfoModel {
    pub path: Seq<char>,
    pub files: Seq<AudioFileModel>,
}

impl View for FolderInfo {
    type V = FolderInfoModel;

    open spec fn view(&self) -> FolderInfoModel {
        FolderInfoModel { path: self.path@, files: files_model(self.files@) }
    }
}

/// The models of a sequence of records.
pub open spec fn files_model(s: Seq<AudioFile>) -> Seq<AudioFileModel> {
    s.map_values(|f: AudioFile| f@)
}

/// The models of a sequence of entries.
pub open spec fn entries_model(s: Seq<FsEntry>) -> Seq<FsEntryModel> {
    s.map_values(|e: FsEntry| e@)
}

/// An entry the scan keeps: a regular file whose name carries a
/// recognized audio extension.
pub open spec fn eligible(e: FsEntryModel) -> bool {
    &&& e.is_file
    &&& match ext_of(e.name) {
        Some(x) => is_audio_ext(x),
        None => false,
    }
}

/// The record built for an eligible entry from its metadata: a missing
/// timestamp becomes 0.
pub open spec fn record_of(e: FsEntryModel, m: FileMeta) -> AudioFileModel {
    AudioFileModel {
        path: e.path,
        name: e.name,
        created: match m.created {
            Some(c) => c,
            None => 0,
        },
        modified: match m.modified {
            Some(t) => t,
            None => 0,
        },
        size: m.size,
    }
}

/// What a scan of `entries` returns: the records of the eligible entries
/// in order, or the message of the first failed metadata read on an
/// eligible entry.
pub open spec fn scan_spec(entries: Seq<FsEntryModel>) -> Result<Seq<AudioFileModel>, Seq<char>>
    decreases entries.len(),
{
    if entries.len() == 0 {
        Ok(Seq::empty())
    } else {
        let e = entries.last();
        match scan_spec(entries.drop_last()) {
            Err(msg) => Err(msg),
            Ok(prefix) => if !eligible(e) {
                Ok(prefix)
            } else {
                match e.meta {
                    Ok(m) => Ok(prefix.push(record_of(e, m))),
                    Err(msg) => Err(msg),
                }
            },
        }
    }
}

/// How many entries of `entries` are eligible.
pub open spec fn eligible_count(entries: Seq<FsEntryModel>) -> nat
    decreases entries.len(),
{
    if entries.len() == 0 {
        0
    } else {
        eligible_count(entries.drop_last()) + if eligible(entries.last()) {
            1nat
        } else {
            0nat
        }
    }
}

/// Scans a sequence of visited entries. Returns the records of the
/// eligible entries in traversal order, or the message of the first
/// failed metadata read on an eligible entry. The result is a function of
/// the arguments alone: scans of distinct entry sequences are independent.
pub fn scan_from_entries(root: String, entries: Vec<FsEntry>) -> (r: Result<FolderInfo, String>)
    ensures
        match r {
            Ok(info) => {
                &&& scan_spec(entries_model(entries@)) == Ok::<_, Seq<char>>(info@.files)
                &&& info@.path == root@
            },
            Err(msg) => scan_spec(entries_model(entries@)) == Err::<Seq<AudioFileModel>, _>(msg@),
        },
{
    let ghost ms = entries_model(entries@);
    let mut files: Vec<AudioFile> = Vec::new();
    let mut idx: usize = 0;
    proof {
        assert(ms.take(0) =~= Seq::<FsEntryModel>::empty());
        assert(files_model(files@) =~= Seq::<AudioFileModel>::empty());
    }
    while idx < entries.len()
        invariant
            idx <= entries.len(),
            ms == entries_model(entries@),
            ms.len() == entries@.len(),
            scan_spec(ms.take(idx as int)) == Ok::<_, Seq<char>>(files_model(files@)),
        decreases entries.len() - idx,
    {
        let e = &entries[idx];
        proof {
            assert(ms[idx as int] == e@);
        }
        let is_eligible = if e.is_file {
            match extension_of(e.name.as_str()) {
                Some(x) => is_recognized_extension(x.as_str()),
                None => false,
            }
        } else {
            false
        };
        proof {
            assert(is_eligible == eligible(ms[idx as int]));
            assert(ms.take(idx + 1).drop_last() =~= ms.take(idx as int));
            assert(ms.take(idx + 1).last() == ms[idx as int]);
        }
        if is_eligible {
            match &e.meta {
                Ok(m) => {
                    let ghost before = files_model(files@);
                    files.push(
                        AudioFile {
                            path: e.path.clone(),
                            name: e.name.clone(),
                            created: match m.created {
                                Some(c) => c,
                                None => 0,
                            },
                            modified: match m.modified {
                                Some(t) => t,
                                None => 0,
                            },
                            size: m.size,
                        },
                    );
                    proof {
                        assert(files_model(files@) =~= before.push(
                            record_of(ms[idx as int], *m),
                        ));
                    }
                },
                Err(msg) => {
                    let out = msg.clone();
                    proof {
                        assert(scan_spec(ms.take(idx + 1)) == Err::<Seq<AudioFileModel>, _>(
                            out@,
                        ));
                        lemma_scan_err_stable(ms, idx + 1);
                        assert(ms.take(ms.len() as int) =~= ms);
                    }
                    return Err(out);
                },
            }
        }
        idx = idx + 1;
    }
    proof {
        assert(ms.take(idx as int) =~= ms);
    }
    Ok(FolderInfo { path: root, files })
}

/// A scan that has already failed on a prefix fails the same way on the
/// whole: the first failed metadata read on an eligible entry decides.
proof fn lemma_scan_err_stable(s: Seq<FsEntryModel>, k: int)
    requires
        0 <= k <= s.len(),
        scan_spec(s.take(k)) is Err,
    ensures
        scan_spec(s) == scan_spec(s.take(k)),
    decreases s.len() - k,
{
    if k == s.len() {
        assert(s.take(k) =~= s);
    } else {
        assert(s.take(k + 1).drop_last() =~= s.take(k));
        assert(scan_spec(s.take(k + 1)) == scan_spec(s.take(k)));
        lemma_scan_err_stable(s, k + 1);
    }
}

/// A successful scan of entries with N eligible ones returns exactly N
/// records, and every record's name carries a recognized audio extension.
pub proof fn lemma_scan_count_and_recognized(entries: Seq<FsEntryModel>)
    requires
        scan_spec(entries) is Ok,
    ensures
        scan_spec(entries)->Ok_0.len() == eligible_count(entries),
        forall|i: int|
            0 <= i < scan_spec(entries)->Ok_0.len() ==> {
                let name = (#[trigger] scan_spec(entries)->Ok_0[i]).name;
                &&& ext_of(name) is Some
                &&& is_audio_ext(ext_of(name)->Some_0)
            },
    decreases entries.len(),
{
    if entries.len() > 0 {
        lemma_scan_count_and_recognized(entries.drop_last());
    }
}

/// A scan succeeds exactly when the metadata of every eligible entry
/// could be read; a missing timestamp alone never makes it fail.
pub proof fn lemma_scan_ok_iff(entries: Seq<FsEntryModel>)
    ensures
        scan_spec(entries) is Ok <==> forall|i: int|
            0 <= i < entries.len() && eligible(#[trigger] entries[i]) ==> entries[i].meta is Ok,
    decreases entries.len(),
{
    if entries.len() > 0 {
        lemma_scan_ok_iff(entries.drop_last());
        assert(forall|i: int|
            0 <= i < entries.len() - 1 ==> entries.drop_last()[i] == #[trigger] entries[i]);
    }
}

/// A record built from metadata without a creation timestamp carries 0
/// there, and likewise for the modification timestamp.
pub proof fn lemma_record_missing_times_default(e: FsEntryModel, m: FileMeta)
    ensures
        m.created is None ==> record_of(e, m).created == 0,
        m.modified is None ==> record_of(e, m).modified == 0,
{
}

} // verus!
