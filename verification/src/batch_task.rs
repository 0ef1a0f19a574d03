//! Batch download tasks: a named list of files fetched together, and its
//! conversion into the form the engine's batch-creation call takes.
use vstd::prelude::*;

use crate::text::{
    conversion_error, lemma_conversion_error_at, lemma_conversion_error_concat, to_cstring, utf8_bytes,
    CText,
};

verus! {

/// A batch task: its name, how many of its files may download at once, and
/// the files.
#[derive(Debug)]
pub struct BatchInfo {
    pub task_name: String,
    pub max_concurrent: u32,
    pub batch_files: FilesInfo,
}

/// The files of a batch task, with their count as the engine reads it.
#[derive(Debug)]
pub struct FilesInfo {
    pub file_count: u32,
    pub file_items: Vec<FileItem>,
}

/// One file of a batch: where it comes from, where it goes, and an optional
/// hash to check it against.
#[derive(Debug)]
pub struct FileItem {
    pub url: String,
    pub save_path: String,
    pub save_name: String,
    pub file_hash: Option<String>,
}

/// How many files of a batch download at once when the caller does not say.
pub const DEFAULT_MAX_CONCURRENT: u32 = 20;

impl FilesInfo {
    /// The count field agrees with the list: it is the number of files,
    /// kept in 32 bits as the engine's count is.
    pub open spec fn count_matches(&self) -> bool {
        self.file_count == #[verifier::truncate] (self.file_items@.len() as u32)
    }

    /// An empty list of files.
    pub fn new() -> (r: Self)
        ensures
            r.file_items@ == Seq::<FileItem>::empty(),
            r.file_count == 0,
            r.count_matches(),
    {
        FilesInfo { file_count: 0, file_items: Vec::new() }
    }

    /// Appends a file; the count follows the list, whatever it was before.
    pub fn add_file(&mut self, file: FileItem)
        ensures
            final(self).file_items@ == old(self).file_items@.push(file),
            final(self).count_matches(),
            old(self).file_items@.len() < u32::MAX ==> final(self).file_count
                == old(self).file_items@.len() + 1,
    {
        self.file_items.push(file);
        self.file_count = #[verifier::truncate] (self.file_items.len() as u32);
    }
}

impl BatchInfo {
    /// A batch with no files; `max_concurrent` defaults to
    /// `DEFAULT_MAX_CONCURRENT`.
    pub fn new(name: String, max_concurrent: Option<u32>) -> (r: Self)
        ensures
            r.task_name == name,
            r.max_concurrent == match max_concurrent {
                Some(m) => m,
                None => DEFAULT_MAX_CONCURRENT,
            },
            r.batch_files.file_items@ == Seq::<FileItem>::empty(),
            r.batch_files.file_count == 0,
            r.batch_files.count_matches(),
    {
        let max_concurrent = match max_concurrent {
            Some(m) => m,
            None => DEFAULT_MAX_CONCURRENT,
        };
        BatchInfo { task_name: name, max_concurrent, batch_files: FilesInfo::new() }
    }

    /// Appends a file to the batch; the name, the concurrency and the files
    /// already there stay as they were, and the count follows the list.
    pub fn add_file(&mut self, file: FileItem)
        ensures
            final(self).task_name == old(self).task_name,
            final(self).max_concurrent == old(self).max_concurrent,
            final(self).batch_files.file_items@ == old(self).batch_files.file_items@.push(file),
            final(self).batch_files.count_matches(),
            old(self).batch_files.file_items@.len() < u32::MAX ==> final(self).batch_files.file_count
                == old(self).batch_files.file_items@.len() + 1,
    {
        self.batch_files.add_file(file);
    }
}

/// The texts of one file, in the order in which they are converted: the
/// URL, the save path, the save name, then the hash when there is one.
pub open spec fn item_texts(item: FileItem) -> Seq<Seq<u8>> {
    seq![utf8_bytes(item.url@), utf8_bytes(item.save_path@), utf8_bytes(item.save_name@)] + match item.file_hash {
        Some(h) => seq![utf8_bytes(h@)],
        None => Seq::<Seq<u8>>::empty(),
    }
}

/// The texts of a list of files, file after file.
pub open spec fn items_texts(items: Seq<FileItem>) -> Seq<Seq<u8>>
    decreases items.len(),
{
    if items.len() == 0 {
        Seq::empty()
    } else {
        items_texts(items.drop_last()) + item_texts(items.last())
    }
}

/// All texts of a batch in conversion order: those of the files, then the
/// task name.
pub open spec fn batch_texts(info: BatchInfo) -> Seq<Seq<u8>> {
    items_texts(info.batch_files.file_items@) + seq![utf8_bytes(info.task_name@)]
}

proof fn lemma_items_texts_push(items: Seq<FileItem>, i: int)
    requires
        0 <= i < items.len(),
    ensures
        items_texts(items.take(i + 1)) == items_texts(items.take(i)) + item_texts(items[i]),
{
    assert(items.take(i + 1).drop_last() =~= items.take(i));
}

proof fn lemma_items_texts_concat(a: Seq<FileItem>, b: Seq<FileItem>)
    ensures
        items_texts(a + b) == items_texts(a) + items_texts(b),
    decreases b.len(),
{
    if b.len() == 0 {
        assert(a + b =~= a);
        assert(items_texts(a) + items_texts(b) =~= items_texts(a));
    } else {
        assert((a + b).drop_last() =~= a + b.drop_last());
        lemma_items_texts_concat(a, b.drop_last());
        assert(items_texts(a) + items_texts(b.drop_last()) + item_texts(b.last()) =~= items_texts(
            a,
        ) + (items_texts(b.drop_last()) + item_texts(b.last())));
    }
}

/// One file of a batch, ready for the engine.
#[derive(Debug)]
pub struct FileRow {
    pub url: CText,
    pub save_path: CText,
    pub save_name: CText,
    pub file_hash: Option<CText>,
}

/// A whole batch, ready for the engine's batch-creation call.
#[derive(Debug)]
pub struct BatchRequest {
    pub task_name: CText,
    pub max_concurrent: u32,
    pub file_count: u32,
    pub files: Vec<FileRow>,
}

/// The row holds exactly the bytes of the file's texts.
pub open spec fn row_matches(row: FileRow, item: FileItem) -> bool {
    &&& row.url@ == utf8_bytes(item.url@)
    &&& row.save_path@ == utf8_bytes(item.save_path@)
    &&& row.save_name@ == utf8_bytes(item.save_name@)
    &&& match (row.file_hash, item.file_hash) {
        (Some(r), Some(h)) => r@ == utf8_bytes(h@),
        (None, None) => true,
        _ => false,
    }
}

/// A row that matches a file carries each of the file's texts in its own
/// field, the hash included exactly when the file has one.
pub proof fn lemma_row_matches_fields(row: FileRow, item: FileItem)
    requires
        row_matches(row, item),
    ensures
        row.url@ == utf8_bytes(item.url@),
        row.save_path@ == utf8_bytes(item.save_path@),
        row.save_name@ == utf8_bytes(item.save_name@),
        row.file_hash is Some <==> item.file_hash is Some,
        item.file_hash is Some ==> row.file_hash.unwrap()@ == utf8_bytes(item.file_hash.unwrap()@),
{
}

fn file_row(item: &FileItem) -> (r: Result<FileRow, String>)
    ensures
        match r {
            Ok(row) => {
                &&& conversion_error(item_texts(*item)) is None
                &&& row_matches(row, *item)
                &&& row.url@ == utf8_bytes(item.url@)
                &&& row.save_path@ == utf8_bytes(item.save_path@)
                &&& row.save_name@ == utf8_bytes(item.save_name@)
                &&& row.file_hash is Some <==> item.file_hash is Some
                &&& item.file_hash is Some ==> row.file_hash.unwrap()@ == utf8_bytes(
                    item.file_hash.unwrap()@,
                )
            },
            Err(e) => conversion_error(item_texts(*item)) == Some(e@),
        },
{
    let ghost texts = item_texts(*item);
    let url = match to_cstring(item.url.as_str()) {
        Ok(c) => c,
        Err(e) => {
            proof {
                lemma_conversion_error_at(texts, 0);
            }
            return Err(e);
        },
    };
    let save_path = match to_cstring(item.save_path.as_str()) {
        Ok(c) => c,
        Err(e) => {
            proof {
                lemma_conversion_error_at(texts, 1);
            }
            return Err(e);
        },
    };
    let save_name = match to_cstring(item.save_name.as_str()) {
        Ok(c) => c,
        Err(e) => {
            proof {
                lemma_conversion_error_at(texts, 2);
            }
            return Err(e);
        },
    };
    let file_hash = match &item.file_hash {
        Some(h) => match to_cstring(h.as_str()) {
            Ok(c) => Some(c),
            Err(e) => {
                proof {
                    lemma_conversion_error_at(texts, 3);
                }
                return Err(e);
            },
        },
        None => None,
    };
    proof {
        lemma_conversion_error_at(texts, texts.len() as int);
    }
    Ok(FileRow { url, save_path, save_name, file_hash })
}

impl BatchInfo {
    /// Converts the batch for the engine, file after file and then the task
    /// name, as C strings. Fails with the error of the first text that holds
    /// a zero byte; otherwise each row holds the bytes of its file, and the
    /// count is the number of rows in 32 bits.
    pub fn to_request(&self) -> (r: Result<BatchRequest, String>)
        ensures
            match r {
                Ok(req) => {
                    &&& conversion_error(batch_texts(*self)) is None
                    &&& req.task_name@ == utf8_bytes(self.task_name@)
                    &&& req.max_concurrent == self.max_concurrent
                    &&& req.files@.len() == self.batch_files.file_items@.len()
                    &&& req.file_count == #[verifier::truncate] (req.files@.len() as u32)
                    &&& self.batch_files.count_matches() ==> req.file_count
                        == self.batch_files.file_count
                    &&& forall|i: int|
                        0 <= i < req.files@.len() ==> row_matches(
                            #[trigger] req.files@[i],
                            self.batch_files.file_items@[i],
                        )
                    &&& forall|i: int|
                        #![trigger req.files@[i]]
                        0 <= i < req.files@.len() ==> {
                            let row = req.files@[i];
                            let item = self.batch_files.file_items@[i];
                            &&& row.url@ == utf8_bytes(item.url@)
                            &&& row.save_path@ == utf8_bytes(item.save_path@)
                            &&& row.save_name@ == utf8_bytes(item.save_name@)
                            &&& row.file_hash is Some <==> item.file_hash is Some
                            &&& item.file_hash is Some ==> row.file_hash.unwrap()@ == utf8_bytes(
                                item.file_hash.unwrap()@,
                            )
                        }
                },
                Err(e) => conversion_error(batch_texts(*self)) == Some(e@),
            },
    {
        let items = &self.batch_files.file_items;
        let ghost all = items@;
        let mut files: Vec<FileRow> = Vec::new();
        let mut i: usize = 0;
        while i < items.len()
            invariant
                items@ == all,
                all == self.batch_files.file_items@,
                i <= all.len(),
                files@.len() == i,
                conversion_error(items_texts(all.take(i as int))) is None,
                forall|j: int| 0 <= j < i ==> row_matches(#[trigger] files@[j], all[j]),
                forall|j: int|
                    #![trigger files@[j]]
                    0 <= j < i ==> {
                        let row = files@[j];
                        let item = all[j];
                        &&& row.url@ == utf8_bytes(item.url@)
                        &&& row.save_path@ == utf8_bytes(item.save_path@)
                        &&& row.save_name@ == utf8_bytes(item.save_name@)
                        &&& row.file_hash is Some <==> item.file_hash is Some
                        &&& item.file_hash is Some ==> row.file_hash.unwrap()@ == utf8_bytes(
                            item.file_hash.unwrap()@,
                        )
                    },
            decreases all.len() - i,
        {
            let row = file_row(&items[i]);
            proof {
                lemma_items_texts_push(all, i as int);
                lemma_conversion_error_concat(
                    items_texts(all.take(i as int)),
                    item_texts(all[i as int]),
                );
            }
            match row {
                Ok(row) => {
                    files.push(row);
                },
                Err(e) => {
                    proof {
                        let done = all.take(i + 1);
                        let rest = all.skip(i + 1);
                        assert(done + rest =~= all);
                        lemma_items_texts_concat(done, rest);
                        lemma_conversion_error_concat(items_texts(done), items_texts(rest));
                        lemma_conversion_error_concat(
                            items_texts(all),
                            seq![utf8_bytes(self.task_name@)],
                        );
                        assert(conversion_error(items_texts(done)) == Some(e@));
                        assert(conversion_error(items_texts(all)) == Some(e@));
                        assert(batch_texts(*self) == items_texts(all) + seq![
                            utf8_bytes(self.task_name@),
                        ]);
                    }
                    return Err(e);
                },
            }
            i = i + 1;
        }
        proof {
            assert(all.take(all.len() as int) =~= all);
            lemma_conversion_error_concat(items_texts(all), seq![utf8_bytes(self.task_name@)]);
            assert(batch_texts(*self) == items_texts(all) + seq![utf8_bytes(self.task_name@)]);
        }
        let task_name = match to_cstring(self.task_name.as_str()) {
            Ok(c) => c,
            Err(e) => {
                proof {
                    lemma_conversion_error_at(seq![utf8_bytes(self.task_name@)], 0);
                }
                return Err(e);
            },
        };
        proof {
            lemma_conversion_error_at(seq![utf8_bytes(self.task_name@)], 1);
        }
        let file_count = #[verifier::truncate] (files.len() as u32);
        Ok(BatchRequest { task_name, max_concurrent: self.max_concurrent, file_count, files })
    }
}

} // verus!
