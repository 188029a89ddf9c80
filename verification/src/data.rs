//! The table of pastes: its records, its mathematical model, and an
//! in-memory table that is proved to behave as the model says.
//!
//! A persistent backend keeps the same table on disk; whatever holds of the
//! model here is what the protocol and the pages may rely on.

use crate::text::{decode_lossy, same_str, text_of};
use vstd::prelude::*;
use vstd::string::*;
use vstd::utf8::*;

verus! {

/// Why a storage operation did not succeed.
#[derive(Debug, Clone, Copy, PartialEq, Eq, Structural)]
pub enum StorageError {
    /// A record with the given identifier already exists.
    DuplicateKey,
    /// The backing store could not be reached or refused the operation.
    StorageUnavailable,
}

/// A stored text, as the line protocol sees it.
#[derive(Debug, PartialEq, Eq)]
pub struct Resource {
    pub uid: String,
    pub content: String,
}

/// What a client submits: the bytes and their media type.
#[derive(Debug, PartialEq, Eq)]
pub struct NewPaste {
    pub content: Vec<u8>,
    pub content_type: String,
}

/// One record of the table.
#[derive(Debug, PartialEq, Eq)]
pub struct Paste {
    pub id: String,
    pub content: Vec<u8>,
    pub content_type: String,
    pub size: u64,
    pub created_at: i64,
    pub view_count: u64,
}

/// The model of a [`Resource`].
pub struct ResourceView {
    pub uid: Seq<char>,
    pub content: Seq<char>,
}

/// The model of a [`NewPaste`].
pub struct NewPasteView {
    pub content: Seq<u8>,
    pub content_type: Seq<char>,
}

/// The model of a [`Paste`].
pub struct PasteView {
    pub id: Seq<char>,
    pub content: Seq<u8>,
    pub content_type: Seq<char>,
    pub size: nat,
    pub created_at: int,
    pub view_count: nat,
}

impl View for Resource {
    type V = ResourceView;

    open spec fn view(&self) -> ResourceView {
        ResourceView { uid: self.uid@, content: self.content@ }
    }
}

impl View for NewPaste {
    type V = NewPasteView;

    open spec fn view(&self) -> NewPasteView {
        NewPasteView { content: self.content@, content_type: self.content_type@ }
    }
}

impl View for Paste {
    type V = PasteView;

    open spec fn view(&self) -> PasteView {
        PasteView {
            id: self.id@,
            content: self.content@,
            content_type: self.content_type@,
            size: self.size as nat,
            created_at: self.created_at as int,
            view_count: self.view_count as nat,
        }
    }
}

/// The model of the table: records by identifier.
pub type Table = Map<Seq<char>, PasteView>;

/// The media type given to records that arrive as plain text.
pub open spec fn plain_text() -> Seq<char> {
    "text/plain"@
}

/// Every record is filed under its own identifier and its `size` is the
/// length of its content.
pub open spec fn table_wf(table: Table) -> bool {
    forall|id: Seq<char>| #[trigger]
        table.dom().contains(id) ==> table[id].id == id && table[id].size
            == table[id].content.len()
}

/// The record that creation files under `id`.
pub open spec fn new_row(
    id: Seq<char>,
    content: Seq<u8>,
    content_type: Seq<char>,
    now: int,
) -> PasteView {
    PasteView { id, content, content_type, size: content.len(), created_at: now, view_count: 0 }
}

/// Whether creating a record under `id` succeeds.
pub open spec fn create_result(table: Table, id: Seq<char>) -> Result<(), StorageError> {
    if table.dom().contains(id) {
        Err(StorageError::DuplicateKey)
    } else {
        Ok(())
    }
}

/// The table after an attempt to create `row`: unchanged if its identifier
/// is taken.
pub open spec fn after_create(table: Table, row: PasteView) -> Table {
    if table.dom().contains(row.id) {
        table
    } else {
        table.insert(row.id, row)
    }
}

/// The record that a read of `id` returns.
pub open spec fn get_result(table: Table, id: Seq<char>) -> Option<PasteView> {
    if table.dom().contains(id) {
        Some(table[id])
    } else {
        None
    }
}

/// `row` with one more view counted; the counter stops at `u64::MAX`.
pub open spec fn viewed(row: PasteView) -> PasteView {
    PasteView {
        view_count: if row.view_count < u64::MAX {
            row.view_count + 1
        } else {
            row.view_count
        },
        ..row
    }
}

/// The table after a read of `id`: a record that was found has been viewed
/// once more, and nothing else has changed.
pub open spec fn after_get(table: Table, id: Seq<char>) -> Table {
    if table.dom().contains(id) {
        table.insert(id, viewed(table[id]))
    } else {
        table
    }
}

/// The model of an optional record.
pub open spec fn paste_view(paste: Option<Paste>) -> Option<PasteView> {
    match paste {
        Some(p) => Some(p@),
        None => None,
    }
}

/// The text form of a record, as the line protocol hands it out.
pub open spec fn as_resource(row: PasteView) -> ResourceView {
    ResourceView { uid: row.id, content: text_of(row.content) }
}

/// The text form of an optional record.
pub open spec fn resource_of(row: Option<PasteView>) -> Option<ResourceView> {
    match row {
        Some(r) => Some(as_resource(r)),
        None => None,
    }
}

/// The model of the outcome of a read.
pub open spec fn found_view(found: Result<Option<Paste>, StorageError>) -> Result<
    Option<PasteView>,
    StorageError,
> {
    match found {
        Ok(Some(p)) => Ok(Some(p@)),
        Ok(None) => Ok(None),
        Err(e) => Err(e),
    }
}

/// The model of the outcome of a text read.
pub open spec fn fetched_view(
    fetched: Result<Option<Resource>, StorageError>,
) -> Result<Option<ResourceView>, StorageError> {
    match fetched {
        Ok(Some(r)) => Ok(Some(r@)),
        Ok(None) => Ok(None),
        Err(e) => Err(e),
    }
}

/// A record created under an unused identifier is what a read of that
/// identifier returns: the content and media type that were given, the
/// length of the content as its size, and no views.
pub proof fn law_create_then_get(
    table: Table,
    id: Seq<char>,
    content: Seq<u8>,
    content_type: Seq<char>,
    now: int,
)
    requires
        create_result(table, id) is Ok,
    ensures
        get_result(after_create(table, new_row(id, content, content_type, now)), id) == Some(
            PasteView {
                id,
                content,
                content_type,
                size: content.len(),
                created_at: now,
                view_count: 0,
            },
        ),
{
}

/// Creation under an identifier that is taken fails with `DuplicateKey` and
/// leaves the table as it was.
pub proof fn law_duplicate_changes_nothing(table: Table, row: PasteView)
    requires
        table.dom().contains(row.id),
    ensures
        create_result(table, row.id) == Err::<(), StorageError>(StorageError::DuplicateKey),
        after_create(table, row) == table,
{
}

/// Each read of a record counts exactly one view, as long as the counter has
/// room, and changes nothing else in the record.
pub proof fn law_get_counts_one_view(table: Table, id: Seq<char>)
    requires
        table.dom().contains(id),
        table[id].view_count < u64::MAX,
    ensures
        after_get(table, id)[id] == (PasteView {
            view_count: table[id].view_count + 1,
            ..table[id]
        }),
{
}

/// After three reads a fresh record has been viewed three times, and each
/// read returned the count as it stood before it.
pub proof fn law_three_gets(
    table: Table,
    id: Seq<char>,
    content: Seq<u8>,
    content_type: Seq<char>,
    now: int,
)
    requires
        create_result(table, id) is Ok,
    ensures
        ({
            let t0 = after_create(table, new_row(id, content, content_type, now));
            let t1 = after_get(t0, id);
            let t2 = after_get(t1, id);
            let t3 = after_get(t2, id);
            &&& get_result(t0, id)->0.view_count == 0
            &&& get_result(t1, id)->0.view_count == 1
            &&& get_result(t2, id)->0.view_count == 2
            &&& t3[id].view_count == 3
        }),
{
}

/// A read of an identifier that is not in the table finds nothing and
/// leaves the table as it was.
pub proof fn law_get_unknown(table: Table, id: Seq<char>)
    requires
        !table.dom().contains(id),
    ensures
        get_result(table, id) is None,
        after_get(table, id) == table,
{
}

/// No operation removes a record or changes its content, media type, size or
/// time of creation, and its view count never goes down.
pub proof fn law_records_persist(table: Table, id: Seq<char>, row: PasteView, read: Seq<char>)
    requires
        table.dom().contains(id),
    ensures
        after_create(table, row).dom().contains(id),
        after_create(table, row)[id] == table[id],
        after_get(table, read).dom().contains(id),
        after_get(table, read)[id].id == table[id].id,
        after_get(table, read)[id].content == table[id].content,
        after_get(table, read)[id].content_type == table[id].content_type,
        after_get(table, read)[id].size == table[id].size,
        after_get(table, read)[id].created_at == table[id].created_at,
        after_get(table, read)[id].view_count >= table[id].view_count,
{
}

/// Creation and reads keep the table well-formed.
pub proof fn law_table_stays_wf(
    table: Table,
    id: Seq<char>,
    content: Seq<u8>,
    content_type: Seq<char>,
    now: int,
)
    requires
        table_wf(table),
    ensures
        table_wf(after_create(table, new_row(id, content, content_type, now))),
        table_wf(after_get(table, id)),
{
}

/// A text filed under an unused identifier reads back as the same text.
pub proof fn law_post_then_get_text(table: Table, uid: Seq<char>, content: Seq<char>, now: int)
    requires
        create_result(table, uid) is Ok,
    ensures
        resource_of(
            get_result(
                after_create(table, new_row(uid, encode_utf8(content), plain_text(), now)),
                uid,
            ),
        ) == Some(ResourceView { uid, content }),
{
    encode_utf8_valid_utf8(content);
    encode_utf8_decode_utf8(content);
}

spec fn has_id(rows: Seq<Paste>, i: int, id: Seq<char>) -> bool {
    0 <= i < rows.len() && rows[i].id@ == id
}

spec fn distinct_ids(rows: Seq<Paste>) -> bool {
    forall|i: int, j: int| 0 <= i < j < rows.len() ==> rows[i].id@ != rows[j].id@
}

spec fn sized(rows: Seq<Paste>) -> bool {
    forall|i: int| 0 <= i < rows.len() ==> (#[trigger] rows[i]).size == rows[i].content@.len()
}

spec fn table_of(rows: Seq<Paste>) -> Table {
    Map::new(
        |id: Seq<char>| exists|i: int| has_id(rows, i, id),
        |id: Seq<char>| rows[choose|i: int| has_id(rows, i, id)]@,
    )
}

proof fn lemma_row_in_table(rows: Seq<Paste>, i: int)
    requires
        distinct_ids(rows),
        0 <= i < rows.len(),
    ensures
        table_of(rows).dom().contains(rows[i].id@),
        table_of(rows)[rows[i].id@] == rows[i]@,
{
    let id = rows[i].id@;
    assert(has_id(rows, i, id));
    let j = choose|j: int| has_id(rows, j, id);
    assert(j == i);
}

proof fn lemma_table_wf(rows: Seq<Paste>)
    requires
        distinct_ids(rows),
        sized(rows),
    ensures
        table_wf(table_of(rows)),
{
    assert forall|id: Seq<char>| #[trigger] table_of(rows).dom().contains(id) implies table_of(
        rows,
    )[id].id == id && table_of(rows)[id].size == table_of(rows)[id].content.len() by {
        let i = choose|i: int| has_id(rows, i, id);
        lemma_row_in_table(rows, i);
    }
}

proof fn lemma_table_push(rows: Seq<Paste>, row: Paste)
    requires
        distinct_ids(rows),
        forall|i: int| 0 <= i < rows.len() ==> rows[i].id@ != row.id@,
    ensures
        distinct_ids(rows.push(row)),
        table_of(rows.push(row)) == table_of(rows).insert(row.id@, row@),
{
    let more = rows.push(row);
    assert forall|id: Seq<char>| table_of(more).dom().contains(id) <==> table_of(rows).insert(
        row.id@,
        row@,
    ).dom().contains(id) by {
        if table_of(more).dom().contains(id) {
            let i = choose|i: int| has_id(more, i, id);
            if i < rows.len() {
                assert(has_id(rows, i, id));
            }
        }
        if table_of(rows).dom().contains(id) {
            let i = choose|i: int| has_id(rows, i, id);
            assert(has_id(more, i, id));
        }
        if id == row.id@ {
            assert(has_id(more, rows.len() as int, id));
        }
    }
    assert forall|id: Seq<char>| table_of(more).dom().contains(id) implies table_of(more)[id]
        == table_of(rows).insert(row.id@, row@)[id] by {
        let i = choose|i: int| has_id(more, i, id);
        lemma_row_in_table(more, i);
        if i < rows.len() {
            lemma_row_in_table(rows, i);
        }
    }
    assert(table_of(more) =~= table_of(rows).insert(row.id@, row@));
}

proof fn lemma_table_update(rows: Seq<Paste>, at: int, row: Paste)
    requires
        distinct_ids(rows),
        0 <= at < rows.len(),
        row.id@ == rows[at].id@,
    ensures
        distinct_ids(rows.update(at, row)),
        table_of(rows.update(at, row)) == table_of(rows).insert(row.id@, row@),
{
    let next = rows.update(at, row);
    assert forall|id: Seq<char>| table_of(next).dom().contains(id) <==> table_of(rows).insert(
        row.id@,
        row@,
    ).dom().contains(id) by {
        if table_of(next).dom().contains(id) {
            let i = choose|i: int| has_id(next, i, id);
            assert(has_id(rows, i, id));
        }
        if table_of(rows).dom().contains(id) {
            let i = choose|i: int| has_id(rows, i, id);
            assert(has_id(next, i, id));
        }
        if id == row.id@ {
            assert(has_id(next, at, id));
        }
    }
    assert forall|id: Seq<char>| table_of(next).dom().contains(id) implies table_of(next)[id]
        == table_of(rows).insert(row.id@, row@)[id] by {
        let i = choose|i: int| has_id(next, i, id);
        lemma_row_in_table(next, i);
        lemma_row_in_table(rows, i);
    }
    assert(table_of(next) =~= table_of(rows).insert(row.id@, row@));
}

impl Paste {
    /// The record that files `paste` under `id` at the time `now`: its size
    /// is the length of its content and it has not been viewed.
    pub fn new(id: &str, paste: NewPaste, now: i64) -> (row: Paste)
        ensures
            row@ == new_row(id@, paste.content@, paste.content_type@, now as int),
    {
        let size: u64 = paste.content.len() as u64;
        Paste {
            id: id.to_owned(),
            content: paste.content,
            content_type: paste.content_type,
            size,
            created_at: now,
            view_count: 0,
        }
    }

    /// The record as the line protocol hands it out: its identifier and its
    /// content read as text.
    pub fn into_resource(self) -> (resource: Resource)
        ensures
            resource@ == as_resource(self@),
    {
        let content = decode_lossy(self.content.as_slice());
        Resource { uid: self.id, content }
    }
}

/// What a read does once the lookup has answered.
#[derive(Debug, PartialEq, Eq)]
pub enum ReadStep {
    /// Count a view of this record, then hand the record out.
    CountView(Paste),
    /// Hand this out; there is no view to count.
    Return(Result<Option<Paste>, StorageError>),
}

/// Decides what follows a lookup: a record that was found has its view
/// counted, and anything else is the answer as it stands.
pub fn after_lookup(looked: Result<Option<Paste>, StorageError>) -> (step: ReadStep)
    ensures
        step == match looked {
            Ok(Some(paste)) => ReadStep::CountView(paste),
            _ => ReadStep::Return(looked),
        },
{
    match looked {
        Ok(Some(paste)) => ReadStep::CountView(paste),
        Ok(None) => ReadStep::Return(Ok(None)),
        Err(e) => ReadStep::Return(Err(e)),
    }
}

/// Ends a read after the attempt to count the view. The record that was
/// found is the answer whether or not the view could be counted.
pub fn after_count(found: Paste, counted: Result<(), StorageError>) -> (answer: Result<
    Option<Paste>,
    StorageError,
>)
    ensures
        answer == Ok::<Option<Paste>, StorageError>(Some(found)),
{
    Ok(Some(found))
}

/// A table of pastes held in memory.
pub struct Database {
    rows: Vec<Paste>,
}

impl View for Database {
    type V = Table;

    closed spec fn view(&self) -> Table {
        table_of(self.rows@)
    }
}

impl Database {
    /// No two records share an identifier, and each `size` is right.
    pub closed spec fn wf(&self) -> bool {
        distinct_ids(self.rows@) && sized(self.rows@)
    }

    /// A well-formed database holds a well-formed table: its records are
    /// filed under their own identifiers, and each `size` is the length of
    /// the content beside it.
    pub proof fn law_table_is_wf(&self)
        requires
            self.wf(),
        ensures
            table_wf(self@),
    {
        lemma_table_wf(self.rows@);
    }

    /// An empty table.
    pub fn new() -> (db: Database)
        ensures
            db.wf(),
            db@ == Map::<Seq<char>, PasteView>::empty(),
    {
        Database { rows: Vec::new() }
    }

    /// The position of the record filed under `id`, if there is one.
    fn find(&self, id: &str) -> (at: Option<usize>)
        requires
            self.wf(),
        ensures
            match at {
                Some(i) => has_id(self.rows@, i as int, id@),
                None => !self@.dom().contains(id@),
            },
    {
        let mut i: usize = 0;
        while i < self.rows.len()
            invariant
                i <= self.rows.len(),
                forall|k: int| 0 <= k < i ==> !has_id(self.rows@, k, id@),
            decreases self.rows.len() - i,
        {
            if same_str(self.rows[i].id.as_str(), id) {
                return Some(i);
            }
            i += 1;
        }
        None
    }

    /// Files `paste` under `id`, stamped with the time `now` and with no
    /// views yet. Fails with `DuplicateKey`, changing nothing, exactly when
    /// `id` is already taken.
    pub fn create_paste(&mut self, id: &str, paste: NewPaste, now: i64) -> (created: Result<
        (),
        StorageError,
    >)
        requires
            old(self).wf(),
        ensures
            final(self).wf(),
            created == create_result(old(self)@, id@),
            final(self)@ == after_create(
                old(self)@,
                new_row(id@, paste.content@, paste.content_type@, now as int),
            ),
    {
        match self.find(id) {
            Some(i) => {
                proof {
                    lemma_row_in_table(self.rows@, i as int);
                }
                Err(StorageError::DuplicateKey)
            },
            None => {
                let row = Paste::new(id, paste, now);
                proof {
                    assert forall|i: int| 0 <= i < self.rows@.len() implies self.rows@[i].id@
                        != row.id@ by {
                        if self.rows@[i].id@ == row.id@ {
                            lemma_row_in_table(self.rows@, i);
                        }
                    }
                    lemma_table_push(self.rows@, row);
                }
                self.rows.push(row);
                Ok(())
            },
        }
    }

    /// Looks the record filed under `id` up without counting a view.
    pub fn select(&self, id: &str) -> (found: Option<Paste>)
        requires
            self.wf(),
        ensures
            paste_view(found) == get_result(self@, id@),
    {
        match self.find(id) {
            Some(i) => {
                proof {
                    lemma_row_in_table(self.rows@, i as int);
                }
                let row = &self.rows[i];
                Some(
                    Paste {
                        id: row.id.clone(),
                        content: row.content.clone(),
                        content_type: row.content_type.clone(),
                        size: row.size,
                        created_at: row.created_at,
                        view_count: row.view_count,
                    },
                )
            },
            None => None,
        }
    }

    /// Counts one view of the record filed under `id`, if there is one. In
    /// memory this cannot fail.
    pub fn count_view(&mut self, id: &str) -> (counted: Result<(), StorageError>)
        requires
            old(self).wf(),
        ensures
            final(self).wf(),
            counted is Ok,
            final(self)@ == after_get(old(self)@, id@),
    {
        match self.find(id) {
            Some(i) => {
                let ghost before = self.rows@;
                if self.rows[i].view_count < u64::MAX {
                    self.rows[i].view_count = self.rows[i].view_count + 1;
                }
                proof {
                    lemma_row_in_table(before, i as int);
                    lemma_table_update(before, i as int, self.rows@[i as int]);
                }
            },
            None => {},
        }
        Ok(())
    }

    /// Reads the record filed under `id` and counts the view. The record
    /// comes back as it stood before this view was counted; an absent
    /// record is `Ok(None)`, and an in-memory table never fails.
    pub fn get_paste(&mut self, id: &str) -> (found: Result<Option<Paste>, StorageError>)
        requires
            old(self).wf(),
        ensures
            final(self).wf(),
            found_view(found) == Ok::<Option<PasteView>, StorageError>(
                get_result(old(self)@, id@),
            ),
            final(self)@ == after_get(old(self)@, id@),
    {
        match after_lookup(Ok(self.select(id))) {
            ReadStep::CountView(paste) => {
                let counted = self.count_view(id);
                after_count(paste, counted)
            },
            ReadStep::Return(found) => found,
        }
    }

    /// Files the text `content` under `uid` as a plain-text record.
    pub fn post_resource(&mut self, uid: &str, content: &str, now: i64) -> (posted: Result<
        (),
        StorageError,
    >)
        requires
            old(self).wf(),
        ensures
            final(self).wf(),
            posted == create_result(old(self)@, uid@),
            final(self)@ == after_create(
                old(self)@,
                new_row(uid@, encode_utf8(content@), plain_text(), now as int),
            ),
    {
        let paste = NewPaste {
            content: content.as_bytes_vec(),
            content_type: "text/plain".to_owned(),
        };
        self.create_paste(uid, paste, now)
    }

    /// Reads the record filed under `uid` as text, counting the view. An
    /// absent record is `Ok(None)`; an in-memory table never fails.
    pub fn get_resource(&mut self, uid: &str) -> (fetched: Result<Option<Resource>, StorageError>)
        requires
            old(self).wf(),
        ensures
            final(self).wf(),
            fetched_view(fetched) == Ok::<Option<ResourceView>, StorageError>(
                resource_of(get_result(old(self)@, uid@)),
            ),
            final(self)@ == after_get(old(self)@, uid@),
    {
        match self.get_paste(uid) {
            Ok(Some(paste)) => Ok(Some(paste.into_resource())),
            Ok(None) => Ok(None),
            Err(e) => Err(e),
        }
    }
}

} // verus!
