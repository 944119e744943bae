//! The vault store as the service sees it: the table of sealed records, which
//! holds no row before initialization and one row after it. The table is kept
//! in memory here; whoever persists it reads it into a `VaultStore` and writes
//! the accepted row back.

use crate::cipher::NONCE_SIZE;
use crate::error::{kind_of, ErrorKind, VaultError};
use vstd::prelude::*;
use vstd::slice::*;

verus! {

/// A sealed verifier: the ciphertext and the nonce it was sealed under, kept
/// together as one unit.
#[derive(Debug, PartialEq, Eq)]
pub struct SealedRecord {
    pub ciphertext: Vec<u8>,
    pub nonce: [u8; NONCE_SIZE],
}

/// A row as it is persisted: two blobs. The nonce blob of a sound row is
/// exactly `NONCE_SIZE` bytes long.
#[derive(Debug, PartialEq, Eq)]
pub struct StoredRow {
    pub sealed_hash: Vec<u8>,
    pub nonce: Vec<u8>,
}

/// A row or a record as plain values.
pub ghost struct RowView {
    pub sealed_hash: Seq<u8>,
    pub nonce: Seq<u8>,
}

impl View for SealedRecord {
    type V = RowView;

    open spec fn view(&self) -> RowView {
        RowView { sealed_hash: self.ciphertext@, nonce: self.nonce@ }
    }
}

impl View for StoredRow {
    type V = RowView;

    open spec fn view(&self) -> RowView {
        RowView { sealed_hash: self.sealed_hash@, nonce: self.nonce@ }
    }
}

/// The rows of a table as plain values, oldest first.
pub open spec fn rows_view(rows: Seq<StoredRow>) -> Seq<RowView> {
    rows.map_values(|row: StoredRow| row@)
}

/// The rows of a table that may not exist yet.
pub open spec fn rows_of(table: Option<Seq<RowView>>) -> Seq<RowView> {
    match table {
        Some(rows) => rows,
        None => Seq::empty(),
    }
}

/// The table after the schema has been ensured: created empty where it was
/// absent, left alone where it was there.
pub open spec fn ensure_schema_spec(table: Option<Seq<RowView>>) -> Option<Seq<RowView>> {
    Some(rows_of(table))
}

/// The table after an insert, and what the insert answers: the row is taken
/// only by an existing table that holds no row yet.
pub open spec fn insert_spec(table: Option<Seq<RowView>>, row: RowView) -> (
    Option<Seq<RowView>>,
    Result<(), ErrorKind>,
) {
    match table {
        None => (table, Err(ErrorKind::Storage)),
        Some(rows) => if rows.len() == 0 {
            (Some(seq![row]), Ok(()))
        } else {
            (table, Err(ErrorKind::AlreadyInitialized))
        },
    }
}

/// What loading the vault's record answers: the first row, if there is one
/// and its nonce has the right length.
pub open spec fn load_spec(table: Option<Seq<RowView>>) -> Result<RowView, ErrorKind> {
    let rows = rows_of(table);
    if rows.len() == 0 {
        Err(ErrorKind::NotFound)
    } else if rows[0].nonce.len() != NONCE_SIZE {
        Err(ErrorKind::CorruptRow)
    } else {
        Ok(rows[0])
    }
}

/// What `initialize_database` does to the table and answers.
pub open spec fn initialize_database_spec(table: Option<Seq<RowView>>, row: RowView) -> (
    Option<Seq<RowView>>,
    Result<(), ErrorKind>,
) {
    if rows_of(table).len() == 0 {
        (Some(seq![row]), Ok(()))
    } else {
        (table, Err(ErrorKind::AlreadyInitialized))
    }
}

/// A record result with its record and its error seen as plain values.
pub open spec fn record_outcome(r: Result<SealedRecord, VaultError>) -> Result<RowView, ErrorKind> {
    match r {
        Ok(record) => Ok(record@),
        Err(e) => Err(e.kind),
    }
}

/// The table of sealed records.
#[derive(Debug)]
pub struct VaultStore {
    table: Option<Vec<StoredRow>>,
}

impl View for VaultStore {
    type V = Option<Seq<RowView>>;

    closed spec fn view(&self) -> Option<Seq<RowView>> {
        match self.table {
            Some(rows) => Some(rows_view(rows@)),
            None => None,
        }
    }
}

impl VaultStore {
    /// A store whose table does not exist yet.
    pub fn new() -> (store: VaultStore)
        ensures
            store@ is None,
    {
        VaultStore { table: None }
    }

    /// A store whose table exists and holds the given rows, oldest first.
    pub fn from_rows(rows: Vec<StoredRow>) -> (store: VaultStore)
        ensures
            store@ == Some(rows_view(rows@)),
    {
        VaultStore { table: Some(rows) }
    }

    /// Whether the table exists.
    pub fn has_schema(&self) -> (b: bool)
        ensures
            b == (self@ is Some),
    {
        self.table.is_some()
    }

    /// How many rows the table holds.
    pub fn row_count(&self) -> (n: usize)
        ensures
            n == rows_of(self@).len(),
    {
        match &self.table {
            Some(rows) => rows.len(),
            None => 0,
        }
    }

    /// Whether the vault holds a record.
    pub fn is_initialized(&self) -> (b: bool)
        ensures
            b == (rows_of(self@).len() > 0),
    {
        self.row_count() > 0
    }

    /// Creates the table if it is absent. Doing so again changes nothing.
    pub fn ensure_schema(&mut self)
        ensures
            final(self)@ == ensure_schema_spec(old(self)@),
    {
        if self.table.is_none() {
            self.table = Some(Vec::new());
        }
    }

    /// Appends the record as the vault's single row. A table that already
    /// holds a row refuses it and stays as it was.
    pub fn insert(&mut self, record: SealedRecord) -> (r: Result<(), VaultError>)
        ensures
            (final(self)@, kind_of(r)) == insert_spec(old(self)@, record@),
    {
        let row = StoredRow {
            sealed_hash: record.ciphertext,
            nonce: slice_to_vec(record.nonce.as_slice()),
        };
        match &mut self.table {
            None => Err(VaultError::storage("no such table: master".to_owned())),
            Some(rows) => {
                if rows.len() == 0 {
                    rows.push(row);
                    Ok(())
                } else {
                    Err(VaultError::bare(ErrorKind::AlreadyInitialized))
                }
            },
        }
    }

    /// Reads the vault's record: the first row.
    pub fn load_singleton(&self) -> (r: Result<SealedRecord, VaultError>)
        ensures
            record_outcome(r) == load_spec(self@),
    {
        match &self.table {
            None => Err(VaultError::bare(ErrorKind::NotFound)),
            Some(rows) => {
                if rows.len() == 0 {
                    Err(VaultError::bare(ErrorKind::NotFound))
                } else {
                    match nonce_from_blob(rows[0].nonce.as_slice()) {
                        Some(nonce) => Ok(
                            SealedRecord {
                                ciphertext: slice_to_vec(rows[0].sealed_hash.as_slice()),
                                nonce,
                            },
                        ),
                        None => Err(VaultError::bare(ErrorKind::CorruptRow)),
                    }
                }
            },
        }
    }
}

/// Reads a nonce out of a stored blob, which must be exactly `NONCE_SIZE`
/// bytes long.
pub fn nonce_from_blob(blob: &[u8]) -> (r: Option<[u8; NONCE_SIZE]>)
    ensures
        r is Some <==> blob@.len() == NONCE_SIZE,
        r matches Some(nonce) ==> nonce@ == blob@,
{
    if blob.len() != NONCE_SIZE {
        return None;
    }
    let mut nonce = [0u8; NONCE_SIZE];
    let mut i: usize = 0;
    while i < NONCE_SIZE
        invariant
            i <= NONCE_SIZE,
            blob@.len() == NONCE_SIZE,
            forall|j: int| 0 <= j < i ==> nonce@[j] == blob@[j],
        decreases NONCE_SIZE - i,
    {
        nonce[i] = blob[i];
        i += 1;
    }
    Some(nonce)
}

/// Makes sure the table exists, then stores the sealed verifier as the
/// vault's single row. A vault that already holds a record refuses a second
/// one and stays as it was.
pub fn initialize_database(
    store: &mut VaultStore,
    encrypted_master_key_hash: Vec<u8>,
    key_nonce: [u8; NONCE_SIZE],
) -> (r: Result<(), VaultError>)
    ensures
        (final(store)@, kind_of(r)) == initialize_database_spec(
            old(store)@,
            RowView { sealed_hash: encrypted_master_key_hash@, nonce: key_nonce@ },
        ),
{
    store.ensure_schema();
    store.insert(SealedRecord { ciphertext: encrypted_master_key_hash, nonce: key_nonce })
}

/// Ensuring the schema is idempotent, and it touches no row.
pub proof fn lemma_ensure_schema_idempotent(table: Option<Seq<RowView>>)
    ensures
        ensure_schema_spec(ensure_schema_spec(table)) == ensure_schema_spec(table),
        rows_of(ensure_schema_spec(table)) == rows_of(table),
{
}

/// There is no way back from an initialized vault: a table that holds a row
/// is left as it is by every operation of the store, and a further row is
/// refused.
pub proof fn lemma_initialized_store_stays(table: Option<Seq<RowView>>, row: RowView)
    requires
        rows_of(table).len() > 0,
    ensures
        ensure_schema_spec(table) == table,
        insert_spec(table, row) == (table, Err::<(), ErrorKind>(ErrorKind::AlreadyInitialized)),
        initialize_database_spec(table, row) == (
            table,
            Err::<(), ErrorKind>(ErrorKind::AlreadyInitialized),
        ),
{
}

/// Initializing a vault without a record leaves exactly that record, and
/// loading gives it back where its nonce has the right length.
pub proof fn lemma_load_after_initialize(table: Option<Seq<RowView>>, row: RowView)
    requires
        rows_of(table).len() == 0,
    ensures
        initialize_database_spec(table, row) == (Some(seq![row]), Ok::<(), ErrorKind>(())),
        row.nonce.len() == NONCE_SIZE ==> load_spec(initialize_database_spec(table, row).0) == Ok::<
            RowView,
            ErrorKind,
        >(row),
        row.nonce.len() != NONCE_SIZE ==> load_spec(initialize_database_spec(table, row).0) == Err::<
            RowView,
            ErrorKind,
        >(ErrorKind::CorruptRow),
{
}

} // verus!
