//! The tables of the cache store: one append-only table per tool kind, each
//! with a unique constraint, and the identity table that says which build
//! the tables belong to.

use crate::text::decimal_digits;
use crate::text::decimal_text;
use crate::text::lemma_decimal_digits_injective;
use crate::text::str_eq;
use vstd::prelude::*;
use vstd::string::StringExecFns;

verus! {

/// The columns that a lookup compares: the tool's version, the hashes of its
/// configuration where the table has such columns, and the hash of the
/// source.
pub struct Key {
    pub version: Seq<char>,
    pub config_hash: Option<u64>,
    pub extensions_hash: Option<u64>,
    pub source_hash: u64,
}

impl Key {
    /// The columns of the unique constraint: all of the key but the hash of
    /// the extensions.
    pub open spec fn constraint(self) -> Key {
        Key { extensions_hash: None, ..self }
    }
}

/// What a row holds: its key and, in a linter's table, the diagnostics.
pub struct Record {
    pub key: Key,
    pub payload: Option<Seq<u8>>,
}

/// The tool kinds, one table each.
#[derive(Clone, Copy, PartialEq, Eq, Structural, Debug)]
pub enum ToolKind {
    /// The first formatter: version, config hash, extensions hash, source hash.
    Fourmolu,
    /// The second formatter: version, source hash.
    Nixfmt,
    /// The linter: version, configs hash, source hash, diagnostics.
    Hlint,
}

impl ToolKind {
    /// Whether a record has the columns of this kind's table.
    pub open spec fn fits(self, record: Record) -> bool {
        match self {
            ToolKind::Fourmolu => record.key.config_hash is Some && record.key.extensions_hash
                is Some && record.payload is None,
            ToolKind::Nixfmt => record.key.config_hash is None && record.key.extensions_hash
                is None && record.payload is None,
            ToolKind::Hlint => record.key.config_hash is Some && record.key.extensions_hash
                is None && record.payload is Some,
        }
    }
}

/// Why the store refuses a row.
#[derive(Clone, Copy, PartialEq, Eq, Structural, Debug)]
pub enum StoreError {
    /// The row does not have the columns of the table.
    SchemaMismatch,
}

/// Whether some row answers a lookup for `key`.
pub open spec fn found(rows: Seq<Record>, key: Key) -> bool {
    exists|i: int| 0 <= i < rows.len() && (#[trigger] rows[i]).key == key
}

/// Whether the unique constraint forbids a row with `key`: some row agrees
/// with it in the columns of the constraint.
pub open spec fn blocked(rows: Seq<Record>, key: Key) -> bool {
    exists|i: int| 0 <= i < rows.len() && (#[trigger] rows[i]).key.constraint() == key.constraint()
}

/// No two rows agree in the columns of the constraint.
pub open spec fn unique(rows: Seq<Record>) -> bool {
    forall|i: int, j: int|
        0 <= i < j < rows.len() ==> (#[trigger] rows[i]).key.constraint() != (
        #[trigger] rows[j]).key.constraint()
}

/// The rows after an insert-or-ignore of `row`: unchanged where the
/// constraint forbids it, else with `row` at the end.
pub open spec fn inserted(rows: Seq<Record>, row: Record) -> Seq<Record> {
    if blocked(rows, row.key) {
        rows
    } else {
        rows.push(row)
    }
}

/// How many rows agree with `key` in the columns of the constraint.
pub open spec fn count_constraint(rows: Seq<Record>, key: Key) -> nat
    decreases rows.len(),
{
    if rows.len() == 0 {
        0
    } else {
        count_constraint(rows.drop_last(), key) + if rows.last().key.constraint()
            == key.constraint() {
            1nat
        } else {
            0nat
        }
    }
}

/// The payload of the row that answers a lookup for `key`.
pub open spec fn payload_of(rows: Seq<Record>, key: Key) -> Option<Seq<u8>>
    recommends
        found(rows, key),
{
    let i = choose|i: int| 0 <= i < rows.len() && (#[trigger] rows[i]).key == key;
    rows[i].payload
}

/// Insert-or-ignore keeps the unique constraint.
pub proof fn lemma_inserted_unique(rows: Seq<Record>, row: Record)
    requires
        unique(rows),
    ensures
        unique(inserted(rows, row)),
{
}

/// In a table that keeps its constraint, one row at most answers a lookup.
pub proof fn lemma_found_once(rows: Seq<Record>, key: Key, i: int, j: int)
    requires
        unique(rows),
        0 <= i < rows.len(),
        0 <= j < rows.len(),
        rows[i].key == key,
        rows[j].key == key,
    ensures
        i == j,
{
    if i < j {
        assert(rows[i].key.constraint() != rows[j].key.constraint());
    } else if j < i {
        assert(rows[j].key.constraint() != rows[i].key.constraint());
    }
}

/// The number of rows that agree with a key in the columns of the constraint
/// is one where the constraint forbids the key and zero where it does not.
pub proof fn lemma_count_constraint(rows: Seq<Record>, key: Key)
    requires
        unique(rows),
    ensures
        count_constraint(rows, key) == if blocked(rows, key) {
            1nat
        } else {
            0nat
        },
    decreases rows.len(),
{
    if rows.len() > 0 {
        let front = rows.drop_last();
        assert(unique(front)) by {
            assert forall|i: int, j: int| 0 <= i < j < front.len() implies (#[trigger] front[i]).key.constraint()
                != (#[trigger] front[j]).key.constraint() by {
                assert(front[i] == rows[i]);
                assert(front[j] == rows[j]);
            }
        }
        lemma_count_constraint(front, key);
        if blocked(front, key) {
            let i = choose|i: int|
                0 <= i < front.len() && (#[trigger] front[i]).key.constraint() == key.constraint();
            assert(front[i] == rows[i]);
            assert(rows[i].key.constraint() != rows[rows.len() - 1].key.constraint());
            assert(blocked(rows, key));
        } else if rows.last().key.constraint() == key.constraint() {
            assert(rows[rows.len() - 1].key.constraint() == key.constraint());
            assert(blocked(rows, key));
        } else {
            if blocked(rows, key) {
                let i = choose|i: int|
                    0 <= i < rows.len() && (#[trigger] rows[i]).key.constraint()
                        == key.constraint();
                assert(i < rows.len() - 1);
                assert(front[i] == rows[i]);
                assert(false);
            }
        }
    }
}

/// Recording a row twice leaves what recording it once
/// leaves, with exactly one row under its constraint.
pub proof fn lemma_insert_or_ignore(rows: Seq<Record>, row: Record, again: Record)
    requires
        unique(rows),
        again.key == row.key,
    ensures
        inserted(inserted(rows, row), again) == inserted(rows, row),
        count_constraint(inserted(rows, row), row.key) == 1,
{
    let once = inserted(rows, row);
    if !blocked(rows, row.key) {
        assert(once[rows.len() as int].key.constraint() == row.key.constraint());
    }
    assert(blocked(once, row.key));
    lemma_count_constraint(once, row.key);
}

/// A table never loses a row: what a lookup found before an insert-or-ignore
/// it finds after it, with the same payload.
pub proof fn lemma_inserted_keeps(rows: Seq<Record>, row: Record, key: Key)
    requires
        unique(rows),
        found(rows, key),
    ensures
        found(inserted(rows, row), key),
        payload_of(inserted(rows, row), key) == payload_of(rows, key),
{
    let after = inserted(rows, row);
    let i = choose|i: int| 0 <= i < rows.len() && (#[trigger] rows[i]).key == key;
    assert(after[i] == rows[i]);
    let j = choose|j: int| 0 <= j < after.len() && (#[trigger] after[j]).key == key;
    lemma_inserted_unique(rows, row);
    lemma_found_once(after, key, i, j);
}

/// An insert-or-ignore changes the answer of no lookup
/// whose key differs from the row's in any column.
pub proof fn lemma_inserted_other_key(rows: Seq<Record>, row: Record, key: Key)
    requires
        key != row.key,
    ensures
        found(inserted(rows, row), key) == found(rows, key),
{
    let after = inserted(rows, row);
    if found(rows, key) {
        let i = choose|i: int| 0 <= i < rows.len() && (#[trigger] rows[i]).key == key;
        assert(after[i] == rows[i]);
    }
    if found(after, key) {
        let i = choose|i: int| 0 <= i < after.len() && (#[trigger] after[i]).key == key;
        if i < rows.len() {
            assert(after[i] == rows[i]);
        }
        assert(found(rows, key));
    }
}

/// A recorded row is found again with its payload, unless a row that agrees
/// with it in the columns of the constraint was there before it.
pub proof fn lemma_inserted_found(rows: Seq<Record>, row: Record)
    requires
        unique(rows),
        !blocked(rows, row.key),
    ensures
        found(inserted(rows, row), row.key),
        payload_of(inserted(rows, row), row.key) == row.payload,
{
    let after = inserted(rows, row);
    let n = rows.len() as int;
    assert(after[n].key == row.key);
    let j = choose|j: int| 0 <= j < after.len() && (#[trigger] after[j]).key == row.key;
    lemma_inserted_unique(rows, row);
    lemma_found_once(after, row.key, n, j);
}

/// Recording a key that a lookup finds changes nothing.
pub proof fn lemma_found_blocks(rows: Seq<Record>, row: Record)
    requires
        found(rows, row.key),
    ensures
        inserted(rows, row) == rows,
{
    let i = choose|i: int| 0 <= i < rows.len() && (#[trigger] rows[i]).key == row.key;
    assert(rows[i].key.constraint() == row.key.constraint());
}

/// The columns of a key as the store holds them, in the order of the table:
/// the version, then each hash that the table has, as decimal text.
pub open spec fn columns_of(key: Key) -> Seq<Seq<char>> {
    seq![key.version] + (match key.config_hash {
        Some(hash) => seq![decimal_digits(hash as nat)],
        None => Seq::empty(),
    }) + (match key.extensions_hash {
        Some(hash) => seq![decimal_digits(hash as nat)],
        None => Seq::empty(),
    }) + seq![decimal_digits(key.source_hash as nat)]
}

/// The text columns tell the keys of one table apart: two keys with the
/// same hash columns present and the same text in every column are the same
/// key.
pub proof fn lemma_columns_injective(a: Key, b: Key)
    requires
        a.config_hash is Some <==> b.config_hash is Some,
        a.extensions_hash is Some <==> b.extensions_hash is Some,
        columns_of(a) == columns_of(b),
    ensures
        a == b,
{
    let ca = columns_of(a);
    let cb = columns_of(b);
    assert(ca[0] == a.version);
    assert(cb[0] == b.version);
    let n = ca.len() as int;
    assert(ca[n - 1] == decimal_digits(a.source_hash as nat));
    assert(cb[n - 1] == decimal_digits(b.source_hash as nat));
    lemma_decimal_digits_injective(a.source_hash as nat, b.source_hash as nat);
    if a.config_hash is Some {
        assert(ca[1] == decimal_digits(a.config_hash->0 as nat));
        assert(cb[1] == decimal_digits(b.config_hash->0 as nat));
        lemma_decimal_digits_injective(a.config_hash->0 as nat, b.config_hash->0 as nat);
        if a.extensions_hash is Some {
            assert(ca[2] == decimal_digits(a.extensions_hash->0 as nat));
            assert(cb[2] == decimal_digits(b.extensions_hash->0 as nat));
            lemma_decimal_digits_injective(
                a.extensions_hash->0 as nat,
                b.extensions_hash->0 as nat,
            );
        }
    } else if a.extensions_hash is Some {
        assert(ca[1] == decimal_digits(a.extensions_hash->0 as nat));
        assert(cb[1] == decimal_digits(b.extensions_hash->0 as nat));
        lemma_decimal_digits_injective(a.extensions_hash->0 as nat, b.extensions_hash->0 as nat);
    }
}

/// A row of a tool table.
pub struct Row {
    pub version: String,
    pub config_hash: Option<u64>,
    pub extensions_hash: Option<u64>,
    pub source_hash: u64,
    pub payload: Option<Vec<u8>>,
}

impl View for Row {
    type V = Record;

    open spec fn view(&self) -> Record {
        Record {
            key: Key {
                version: self.version@,
                config_hash: self.config_hash,
                extensions_hash: self.extensions_hash,
                source_hash: self.source_hash,
            },
            payload: match self.payload {
                Some(bytes) => Some(bytes@),
                None => None,
            },
        }
    }
}

fn same_hash(a: &Option<u64>, b: &Option<u64>) -> (same: bool)
    ensures
        same == (*a == *b),
{
    match (a, b) {
        (Some(x), Some(y)) => *x == *y,
        (None, None) => true,
        _ => false,
    }
}

impl Row {
    /// The columns of the row's key as the store holds them: the version,
    /// then each hash that the row has, as decimal text.
    pub fn columns(&self) -> (columns: Vec<String>)
        ensures
            columns.deep_view() == columns_of(self@.key),
    {
        let mut columns: Vec<String> = Vec::new();
        columns.push(String::from_str(self.version.as_str()));
        match self.config_hash {
            Some(hash) => {
                columns.push(decimal_text(hash));
            },
            None => {},
        }
        match self.extensions_hash {
            Some(hash) => {
                columns.push(decimal_text(hash));
            },
            None => {},
        }
        columns.push(decimal_text(self.source_hash));
        assert(columns.deep_view() =~= columns_of(self@.key));
        columns
    }

    /// Whether a lookup for `probe` finds this row.
    pub fn same_key(&self, probe: &Row) -> (same: bool)
        ensures
            same == (self@.key == probe@.key),
    {
        self.same_constraint(probe) && same_hash(&self.extensions_hash, &probe.extensions_hash)
    }

    /// Whether the unique constraint forbids this row beside `other`.
    pub fn same_constraint(&self, other: &Row) -> (same: bool)
        ensures
            same == (self@.key.constraint() == other@.key.constraint()),
    {
        self.version == other.version && same_hash(&self.config_hash, &other.config_hash)
            && self.source_hash == other.source_hash
    }
}

impl ToolKind {
    /// Whether a row has the columns of this kind's table.
    pub fn accepts(self, row: &Row) -> (fits: bool)
        ensures
            fits == self.fits(row@),
    {
        match self {
            ToolKind::Fourmolu => row.config_hash.is_some() && row.extensions_hash.is_some()
                && row.payload.is_none(),
            ToolKind::Nixfmt => row.config_hash.is_none() && row.extensions_hash.is_none()
                && row.payload.is_none(),
            ToolKind::Hlint => row.config_hash.is_some() && row.extensions_hash.is_none()
                && row.payload.is_some(),
        }
    }
}

/// The records of a sequence of rows.
pub open spec fn records(rows: Seq<Row>) -> Seq<Record> {
    rows.map_values(|row: Row| row@)
}

/// One append-only table with its unique constraint.
pub struct Table {
    kind: ToolKind,
    rows: Vec<Row>,
}

impl View for Table {
    type V = Seq<Record>;

    closed spec fn view(&self) -> Seq<Record> {
        records(self.rows@)
    }
}

impl Table {
    #[verifier::type_invariant]
    spec fn inv(&self) -> bool {
        &&& unique(records(self.rows@))
        &&& forall|i: int| 0 <= i < self.rows@.len() ==> self.kind.fits((#[trigger] self.rows@[i])@)
    }

    /// The tool kind whose rows the table holds.
    pub closed spec fn kind(&self) -> ToolKind {
        self.kind
    }

    /// A table without rows.
    pub fn new(kind: ToolKind) -> (table: Self)
        ensures
            table@ == Seq::<Record>::empty(),
            table.kind() == kind,
    {
        let table = Table { kind, rows: Vec::new() };
        assert(table@ =~= Seq::<Record>::empty());
        table
    }

    /// How many rows the table has.
    pub fn len(&self) -> (n: usize)
        ensures
            n == self@.len(),
    {
        self.rows.len()
    }

    /// Every table keeps its constraint. Does nothing at run time.
    pub fn constraint_holds(&self)
        ensures
            unique(self@),
    {
        proof {
            use_type_invariant(self);
        }
    }

    /// The row that answers a lookup for the key of `probe`.
    pub fn find(&self, probe: &Row) -> (hit: Option<&Row>)
        ensures
            unique(self@),
            hit is Some <==> found(self@, probe@.key),
            hit matches Some(row) ==> row@.key == probe@.key && row@.payload == payload_of(
                self@,
                probe@.key,
            ) && self.kind().fits(row@),
    {
        proof {
            use_type_invariant(self);
        }
        let mut i: usize = 0;
        while i < self.rows.len()
            invariant
                i <= self.rows@.len(),
                unique(records(self.rows@)),
                forall|k: int|
                    0 <= k < self.rows@.len() ==> self.kind.fits((#[trigger] self.rows@[k])@),
                forall|k: int| 0 <= k < i ==> (#[trigger] records(self.rows@)[k]).key != probe@.key,
            decreases self.rows@.len() - i,
        {
            if self.rows[i].same_key(probe) {
                proof {
                    let rows = records(self.rows@);
                    assert(rows[i as int].key == probe@.key);
                    let j = choose|j: int|
                        0 <= j < rows.len() && (#[trigger] rows[j]).key == probe@.key;
                    lemma_found_once(rows, probe@.key, i as int, j);
                }
                return Some(&self.rows[i]);
            }
            i += 1;
        }
        None
    }

    /// Insert-or-ignore: the row is added unless the unique constraint
    /// forbids it. Says whether it was added; a row without the table's
    /// columns is refused.
    pub fn insert_or_ignore(&mut self, row: Row) -> (result: Result<bool, StoreError>)
        ensures
            old(self).kind().fits(row@) <==> result is Ok,
            result matches Ok(added) ==> final(self)@ == inserted(old(self)@, row@) && added
                == !blocked(old(self)@, row@.key),
            result is Err ==> final(self)@ == old(self)@,
            final(self).kind() == old(self).kind(),
            unique(old(self)@),
            unique(final(self)@),
    {
        proof {
            use_type_invariant(&*self);
        }
        if self.kind.accepts(&row) {
            Ok(self.insert(row))
        } else {
            Err(StoreError::SchemaMismatch)
        }
    }

    fn insert(&mut self, row: Row) -> (added: bool)
        requires
            old(self).kind().fits(row@),
        ensures
            final(self)@ == inserted(old(self)@, row@),
            final(self).kind() == old(self).kind(),
            added == !blocked(old(self)@, row@.key),
            unique(old(self)@),
            unique(final(self)@),
    {
        proof {
            use_type_invariant(&*self);
        }
        let mut i: usize = 0;
        while i < self.rows.len()
            invariant
                i <= self.rows@.len(),
                self.rows@ == old(self).rows@,
                self.kind == old(self).kind,
                unique(records(self.rows@)),
                forall|k: int|
                    0 <= k < self.rows@.len() ==> self.kind.fits((#[trigger] self.rows@[k])@),
                forall|k: int|
                    0 <= k < i ==> (#[trigger] records(self.rows@)[k]).key.constraint()
                        != row@.key.constraint(),
            decreases self.rows@.len() - i,
        {
            if self.rows[i].same_constraint(&row) {
                assert(records(self.rows@)[i as int].key.constraint() == row@.key.constraint());
                return false;
            }
            i += 1;
        }
        let ghost before = self.rows@;
        let mut rows: Vec<Row> = Vec::new();
        std::mem::swap(&mut self.rows, &mut rows);
        rows.push(row);
        assert(records(rows@) =~= records(before).push(row@));
        assert forall|k: int| 0 <= k < rows@.len() implies self.kind.fits((#[trigger] rows@[k])@) by {
            if k < before.len() {
                assert(rows@[k] == before[k]);
            }
        }
        std::mem::swap(&mut self.rows, &mut rows);
        true
    }
}

/// The whole store: the identity table and one table per tool kind.
pub struct Store {
    identity: Vec<String>,
    fourmolu: Table,
    nixfmt: Table,
    hlint: Table,
}

/// What a store holds.
pub struct StoreView {
    /// The rows of the identity table, as text. A store in use has exactly
    /// one: the identity of the build that owns the tables.
    pub identity: Seq<Seq<char>>,
    pub fourmolu: Seq<Record>,
    pub nixfmt: Seq<Record>,
    pub hlint: Seq<Record>,
}

impl StoreView {
    /// The store belongs to the build with this identity: the identity table
    /// has one row, and it is that identity.
    pub open spec fn valid_for(self, id: Seq<char>) -> bool {
        self.identity == seq![id]
    }

    /// The store that a reset leaves: the tables of the build `id`, and no
    /// row in any of them.
    pub open spec fn fresh(id: Seq<char>) -> StoreView {
        StoreView {
            identity: seq![id],
            fourmolu: Seq::empty(),
            nixfmt: Seq::empty(),
            hlint: Seq::empty(),
        }
    }

    /// The store that opening under the identity `id` leaves.
    pub open spec fn opened(self, id: Seq<char>) -> StoreView {
        if self.valid_for(id) {
            self
        } else {
            StoreView::fresh(id)
        }
    }

    /// The rows of one tool kind.
    pub open spec fn table(self, kind: ToolKind) -> Seq<Record> {
        match kind {
            ToolKind::Fourmolu => self.fourmolu,
            ToolKind::Nixfmt => self.nixfmt,
            ToolKind::Hlint => self.hlint,
        }
    }

    /// The store with the rows of one tool kind replaced.
    pub open spec fn with_table(self, kind: ToolKind, rows: Seq<Record>) -> StoreView {
        match kind {
            ToolKind::Fourmolu => StoreView { fourmolu: rows, ..self },
            ToolKind::Nixfmt => StoreView { nixfmt: rows, ..self },
            ToolKind::Hlint => StoreView { hlint: rows, ..self },
        }
    }

    /// The store after an insert-or-ignore of `row` into the table of `kind`.
    pub open spec fn recorded(self, kind: ToolKind, row: Record) -> StoreView {
        self.with_table(kind, inserted(self.table(kind), row))
    }
}

/// Opening a store under the identity of another build
/// leaves one identity row, the new one, and every tool table without rows;
/// opening it under its own identity leaves it as it is.
pub proof fn lemma_open(store: StoreView, id: Seq<char>)
    ensures
        store.opened(id).identity.len() == 1,
        store.opened(id).identity[0] == id,
        store.valid_for(id) ==> store.opened(id) == store,
        !store.valid_for(id) ==> forall|kind: ToolKind| #[trigger]
            store.opened(id).table(kind) == Seq::<Record>::empty(),
{
}

impl View for Store {
    type V = StoreView;

    closed spec fn view(&self) -> StoreView {
        StoreView {
            identity: self.identity.deep_view(),
            fourmolu: self.fourmolu@,
            nixfmt: self.nixfmt@,
            hlint: self.hlint@,
        }
    }
}

impl Store {
    #[verifier::type_invariant]
    spec fn inv(&self) -> bool {
        &&& self.fourmolu.kind() == ToolKind::Fourmolu
        &&& self.nixfmt.kind() == ToolKind::Nixfmt
        &&& self.hlint.kind() == ToolKind::Hlint
    }

    /// A store as a new file holds it: no identity and no rows.
    pub fn new() -> (store: Self)
        ensures
            store@ == (StoreView {
                identity: Seq::empty(),
                fourmolu: Seq::empty(),
                nixfmt: Seq::empty(),
                hlint: Seq::empty(),
            }),
    {
        let store = Store {
            identity: Vec::new(),
            fourmolu: Table::new(ToolKind::Fourmolu),
            nixfmt: Table::new(ToolKind::Nixfmt),
            hlint: Table::new(ToolKind::Hlint),
        };
        assert(store.identity.deep_view() =~= Seq::<Seq<char>>::empty());
        store
    }

    /// Adds a row to the identity table, as a store read from disk has it.
    pub fn push_identity(&mut self, id: String)
        ensures
            final(self)@ == (StoreView { identity: old(self)@.identity.push(id@), ..old(self)@ }),
    {
        proof {
            use_type_invariant(&*self);
        }
        let mut identity: Vec<String> = Vec::new();
        std::mem::swap(&mut self.identity, &mut identity);
        let ghost before = identity.deep_view();
        identity.push(id);
        assert(identity.deep_view() =~= before.push(id@));
        std::mem::swap(&mut self.identity, &mut identity);
    }

    /// The rows of the identity table.
    pub fn identity(&self) -> (rows: &Vec<String>)
        ensures
            rows.deep_view() == self@.identity,
    {
        &self.identity
    }

    /// How many rows the table of `kind` has.
    pub fn len(&self, kind: ToolKind) -> (n: usize)
        ensures
            n == self@.table(kind).len(),
    {
        match kind {
            ToolKind::Fourmolu => self.fourmolu.len(),
            ToolKind::Nixfmt => self.nixfmt.len(),
            ToolKind::Hlint => self.hlint.len(),
        }
    }

    /// Every table of every store keeps its constraint. Does nothing at run
    /// time.
    pub fn constraints_hold(&self)
        ensures
            unique(self@.fourmolu),
            unique(self@.nixfmt),
            unique(self@.hlint),
    {
        self.fourmolu.constraint_holds();
        self.nixfmt.constraint_holds();
        self.hlint.constraint_holds();
    }

    /// Whether the store belongs to the build with this identity.
    pub fn is_valid(&self, id: &str) -> (valid: bool)
        ensures
            valid == self@.valid_for(id@),
    {
        if self.identity.len() == 1 {
            let same = str_eq(self.identity[0].as_str(), id);
            assert(self.identity.deep_view()[0] == self.identity@[0]@);
            assert(same ==> self.identity.deep_view() =~= seq![id@]);
            assert(seq![id@][0] == id@);
            same
        } else {
            assert(seq![id@].len() == 1);
            false
        }
    }

    /// Drops every table and makes them anew, with `id` as the only row of
    /// the identity table.
    pub fn reset(&mut self, id: &str)
        ensures
            final(self)@ == StoreView::fresh(id@),
    {
        let mut identity: Vec<String> = Vec::new();
        identity.push(String::from_str(id));
        assert(identity.deep_view() =~= seq![id@]);
        *self = Store {
            identity,
            fourmolu: Table::new(ToolKind::Fourmolu),
            nixfmt: Table::new(ToolKind::Nixfmt),
            hlint: Table::new(ToolKind::Hlint),
        };
    }

    /// Opens a store for the build `binary_id`: a store of that build is
    /// used as it is, any other is reset, whole.
    pub fn open(self, binary_id: u64) -> (store: Self)
        ensures
            store@ == self@.opened(decimal_digits(binary_id as nat)),
    {
        let id = decimal_text(binary_id);
        let mut store = self;
        if !store.is_valid(id.as_str()) {
            store.reset(id.as_str());
        }
        store
    }

    /// The row of the table of `kind` that answers a lookup for the key of
    /// `probe`.
    pub fn lookup(&self, kind: ToolKind, probe: &Row) -> (hit: Option<&Row>)
        ensures
            unique(self@.table(kind)),
            hit is Some <==> found(self@.table(kind), probe@.key),
            hit matches Some(row) ==> row@.key == probe@.key && row@.payload == payload_of(
                self@.table(kind),
                probe@.key,
            ) && kind.fits(row@),
    {
        proof {
            use_type_invariant(self);
        }
        match kind {
            ToolKind::Fourmolu => self.fourmolu.find(probe),
            ToolKind::Nixfmt => self.nixfmt.find(probe),
            ToolKind::Hlint => self.hlint.find(probe),
        }
    }

    /// Insert-or-ignore into the table of `kind`. Says whether the row was
    /// added; a row without the table's columns is refused.
    pub fn record(&mut self, kind: ToolKind, row: Row) -> (result: Result<bool, StoreError>)
        ensures
            kind.fits(row@) <==> result is Ok,
            result matches Ok(added) ==> final(self)@ == old(self)@.recorded(kind, row@) && added
                == !blocked(old(self)@.table(kind), row@.key),
            result is Err ==> final(self)@ == old(self)@,
            unique(old(self)@.table(kind)),
            unique(final(self)@.table(kind)),
    {
        if !kind.accepts(&row) {
            self.constraints_hold();
            return Err(StoreError::SchemaMismatch);
        }
        Ok(self.insert(kind, row))
    }

    fn insert(&mut self, kind: ToolKind, row: Row) -> (added: bool)
        requires
            kind.fits(row@),
        ensures
            final(self)@ == old(self)@.recorded(kind, row@),
            added == !blocked(old(self)@.table(kind), row@.key),
            unique(old(self)@.table(kind)),
            unique(final(self)@.table(kind)),
    {
        proof {
            use_type_invariant(&*self);
        }
        let mut table = Table::new(kind);
        match kind {
            ToolKind::Fourmolu => {
                std::mem::swap(&mut self.fourmolu, &mut table);
                let added = table.insert(row);
                std::mem::swap(&mut self.fourmolu, &mut table);
                added
            },
            ToolKind::Nixfmt => {
                std::mem::swap(&mut self.nixfmt, &mut table);
                let added = table.insert(row);
                std::mem::swap(&mut self.nixfmt, &mut table);
                added
            },
            ToolKind::Hlint => {
                std::mem::swap(&mut self.hlint, &mut table);
                let added = table.insert(row);
                std::mem::swap(&mut self.hlint, &mut table);
                added
            },
        }
    }
}

} // verus!
