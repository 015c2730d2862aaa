//! The storage capability: create, read, update and delete of text records
//! keyed by an identifier, with the outcome of each operation stated over
//! the store's contents, an in-memory backend that meets it exactly, and the
//! decisions that the SQL backends take on what their statements return.

use crate::database::{
    convert_binary_to_embeddings, convert_embeddings_to_binary, decoding, encoding, lemma_round_trip,
    CodecError,
};
use vstd::prelude::*;

verus! {

/// The four operations of the storage capability.
#[derive(Debug, Clone, Copy, PartialEq, Eq, Structural)]
pub enum DatabaseOperation {
    Create,
    Read,
    Update,
    Delete,
}

/// Why a storage operation failed.
#[derive(Debug, Clone, Copy, PartialEq, Eq, Structural)]
pub enum StorageError {
    /// No record has the identifier.
    NotFound,
    /// A record with the identifier already exists.
    DuplicateKey,
    /// The backend could not be reached.
    ConnectionFailure,
    /// A stored embedding is not a whole number of elements.
    Codec(CodecError),
}

/// The contents of a store: each identifier's data.
pub type Contents = Map<Seq<char>, Seq<char>>;

/// `create` adds a record for a new identifier and refuses an existing one.
pub open spec fn create_outcome(m: Contents, id: Seq<char>, data: Seq<char>) -> (
    Contents,
    Result<(), StorageError>,
) {
    if m.contains_key(id) {
        (m, Err(StorageError::DuplicateKey))
    } else {
        (m.insert(id, data), Ok(()))
    }
}

/// `read` gives the data of an existing identifier.
pub open spec fn read_outcome(m: Contents, id: Seq<char>) -> Result<Seq<char>, StorageError> {
    if m.contains_key(id) {
        Ok(m[id])
    } else {
        Err(StorageError::NotFound)
    }
}

/// `update` replaces the data of an existing identifier; it never creates.
pub open spec fn update_outcome(m: Contents, id: Seq<char>, data: Seq<char>) -> (
    Contents,
    Result<(), StorageError>,
) {
    if m.contains_key(id) {
        (m.insert(id, data), Ok(()))
    } else {
        (m, Err(StorageError::NotFound))
    }
}

/// `delete` removes an existing identifier.
pub open spec fn delete_outcome(m: Contents, id: Seq<char>) -> (Contents, Result<(), StorageError>) {
    if m.contains_key(id) {
        (m.remove(id), Ok(()))
    } else {
        (m, Err(StorageError::NotFound))
    }
}

/// A read result as text.
pub open spec fn read_view(r: Result<String, StorageError>) -> Result<Seq<char>, StorageError> {
    match r {
        Ok(d) => Ok(d@),
        Err(e) => Err(e),
    }
}

/// After `create(id, x)` on a store without `id`, reading `id` gives `x`;
/// after `update(id, y)`, it gives `y`; after `delete(id)`, it fails with
/// `NotFound`.
pub proof fn lemma_create_update_delete(m: Contents, id: Seq<char>, x: Seq<char>, y: Seq<char>)
    requires
        !m.contains_key(id),
    ensures
        create_outcome(m, id, x).1 == Ok::<(), StorageError>(()),
        read_outcome(create_outcome(m, id, x).0, id) == Ok::<Seq<char>, StorageError>(x),
        update_outcome(create_outcome(m, id, x).0, id, y).1 == Ok::<(), StorageError>(()),
        read_outcome(update_outcome(create_outcome(m, id, x).0, id, y).0, id) == Ok::<
            Seq<char>,
            StorageError,
        >(y),
        delete_outcome(update_outcome(create_outcome(m, id, x).0, id, y).0, id).1 == Ok::<
            (),
            StorageError,
        >(()),
        read_outcome(delete_outcome(update_outcome(create_outcome(m, id, x).0, id, y).0, id).0, id)
            == Err::<Seq<char>, StorageError>(StorageError::NotFound),
{
}

/// The operation had the effect `expected` gives, or the backend could not
/// be reached and the contents are as they were.
pub open spec fn done_or_unreachable(
    before: Contents,
    after: Contents,
    r: Result<(), StorageError>,
    expected: (Contents, Result<(), StorageError>),
) -> bool {
    (after, r) == expected || (r == Err::<(), StorageError>(StorageError::ConnectionFailure)
        && after == before)
}

/// A store of text records keyed by identifier. Every backend either does
/// what the outcome functions say, or fails with `ConnectionFailure` and
/// leaves the contents as they were.
pub trait Observer {
    /// The records held, as identifier to data.
    spec fn contents(&self) -> Contents;

    fn create(&mut self, id: &str, data: &str) -> (r: Result<(), StorageError>)
        ensures
            done_or_unreachable(old(self).contents(), final(self).contents(), r, create_outcome(old(self).contents(), id@, data@)),
    ;

    fn read(&self, id: &str) -> (r: Result<String, StorageError>)
        ensures
            read_view(r) == read_outcome(self.contents(), id@) || r == Err::<String, StorageError>(StorageError::ConnectionFailure),
    ;

    fn update(&mut self, id: &str, data: &str) -> (r: Result<(), StorageError>)
        ensures
            done_or_unreachable(old(self).contents(), final(self).contents(), r, update_outcome(old(self).contents(), id@, data@)),
    ;

    fn delete(&mut self, id: &str) -> (r: Result<(), StorageError>)
        ensures
            done_or_unreachable(old(self).contents(), final(self).contents(), r, delete_outcome(old(self).contents(), id@)),
    ;
}

/// One record: its identifier, its data, and the little-endian bytes of its
/// embedding if one is bound to it.
#[derive(Debug, Clone)]
pub struct StoredItem {
    pub id: String,
    pub data: String,
    pub embedding: Option<Vec<u8>>,
}

/// Embeddings bound to identifiers, as their bytes.
pub type Bound = Map<Seq<char>, Seq<u8>>;

/// Identifiers are unique, and `m` maps each record's identifier to its
/// data and holds nothing else.
pub open spec fn mirrors(items: Seq<StoredItem>, m: Contents) -> bool {
    &&& forall|i: int, j: int|
        0 <= i < j < items.len() ==> #[trigger] items[i].id@ != #[trigger] items[j].id@
    &&& forall|i: int|
        0 <= i < items.len() ==> #[trigger] m.contains_key(items[i].id@) && m[items[i].id@]
            == items[i].data@
    &&& forall|k: Seq<char>| #[trigger]
        m.contains_key(k) ==> exists|i: int| 0 <= i < items.len() && items[i].id@ == k
}

/// `e` maps the identifier of each record that has an embedding to its
/// bytes, and holds only identifiers of `m`.
pub open spec fn binds(items: Seq<StoredItem>, m: Contents, e: Bound) -> bool {
    &&& forall|i: int|
        0 <= i < items.len() ==> match #[trigger] items[i].embedding {
            Some(b) => e.contains_key(items[i].id@) && e[items[i].id@] == b@,
            None => !e.contains_key(items[i].id@),
        }
    &&& forall|k: Seq<char>| #[trigger] e.contains_key(k) ==> m.contains_key(k)
}

/// Reading the embedding of `id`: absent records are not found, a record
/// without an embedding has none, and bound bytes are decoded.
pub open spec fn embedding_outcome(m: Contents, e: Bound, id: Seq<char>) -> Result<
    Option<Seq<u32>>,
    StorageError,
> {
    if !m.contains_key(id) {
        Err(StorageError::NotFound)
    } else if !e.contains_key(id) {
        Ok(None)
    } else if e[id].len() % 4 != 0 {
        Err(StorageError::Codec(CodecError::TruncatedInput))
    } else {
        Ok(Some(decoding(e[id])))
    }
}

/// After binding the encoding of `v` to an existing record, reading that
/// record's embedding gives back `v`.
pub proof fn lemma_embedding_round_trip(m: Contents, e: Bound, id: Seq<char>, v: Seq<u32>)
    requires
        m.contains_key(id),
    ensures
        embedding_outcome(m, e.insert(id, encoding(v)), id) == Ok::<
            Option<Seq<u32>>,
            StorageError,
        >(Some(v)),
{
    assert(encoding(v).len() % 4 == 0) by {
        assert(encoding(v).len() == 4 * v.len());
    }
    lemma_round_trip(v);
}

/// An embedding read as values.
pub open spec fn embedding_view(r: Result<Option<Vec<u32>>, StorageError>) -> Result<
    Option<Seq<u32>>,
    StorageError,
> {
    match r {
        Ok(Some(v)) => Ok(Some(v@)),
        Ok(None) => Ok(None),
        Err(e) => Err(e),
    }
}

proof fn lemma_absent(items: Seq<StoredItem>, m: Contents, e: Bound, id: Seq<char>)
    requires
        mirrors(items, m),
        binds(items, m, e),
        forall|i: int| 0 <= i < items.len() ==> items[i].id@ != id,
    ensures
        !m.contains_key(id),
        !e.contains_key(id),
{
    if m.contains_key(id) {
        let i = choose|i: int| 0 <= i < items.len() && items[i].id@ == id;
    }
}

/// A store held in memory; `create` refuses an identifier that exists.
pub struct MemoryDB {
    items: Vec<StoredItem>,
    held: Ghost<Contents>,
    bound: Ghost<Bound>,
}

impl MemoryDB {
    #[verifier::type_invariant]
    spec fn consistent(self) -> bool {
        mirrors(self.items@, self.held@) && binds(self.items@, self.held@, self.bound@)
    }

    /// The records held, as identifier to data.
    pub closed spec fn view(&self) -> Contents {
        self.held@
    }

    /// The embeddings bound to records, as identifier to bytes.
    pub closed spec fn embeddings(&self) -> Bound {
        self.bound@
    }

    /// An empty store.
    pub fn new() -> (r: MemoryDB)
        ensures
            r@ == Map::<Seq<char>, Seq<char>>::empty(),
            r.embeddings() == Map::<Seq<char>, Seq<u8>>::empty(),
    {
        MemoryDB { items: Vec::new(), held: Ghost(Map::empty()), bound: Ghost(Map::empty()) }
    }

    fn position(&self, key: &String) -> (r: Option<usize>)
        ensures
            match r {
                Some(i) => i < self.items@.len() && self.items@[i as int].id@ == key@,
                None => forall|i: int| 0 <= i < self.items@.len() ==> self.items@[i].id@ != key@,
            },
    {
        let mut i: usize = 0;
        while i < self.items.len()
            invariant
                i <= self.items@.len(),
                forall|j: int| 0 <= j < i ==> self.items@[j].id@ != key@,
            decreases self.items@.len() - i,
        {
            if self.items[i].id == *key {
                return Some(i);
            }
            i = i + 1;
        }
        None
    }

    /// Takes the records out, leaving the store empty.
    fn take(&mut self) -> (r: (Vec<StoredItem>, Ghost<Contents>, Ghost<Bound>))
        ensures
            r.0 == old(self).items,
            r.1@ == old(self)@,
            r.2@ == old(self).embeddings(),
            mirrors(r.0@, r.1@) && binds(r.0@, r.1@, r.2@),
    {
        proof {
            use_type_invariant(&*self);
        }
        let mut db = MemoryDB::new();
        std::mem::swap(self, &mut db);
        proof {
            use_type_invariant(&db);
        }
        let MemoryDB { items, held, bound } = db;
        (items, held, bound)
    }

    /// Adds a record for `id`, with no embedding; fails with `DuplicateKey`
    /// if `id` exists.
    pub fn create(&mut self, id: &str, data: &str) -> (r: Result<(), StorageError>)
        ensures
            (final(self)@, r) == create_outcome(old(self)@, id@, data@),
            final(self).embeddings() == old(self).embeddings(),
    {
        proof {
            use_type_invariant(&*self);
        }
        let key = String::from_str(id);
        if self.position(&key).is_some() {
            return Err(StorageError::DuplicateKey);
        }
        proof {
            lemma_absent(self.items@, self.held@, self.bound@, id@);
        }
        let (mut items, held, bound) = self.take();
        let ghost before = items@;
        let ghost m = held@.insert(id@, data@);
        items.push(StoredItem { id: key, data: String::from_str(data), embedding: None });
        assert(mirrors(items@, m)) by {
            assert forall|k: Seq<char>| #[trigger] m.contains_key(k) implies exists|i: int|
                0 <= i < items@.len() && items@[i].id@ == k by {
                if k == id@ {
                    assert(items@[before.len() as int].id@ == k);
                } else {
                    let i = choose|i: int| 0 <= i < before.len() && before[i].id@ == k;
                    assert(items@[i].id@ == k);
                }
            }
        }
        assert(binds(items@, m, bound@)) by {
            assert forall|i: int| 0 <= i < items@.len() implies match #[trigger] items@[i].embedding {
                Some(b) => bound@.contains_key(items@[i].id@) && bound@[items@[i].id@] == b@,
                None => !bound@.contains_key(items@[i].id@),
            } by {
                if i < before.len() {
                    assert(items@[i] == before[i]);
                }
            }
        }
        *self = MemoryDB { items, held: Ghost(m), bound };
        Ok(())
    }

    /// The data of `id`; fails with `NotFound` if `id` is absent.
    pub fn read(&self, id: &str) -> (r: Result<String, StorageError>)
        ensures
            read_view(r) == read_outcome(self@, id@),
    {
        proof {
            use_type_invariant(self);
        }
        let key = String::from_str(id);
        match self.position(&key) {
            Some(i) => Ok(self.items[i].data.clone()),
            None => {
                proof {
                    lemma_absent(self.items@, self.held@, self.bound@, id@);
                }
                Err(StorageError::NotFound)
            },
        }
    }

    /// Replaces the data of `id`, keeping its embedding; fails with
    /// `NotFound` if `id` is absent.
    pub fn update(&mut self, id: &str, data: &str) -> (r: Result<(), StorageError>)
        ensures
            (final(self)@, r) == update_outcome(old(self)@, id@, data@),
            final(self).embeddings() == old(self).embeddings(),
    {
        proof {
            use_type_invariant(&*self);
        }
        let key = String::from_str(id);
        let pos = self.position(&key);
        if pos.is_none() {
            proof {
                lemma_absent(self.items@, self.held@, self.bound@, id@);
            }
            return Err(StorageError::NotFound);
        }
        let i = pos.unwrap();
        let (mut items, held, bound) = self.take();
        let ghost before = items@;
        let ghost m = held@.insert(id@, data@);
        let old_item = items.remove(i);
        let item = StoredItem { id: key, data: String::from_str(data), embedding: old_item.embedding };
        items.insert(i, item);
        assert(items@ =~= before.update(i as int, item));
        assert(mirrors(items@, m)) by {
            assert forall|j: int| 0 <= j < items@.len() implies #[trigger] m.contains_key(
                items@[j].id@,
            ) && m[items@[j].id@] == items@[j].data@ by {
                if j != i {
                    assert(before[j].id@ != before[i as int].id@);
                }
            }
            assert forall|k: Seq<char>| #[trigger] m.contains_key(k) implies exists|j: int|
                0 <= j < items@.len() && items@[j].id@ == k by {
                if k == id@ {
                    assert(items@[i as int].id@ == k);
                } else {
                    let j = choose|j: int| 0 <= j < before.len() && before[j].id@ == k;
                    assert(items@[j].id@ == k);
                }
            }
        }
        assert(binds(items@, m, bound@)) by {
            assert forall|j: int| 0 <= j < items@.len() implies match #[trigger] items@[j].embedding {
                Some(b) => bound@.contains_key(items@[j].id@) && bound@[items@[j].id@] == b@,
                None => !bound@.contains_key(items@[j].id@),
            } by {
                assert(before[j].embedding == items@[j].embedding);
                assert(before[j].id@ == items@[j].id@);
            }
        }
        *self = MemoryDB { items, held: Ghost(m), bound };
        Ok(())
    }

    /// Removes `id` and its embedding; fails with `NotFound` if `id` is
    /// absent.
    pub fn delete(&mut self, id: &str) -> (r: Result<(), StorageError>)
        ensures
            (final(self)@, r) == delete_outcome(old(self)@, id@),
            final(self).embeddings() == if r is Ok {
                old(self).embeddings().remove(id@)
            } else {
                old(self).embeddings()
            },
    {
        proof {
            use_type_invariant(&*self);
        }
        let key = String::from_str(id);
        let pos = self.position(&key);
        if pos.is_none() {
            proof {
                lemma_absent(self.items@, self.held@, self.bound@, id@);
            }
            return Err(StorageError::NotFound);
        }
        let i = pos.unwrap();
        let (mut items, held, bound) = self.take();
        let ghost before = items@;
        let ghost m = held@.remove(id@);
        let ghost e = bound@.remove(id@);
        items.remove(i);
        assert(mirrors(items@, m) && binds(items@, m, e)) by {
            assert forall|a: int, b: int|
                0 <= a < b < items@.len() implies #[trigger] items@[a].id@ != #[trigger] items@[b].id@ by {
                let a0 = if a < i { a } else { a + 1 };
                let b0 = if b < i { b } else { b + 1 };
                assert(items@[a] == before[a0] && items@[b] == before[b0]);
            }
            assert forall|j: int| 0 <= j < items@.len() implies #[trigger] m.contains_key(
                items@[j].id@,
            ) && m[items@[j].id@] == items@[j].data@ by {
                let j0 = if j < i { j } else { j + 1 };
                assert(items@[j] == before[j0]);
                assert(before[j0].id@ != before[i as int].id@);
                assert(held@.contains_key(before[j0].id@));
                assert(before[i as int].id@ == id@);
            }
            assert forall|k: Seq<char>| #[trigger] m.contains_key(k) implies exists|j: int|
                0 <= j < items@.len() && items@[j].id@ == k by {
                let j0 = choose|j: int| 0 <= j < before.len() && before[j].id@ == k;
                assert(j0 != i);
                if j0 < i {
                    assert(items@[j0].id@ == k);
                } else {
                    assert(items@[j0 - 1].id@ == k);
                }
            }
            assert forall|j: int| 0 <= j < items@.len() implies match #[trigger] items@[j].embedding {
                Some(b) => e.contains_key(items@[j].id@) && e[items@[j].id@] == b@,
                None => !e.contains_key(items@[j].id@),
            } by {
                let j0 = if j < i { j } else { j + 1 };
                assert(items@[j] == before[j0]);
                assert(before[j0].id@ != before[i as int].id@);
                assert(before[i as int].id@ == id@);
                assert(match before[j0].embedding {
                    Some(b) => bound@.contains_key(before[j0].id@) && bound@[before[j0].id@] == b@,
                    None => !bound@.contains_key(before[j0].id@),
                });
            }
        }
        *self = MemoryDB { items, held: Ghost(m), bound: Ghost(e) };
        Ok(())
    }

    /// Binds the encoding of `values` to the record `id`, replacing any
    /// earlier embedding; fails with `NotFound` if `id` is absent.
    pub fn set_embedding(&mut self, id: &str, values: &[u32]) -> (r: Result<(), StorageError>)
        ensures
            final(self)@ == old(self)@,
            old(self)@.contains_key(id@) ==> r is Ok && final(self).embeddings() == old(
                self,
            ).embeddings().insert(id@, encoding(values@)),
            !old(self)@.contains_key(id@) ==> r == Err::<(), StorageError>(StorageError::NotFound)
                && final(self).embeddings() == old(self).embeddings(),
    {
        proof {
            use_type_invariant(&*self);
        }
        let key = String::from_str(id);
        let pos = self.position(&key);
        if pos.is_none() {
            proof {
                lemma_absent(self.items@, self.held@, self.bound@, id@);
            }
            return Err(StorageError::NotFound);
        }
        let i = pos.unwrap();
        let bytes = convert_embeddings_to_binary(values);
        let (mut items, held, bound) = self.take();
        let ghost before = items@;
        let ghost e = bound@.insert(id@, bytes@);
        let old_item = items.remove(i);
        let item = StoredItem { id: old_item.id, data: old_item.data, embedding: Some(bytes) };
        items.insert(i, item);
        assert(items@ =~= before.update(i as int, item));
        assert(mirrors(items@, held@) && binds(items@, held@, e)) by {
            assert forall|j: int| 0 <= j < items@.len() implies #[trigger] held@.contains_key(
                items@[j].id@,
            ) && held@[items@[j].id@] == items@[j].data@ by {
                assert(before[j].id@ == items@[j].id@ && before[j].data@ == items@[j].data@);
                assert(held@.contains_key(before[j].id@));
            }
            assert forall|k: Seq<char>| #[trigger] held@.contains_key(k) implies exists|j: int|
                0 <= j < items@.len() && items@[j].id@ == k by {
                let j = choose|j: int| 0 <= j < before.len() && before[j].id@ == k;
                assert(items@[j].id@ == k);
            }
            assert forall|j: int| 0 <= j < items@.len() implies match #[trigger] items@[j].embedding {
                Some(b) => e.contains_key(items@[j].id@) && e[items@[j].id@] == b@,
                None => !e.contains_key(items@[j].id@),
            } by {
                if j != i {
                    assert(before[j].id@ != before[i as int].id@);
                    assert(items@[j] == before[j]);
                }
            }
            assert(held@.contains_key(before[i as int].id@));
        }
        *self = MemoryDB { items, held, bound: Ghost(e) };
        Ok(())
    }

    /// The embedding bound to `id`, decoded; `None` when the record has none.
    /// Fails with `NotFound` if `id` is absent, and with a codec error if the
    /// stored bytes are not a whole number of elements.
    pub fn embedding(&self, id: &str) -> (r: Result<Option<Vec<u32>>, StorageError>)
        ensures
            embedding_view(r) == embedding_outcome(self@, self.embeddings(), id@),
    {
        proof {
            use_type_invariant(self);
        }
        let key = String::from_str(id);
        match self.position(&key) {
            None => {
                proof {
                    lemma_absent(self.items@, self.held@, self.bound@, id@);
                }
                Err(StorageError::NotFound)
            },
            Some(i) => {
                assert(self.held@.contains_key(self.items@[i as int].id@));
                match &self.items[i].embedding {
                    None => Ok(None),
                    Some(bytes) => match convert_binary_to_embeddings(bytes.as_slice()) {
                        Ok(values) => Ok(Some(values)),
                        Err(e) => Err(StorageError::Codec(e)),
                    },
                }
            },
        }
    }
}

impl Observer for MemoryDB {
    closed spec fn contents(&self) -> Contents {
        self@
    }

    fn create(&mut self, id: &str, data: &str) -> (r: Result<(), StorageError>) {
        MemoryDB::create(self, id, data)
    }

    fn read(&self, id: &str) -> (r: Result<String, StorageError>) {
        MemoryDB::read(self, id)
    }

    fn update(&mut self, id: &str, data: &str) -> (r: Result<(), StorageError>) {
        MemoryDB::update(self, id, data)
    }

    fn delete(&mut self, id: &str) -> (r: Result<(), StorageError>) {
        MemoryDB::delete(self, id)
    }
}

/// The result of an update or delete statement that changed `changed` rows:
/// none changed means the identifier was absent.
pub fn changed_rows_result(changed: usize) -> (r: Result<(), StorageError>)
    ensures
        r == if changed == 0 {
            Err::<(), StorageError>(StorageError::NotFound)
        } else {
            Ok(())
        },
{
    if changed == 0 {
        Err(StorageError::NotFound)
    } else {
        Ok(())
    }
}

/// The result of a read whose query found `row`, the data column of the
/// matching record if there is one.
pub fn found_data(row: Option<String>) -> (r: Result<String, StorageError>)
    ensures
        match row {
            Some(d) => r is Ok && r->Ok_0@ == d@,
            None => r == Err::<String, StorageError>(StorageError::NotFound),
        },
{
    match row {
        Some(d) => Ok(d),
        None => Err(StorageError::NotFound),
    }
}

/// A stored record with its embedding: identifier, data, and the embedding
/// decoded from its bytes.
pub fn decode_embedding_row(row: Option<(String, String, Vec<u8>)>) -> (r: Result<
    (String, String, Vec<u32>),
    StorageError,
>)
    ensures
        match row {
            None => r == Err::<(String, String, Vec<u32>), StorageError>(StorageError::NotFound),
            Some((id, data, bytes)) => if bytes@.len() % 4 == 0 {
                r is Ok && r->Ok_0.0@ == id@ && r->Ok_0.1@ == data@ && r->Ok_0.2@ == decoding(
                    bytes@,
                )
            } else {
                r == Err::<(String, String, Vec<u32>), StorageError>(
                    StorageError::Codec(CodecError::TruncatedInput),
                )
            },
        },
{
    match row {
        None => Err(StorageError::NotFound),
        Some((id, data, bytes)) => match convert_binary_to_embeddings(bytes.as_slice()) {
            Ok(values) => Ok((id, data, values)),
            Err(e) => Err(StorageError::Codec(e)),
        },
    }
}

} // verus!
