use vstd::prelude::*;

use crate::error::AppError;

verus! {

/// One stored mapping from an alias to the URL it stands for.
#[derive(Debug, Clone, PartialEq, Eq)]
pub struct UrlMapping {
    /// Assigned by the store; increasing and never reused.
    pub id: i64,
    pub alias: String,
    pub url: String,
}

/// What a save leaves behind: on success the alias was free and now maps to
/// the URL; a taken alias fails with `UrlExists`; any other failure is a
/// `DatabaseError`. A failed save changes nothing.
pub open spec fn save_outcome(
    before: Map<Seq<char>, Seq<char>>,
    after: Map<Seq<char>, Seq<char>>,
    url: Seq<char>,
    alias: Seq<char>,
    r: Result<i64, AppError>,
) -> bool {
    match r {
        Ok(_) => !before.contains_key(alias) && after == before.insert(alias, url),
        Err(e) => after == before && if before.contains_key(alias) {
            e == AppError::UrlExists
        } else {
            e == AppError::DatabaseError
        },
    }
}

/// What a lookup returns: the stored URL, or `UrlNotFound` for an unknown alias.
pub open spec fn lookup_outcome(
    m: Map<Seq<char>, Seq<char>>,
    alias: Seq<char>,
    r: Result<String, AppError>,
) -> bool {
    match r {
        Ok(url) => m.contains_key(alias) && url@ == m[alias],
        Err(e) => !m.contains_key(alias) && e == AppError::UrlNotFound,
    }
}

/// What a delete leaves behind: the alias is gone, or `UrlNotFound` when it
/// was never there.
pub open spec fn delete_outcome(
    before: Map<Seq<char>, Seq<char>>,
    after: Map<Seq<char>, Seq<char>>,
    alias: Seq<char>,
    r: Result<(), AppError>,
) -> bool {
    match r {
        Ok(_) => before.contains_key(alias) && after == before.remove(alias),
        Err(e) => !before.contains_key(alias) && after == before && e == AppError::UrlNotFound,
    }
}

/// Why a storage engine refused an insert.
#[derive(Debug, Clone, Copy, PartialEq, Eq, Structural)]
pub enum InsertFailure {
    /// The alias uniqueness constraint was violated.
    UniqueViolation,
    /// Any other persistence error.
    Other,
}

/// Translates a refused insert at the storage boundary: a violated uniqueness
/// constraint means the alias is taken, anything else is a storage failure.
pub fn insert_error(f: InsertFailure) -> (r: AppError)
    ensures
        r == (match f {
            InsertFailure::UniqueViolation => AppError::UrlExists,
            InsertFailure::Other => AppError::DatabaseError,
        }),
{
    match f {
        InsertFailure::UniqueViolation => AppError::UrlExists,
        InsertFailure::Other => AppError::DatabaseError,
    }
}

/// Translates the row a lookup found, if any.
pub fn lookup_result(found: Option<String>) -> (r: Result<String, AppError>)
    ensures
        match found {
            Some(url) => r == Ok::<String, AppError>(url),
            None => r == Err::<String, AppError>(AppError::UrlNotFound),
        },
{
    match found {
        Some(url) => Ok(url),
        None => Err(AppError::UrlNotFound),
    }
}

/// Translates the number of rows a delete removed.
pub fn delete_result(rows_affected: u64) -> (r: Result<(), AppError>)
    ensures
        r is Ok <==> rows_affected > 0,
        r is Err ==> r->Err_0 == AppError::UrlNotFound,
{
    if rows_affected == 0 {
        Err(AppError::UrlNotFound)
    } else {
        Ok(())
    }
}

/// A storage engine for alias-to-URL mappings. The alias is unique: the
/// engine itself refuses an insert of a taken alias, so no caller needs to
/// look before it writes.
pub trait Repository {
    /// The stored mappings, alias to URL.
    spec fn mappings(&self) -> Map<Seq<char>, Seq<char>>;

    /// The engine's internal consistency.
    spec fn well_formed(&self) -> bool;

    fn save_url(&mut self, url_to_save: &str, alias: &str) -> (r: Result<i64, AppError>)
        requires
            old(self).well_formed(),
        ensures
            final(self).well_formed(),
            save_outcome(old(self).mappings(), final(self).mappings(), url_to_save@, alias@, r),
    ;

    fn get_url(&self, alias: &str) -> (r: Result<String, AppError>)
        requires
            self.well_formed(),
        ensures
            lookup_outcome(self.mappings(), alias@, r),
    ;

    fn delete_url(&mut self, alias: &str) -> (r: Result<(), AppError>)
        requires
            old(self).well_formed(),
        ensures
            final(self).well_formed(),
            delete_outcome(old(self).mappings(), final(self).mappings(), alias@, r),
    ;
}

/// A store that keeps its mappings in memory, in the order they were made.
pub struct MemoryStorage {
    rows: Vec<UrlMapping>,
    next_id: i64,
    model: Ghost<Map<Seq<char>, Seq<char>>>,
}

impl MemoryStorage {
    /// The id the next save will assign.
    pub closed spec fn spec_next_id(&self) -> i64 {
        self.next_id
    }

    /// The ids handed out so far, in order of creation.
    pub closed spec fn ids(&self) -> Seq<i64> {
        self.rows@.map_values(|m: UrlMapping| m.id)
    }

    pub fn new() -> (r: MemoryStorage)
        ensures
            r.well_formed(),
            r.mappings() == Map::<Seq<char>, Seq<char>>::empty(),
            r.spec_next_id() == 1,
    {
        MemoryStorage { rows: Vec::new(), next_id: 1, model: Ghost(Map::empty()) }
    }

    /// The position of the row holding `alias`, if any.
    fn find(&self, alias: &String) -> (r: Option<usize>)
        requires
            self.well_formed(),
        ensures
            match r {
                Some(i) => i < self.rows@.len() && self.rows@[i as int].alias@ == alias@,
                None => !self.mappings().contains_key(alias@),
            },
    {
        let mut i: usize = 0;
        while i < self.rows.len()
            invariant
                self.well_formed(),
                i <= self.rows@.len(),
                forall|j: int| 0 <= j < i ==> self.rows@[j].alias@ != alias@,
            decreases self.rows@.len() - i,
        {
            if self.rows[i].alias == *alias {
                return Some(i);
            }
            i = i + 1;
        }
        None
    }
}

impl Repository for MemoryStorage {
    closed spec fn mappings(&self) -> Map<Seq<char>, Seq<char>> {
        self.model@
    }

    closed spec fn well_formed(&self) -> bool {
        &&& forall|i: int|
            0 <= i < self.rows@.len() ==> {
                &&& self.model@.contains_key(#[trigger] self.rows@[i].alias@)
                &&& self.model@[self.rows@[i].alias@] == self.rows@[i].url@
                &&& 1 <= self.rows@[i].id < self.next_id
            }
        &&& forall|k: Seq<char>|
            #[trigger] self.model@.contains_key(k) ==> exists|i: int|
                0 <= i < self.rows@.len() && #[trigger] self.rows@[i].alias@ == k
        &&& forall|i: int, j: int|
            0 <= i < j < self.rows@.len() ==> {
                &&& self.rows@[i].alias@ != self.rows@[j].alias@
                &&& self.rows@[i].id < self.rows@[j].id
            }
        &&& 1 <= self.next_id
    }

    fn save_url(&mut self, url_to_save: &str, alias: &str) -> (r: Result<i64, AppError>)
        ensures
            r is Err && r->Err_0 == AppError::DatabaseError ==> old(self).spec_next_id() == i64::MAX,
            r is Ok ==> r->Ok_0 == old(self).spec_next_id() && final(self).spec_next_id() == r->Ok_0 + 1,
            r is Ok ==> final(self).ids() == old(self).ids().push(r->Ok_0),
            r is Err ==> final(self).ids() == old(self).ids(),
    {
        let key = alias.to_owned();
        match self.find(&key) {
            Some(_) => Err(AppError::UrlExists),
            None => {
                if self.next_id == i64::MAX {
                    return Err(AppError::DatabaseError);
                }
                let id = self.next_id;
                let row = UrlMapping { id, alias: key, url: url_to_save.to_owned() };
                let ghost before = self.rows@;
                self.rows.push(row);
                self.next_id = id + 1;
                self.model = Ghost(self.model@.insert(alias@, url_to_save@));
                assert(self.rows@ == before.push(row));
                assert forall|k: Seq<char>| #[trigger] self.model@.contains_key(k) implies exists|i: int|
                    0 <= i < self.rows@.len() && #[trigger] self.rows@[i].alias@ == k by {
                    if k == alias@ {
                        assert(self.rows@[before.len() as int].alias@ == k);
                    } else {
                        assert(old(self).model@.contains_key(k));
                        let i = choose|i: int| 0 <= i < before.len() && #[trigger] before[i].alias@ == k;
                        assert(self.rows@[i].alias@ == k);
                    }
                }
                assert(self.ids() == old(self).ids().push(id));
                Ok(id)
            }
        }
    }

    fn get_url(&self, alias: &str) -> (r: Result<String, AppError>) {
        let key = alias.to_owned();
        match self.find(&key) {
            Some(i) => Ok(self.rows[i].url.clone()),
            None => Err(AppError::UrlNotFound),
        }
    }

    fn delete_url(&mut self, alias: &str) -> (r: Result<(), AppError>)
        ensures
            final(self).spec_next_id() == old(self).spec_next_id(),
            r is Ok ==> exists|i: int| 0 <= i < old(self).ids().len()
                && final(self).ids() == old(self).ids().remove(i),
            r is Err ==> final(self).ids() == old(self).ids(),
    {
        let key = alias.to_owned();
        match self.find(&key) {
            None => Err(AppError::UrlNotFound),
            Some(i) => {
                let ghost before = self.rows@;
                self.rows.remove(i);
                self.model = Ghost(self.model@.remove(alias@));
                assert(self.rows@ == before.remove(i as int));
                assert forall|k: Seq<char>| #[trigger] self.model@.contains_key(k) implies exists|j: int|
                    0 <= j < self.rows@.len() && #[trigger] self.rows@[j].alias@ == k by {
                    assert(old(self).model@.contains_key(k));
                    let j = choose|j: int| 0 <= j < before.len() && #[trigger] before[j].alias@ == k;
                    assert(j != i);
                    if j < i {
                        assert(self.rows@[j].alias@ == k);
                    } else {
                        assert(self.rows@[j - 1].alias@ == k);
                    }
                }
                assert(self.ids() == old(self).ids().remove(i as int));
                Ok(())
            }
        }
    }
}

} // verus!
