//! The link table: one row per link, keyed by the link's identifier.
//!
//! `LinkTable` keeps the rows in memory and is viewed as a map from
//! identifier to target URL. The three statements on it follow the contract
//! that any store of links has to meet; `classify_failure` sorts what a
//! database reports into that contract's outcomes.

use vstd::prelude::*;
use vstd::string::*;

verus! {

/// A stored link: the short identifier and the URL it redirects to.
#[derive(Debug, PartialEq, Eq)]
pub struct Link {
    pub id: String,
    pub url: String,
}

impl View for Link {
    type V = (Seq<char>, Seq<char>);

    open spec fn view(&self) -> (Seq<char>, Seq<char>) {
        (self.id@, self.url@)
    }
}

/// Why a statement on the store did not give a result.
#[derive(Clone, Copy, Debug, PartialEq, Eq, Structural)]
pub enum StoreError {
    /// A row with this identifier is already there.
    AlreadyExists,
    /// No row has this identifier.
    NotFound,
    /// The store could not be reached, or the statement could not complete.
    Unavailable,
}

/// Some row of `rows` has the identifier `id`.
spec fn holds(rows: Seq<Link>, id: Seq<char>) -> bool {
    exists|i: int| 0 <= i < rows.len() && (#[trigger] rows[i]).id@ == id
}

/// The position of a row with the identifier `id`, where there is one.
spec fn row_of(rows: Seq<Link>, id: Seq<char>) -> int {
    choose|i: int| 0 <= i < rows.len() && (#[trigger] rows[i]).id@ == id
}

/// No two rows share an identifier.
spec fn distinct(rows: Seq<Link>) -> bool {
    forall|i: int, j: int|
        0 <= i < j < rows.len() ==> (#[trigger] rows[i]).id@ != (#[trigger] rows[j]).id@
}

/// The map that the rows stand for.
spec fn table_of(rows: Seq<Link>) -> Map<Seq<char>, Seq<char>> {
    Map::new(|id: Seq<char>| holds(rows, id), |id: Seq<char>| rows[row_of(rows, id)].url@)
}

proof fn lemma_lookup(rows: Seq<Link>, i: int)
    requires
        distinct(rows),
        0 <= i < rows.len(),
    ensures
        holds(rows, rows[i].id@),
        row_of(rows, rows[i].id@) == i,
        table_of(rows).dom().contains(rows[i].id@),
        table_of(rows)[rows[i].id@] == rows[i].url@,
{
    let id = rows[i].id@;
    let j = row_of(rows, id);
    assert(0 <= j < rows.len() && rows[j].id@ == id);
    if j < i {
        assert(rows[j].id@ != rows[i].id@);
    } else if i < j {
        assert(rows[i].id@ != rows[j].id@);
    }
}

proof fn lemma_push(rows: Seq<Link>, link: Link)
    requires
        distinct(rows),
        !holds(rows, link.id@),
    ensures
        distinct(rows.push(link)),
        table_of(rows.push(link)) == table_of(rows).insert(link.id@, link.url@),
{
    let grown = rows.push(link);
    let last = rows.len() as int;
    assert forall|i: int, j: int| 0 <= i < j < grown.len() implies (#[trigger] grown[i]).id@ != (
    #[trigger] grown[j]).id@ by {
        if j < last {
            assert(rows[i].id@ != rows[j].id@);
        } else {
            assert(grown[i] == rows[i]);
        }
    }
    assert forall|id: Seq<char>| holds(grown, id) <==> (holds(rows, id) || id == link.id@) by {
        if holds(grown, id) {
            let i = row_of(grown, id);
            if i < last {
                assert(rows[i].id@ == id);
            }
        }
        if holds(rows, id) {
            let i = row_of(rows, id);
            assert(grown[i].id@ == id);
        }
        if id == link.id@ {
            assert(grown[last].id@ == id);
        }
    }
    assert forall|id: Seq<char>| holds(grown, id) implies #[trigger] table_of(grown)[id] == (
    if id == link.id@ {
        link.url@
    } else {
        table_of(rows)[id]
    }) by {
        let i = row_of(grown, id);
        lemma_lookup(grown, i);
        if i < last {
            assert(grown[i] == rows[i]);
            lemma_lookup(rows, i);
        }
    }
    assert(table_of(grown) =~= table_of(rows).insert(link.id@, link.url@));
}

proof fn lemma_remove(rows: Seq<Link>, at: int)
    requires
        distinct(rows),
        0 <= at < rows.len(),
    ensures
        distinct(rows.remove(at)),
        table_of(rows.remove(at)) == table_of(rows).remove(rows[at].id@),
{
    let rest = rows.remove(at);
    let gone = rows[at].id@;
    assert forall|i: int, j: int| 0 <= i < j < rest.len() implies (#[trigger] rest[i]).id@ != (
    #[trigger] rest[j]).id@ by {
        let a = if i < at { i } else { i + 1 };
        let b = if j < at { j } else { j + 1 };
        assert(rest[i] == rows[a] && rest[j] == rows[b]);
        assert(rows[a].id@ != rows[b].id@);
    }
    assert forall|id: Seq<char>| holds(rest, id) <==> (holds(rows, id) && id != gone) by {
        if holds(rest, id) {
            let i = row_of(rest, id);
            let a = if i < at { i } else { i + 1 };
            assert(rest[i] == rows[a]);
            assert(rows[a].id@ == id);
            lemma_lookup(rows, a);
            lemma_lookup(rows, at);
        }
        if holds(rows, id) && id != gone {
            let a = row_of(rows, id);
            let i = if a < at { a } else { a - 1 };
            assert(rest[i] == rows[a]);
            assert(rest[i].id@ == id);
        }
    }
    assert forall|id: Seq<char>| holds(rest, id) implies #[trigger] table_of(rest)[id]
        == table_of(rows)[id] by {
        let i = row_of(rest, id);
        let a = if i < at { i } else { i + 1 };
        assert(rest[i] == rows[a]);
        lemma_lookup(rest, i);
        lemma_lookup(rows, a);
    }
    assert(table_of(rest) =~= table_of(rows).remove(gone));
}

/// The table `link`, held in memory: at most one row for each identifier.
pub struct LinkTable {
    rows: Vec<Link>,
}

impl View for LinkTable {
    type V = Map<Seq<char>, Seq<char>>;

    closed spec fn view(&self) -> Map<Seq<char>, Seq<char>> {
        table_of(self.rows@)
    }
}

impl LinkTable {
    /// The identifier is a primary key: no two rows share one.
    pub closed spec fn is_valid(&self) -> bool {
        distinct(self.rows@)
    }

    /// A table without rows.
    pub fn new() -> (table: LinkTable)
        ensures
            table.is_valid(),
            table@ == Map::<Seq<char>, Seq<char>>::empty(),
    {
        let table = LinkTable { rows: Vec::new() };
        assert(table@ =~= Map::<Seq<char>, Seq<char>>::empty());
        table
    }

    /// The number of rows.
    pub fn len(&self) -> (n: usize)
        requires
            self.is_valid(),
        ensures
            n == self@.dom().len(),
            self@.dom().finite(),
    {
        proof {
            lemma_count(self.rows@);
        }
        self.rows.len()
    }

    /// The position of the row with the identifier `id`, if there is one.
    fn find(&self, id: &String) -> (at: Option<usize>)
        requires
            self.is_valid(),
        ensures
            match at {
                Some(i) => i < self.rows@.len() && self.rows@[i as int].id@ == id@,
                None => !holds(self.rows@, id@),
            },
    {
        let mut i: usize = 0;
        while i < self.rows.len()
            invariant
                i <= self.rows@.len(),
                forall|k: int| 0 <= k < i ==> (#[trigger] self.rows@[k]).id@ != id@,
            decreases self.rows@.len() - i,
        {
            if self.rows[i].id == *id {
                return Some(i);
            }
            i += 1;
        }
        None
    }
}

proof fn lemma_count(rows: Seq<Link>)
    requires
        distinct(rows),
    ensures
        table_of(rows).dom().finite(),
        table_of(rows).dom().len() == rows.len(),
    decreases rows.len(),
{
    if rows.len() == 0 {
        assert(table_of(rows).dom() =~= Set::<Seq<char>>::empty());
    } else {
        let front = rows.drop_last();
        let link = rows.last();
        assert forall|i: int, j: int| 0 <= i < j < front.len() implies (#[trigger] front[i]).id@
            != (#[trigger] front[j]).id@ by {
            assert(rows[i].id@ != rows[j].id@);
        }
        if holds(front, link.id@) {
            let i = row_of(front, link.id@);
            assert(rows[i].id@ != rows[rows.len() - 1].id@);
        }
        lemma_count(front);
        lemma_push(front, link);
        assert(front.push(link) =~= rows);
        assert(table_of(rows).dom() =~= table_of(front).dom().insert(link.id@));
    }
}

/// Inserts the row `(id, url)`. A row that already has this identifier stays
/// as it is, and the statement fails with `AlreadyExists`.
pub fn create_link(table: &mut LinkTable, id: &str, url: &str) -> (done: Result<(), StoreError>)
    requires
        old(table).is_valid(),
    ensures
        final(table).is_valid(),
        old(table)@.dom().contains(id@) ==> done == Err::<(), StoreError>(
            StoreError::AlreadyExists,
        ) && final(table)@ == old(table)@,
        !old(table)@.dom().contains(id@) ==> done is Ok && final(table)@ == old(table)@.insert(
            id@,
            url@,
        ),
{
    let key = String::from_str(id);
    match table.find(&key) {
        Some(i) => {
            proof {
                lemma_lookup(table.rows@, i as int);
            }
            Err(StoreError::AlreadyExists)
        },
        None => {
            let link = Link { id: key, url: String::from_str(url) };
            proof {
                lemma_push(table.rows@, link);
            }
            table.rows.push(link);
            Ok(())
        },
    }
}

/// Removes the row with the identifier `id`, if there is one. That there was
/// none is no failure.
pub fn delete_link(table: &mut LinkTable, id: &str) -> (done: Result<(), StoreError>)
    requires
        old(table).is_valid(),
    ensures
        final(table).is_valid(),
        done is Ok,
        final(table)@ == old(table)@.remove(id@),
{
    let key = String::from_str(id);
    match table.find(&key) {
        Some(i) => {
            proof {
                lemma_remove(table.rows@, i as int);
            }
            let _ = table.rows.remove(i);
        },
        None => {
            assert(table@ =~= table@.remove(id@));
        },
    }
    Ok(())
}

/// The URL stored under `id`, or `NotFound` where no row has this identifier.
pub fn get_link(table: &LinkTable, id: &str) -> (found: Result<String, StoreError>)
    requires
        table.is_valid(),
    ensures
        match found {
            Ok(url) => table@.dom().contains(id@) && url@ == table@[id@],
            Err(e) => !table@.dom().contains(id@) && e == StoreError::NotFound,
        },
{
    let key = String::from_str(id);
    match table.find(&key) {
        Some(i) => {
            proof {
                lemma_lookup(table.rows@, i as int);
            }
            select_result(Some(table.rows[i].url.clone()))
        },
        None => select_result(None),
    }
}

/// The result of a lookup that ran, given the URL of the row that it found,
/// if it found one.
pub fn select_result(row: Option<String>) -> (found: Result<String, StoreError>)
    ensures
        match row {
            Some(url) => found == Ok::<String, StoreError>(url),
            None => found == Err::<String, StoreError>(StoreError::NotFound),
        },
{
    match row {
        Some(url) => Ok(url),
        None => Err(StoreError::NotFound),
    }
}

/// The SQLSTATE code with which a database reports a breach of a unique or
/// primary key.
pub open spec fn unique_violation() -> Seq<char> {
    seq!['2', '3', '5', '0', '5']
}

/// Sorts a failed insert by the SQLSTATE code that the database gave, if it
/// gave one: a breach of the primary key is `AlreadyExists`, everything else
/// is `Unavailable`.
pub fn classify_failure(sqlstate: Option<&str>) -> (kind: StoreError)
    ensures
        kind == match sqlstate {
            Some(code) if code@ == unique_violation() => StoreError::AlreadyExists,
            _ => StoreError::Unavailable,
        },
{
    match sqlstate {
        Some(code) => {
            proof {
                reveal_strlit("23505");
            }
            let violation = String::from_str("23505");
            assert(violation@ =~= unique_violation());
            if String::from_str(code) == violation {
                StoreError::AlreadyExists
            } else {
                StoreError::Unavailable
            }
        },
        None => StoreError::Unavailable,
    }
}

} // verus!
