//! The documents of the full-text index: the kinds of collection, the key
//! under which a term is stored, what is written for a term, and how the
//! documents found for a query are gathered by kind.

use crate::text::{decimal, decimal_i32};
use vstd::prelude::*;
use vstd::string::StringExecFns;

verus! {

/// The kinds of collection that can be searched for.
#[derive(Eq, Hash, PartialEq, Clone, Copy, Debug, Structural)]
pub enum CollectionType {
    Track,
    Artist,
    Directory,
    Album,
    Playlist,
}

/// The number under which a kind is stored in the index. Albums come
/// before directories here, unlike in the declaration.
pub open spec fn type_code(kind: CollectionType) -> i64 {
    match kind {
        CollectionType::Track => 0,
        CollectionType::Artist => 1,
        CollectionType::Album => 2,
        CollectionType::Directory => 3,
        CollectionType::Playlist => 4,
    }
}

/// The kind stored under a number, if the number stands for one.
pub open spec fn type_of_code(code: i64) -> Option<CollectionType> {
    if code == 0 {
        Some(CollectionType::Track)
    } else if code == 1 {
        Some(CollectionType::Artist)
    } else if code == 2 {
        Some(CollectionType::Album)
    } else if code == 3 {
        Some(CollectionType::Directory)
    } else if code == 4 {
        Some(CollectionType::Playlist)
    } else {
        None
    }
}

impl From<CollectionType> for i64 {
    fn from(collection_type: CollectionType) -> (code: i64) {
        match collection_type {
            CollectionType::Track => 0,
            CollectionType::Artist => 1,
            CollectionType::Album => 2,
            CollectionType::Directory => 3,
            CollectionType::Playlist => 4,
        }
    }
}

impl vstd::std_specs::convert::FromSpecImpl<CollectionType> for i64 {
    open spec fn obeys_from_spec() -> bool {
        true
    }

    open spec fn from_spec(collection_type: CollectionType) -> i64 {
        type_code(collection_type)
    }
}

impl TryFrom<i64> for CollectionType {
    type Error = &'static str;

    fn try_from(value: i64) -> (kind: Result<CollectionType, &'static str>) {
        match value {
            0 => Ok(CollectionType::Track),
            1 => Ok(CollectionType::Artist),
            2 => Ok(CollectionType::Album),
            3 => Ok(CollectionType::Directory),
            4 => Ok(CollectionType::Playlist),
            _ => Err("Invalid value for CollectionType"),
        }
    }
}

impl vstd::std_specs::convert::TryFromSpecImpl<i64> for CollectionType {
    open spec fn obeys_try_from_spec() -> bool {
        true
    }

    open spec fn try_from_spec(value: i64) -> Result<CollectionType, &'static str> {
        match type_of_code(value) {
            Some(kind) => Ok(kind),
            None => Err("Invalid value for CollectionType"),
        }
    }
}

/// A kind and its number determine each other.
pub proof fn type_code_round_trip(kind: CollectionType, code: i64)
    ensures
        type_of_code(type_code(kind)) == Some(kind),
        type_of_code(code) == Some(kind) <==> code == type_code(kind),
        type_of_code(code) is Some <==> 0 <= code <= 4,
{
}

/// The name of a kind, as the index key spells it.
pub open spec fn type_label(kind: CollectionType) -> Seq<char> {
    match kind {
        CollectionType::Track => "Track"@,
        CollectionType::Artist => "Artist"@,
        CollectionType::Directory => "Directory"@,
        CollectionType::Album => "Album"@,
        CollectionType::Playlist => "Playlist"@,
    }
}

/// The key of the term `(kind, id)` in the index: the kind's name, a
/// hyphen, and the id in decimal.
pub open spec fn term_tid(kind: CollectionType, id: i32) -> Seq<char> {
    type_label(kind) + seq!['-'] + decimal(id as int)
}

/// The key of the term `(kind, id)` in the index.
pub fn tid_of(kind: CollectionType, id: i32) -> (tid: String)
    ensures
        tid@ == term_tid(kind, id),
{
    let mut tid = match kind {
        CollectionType::Track => String::from_str("Track"),
        CollectionType::Artist => String::from_str("Artist"),
        CollectionType::Directory => String::from_str("Directory"),
        CollectionType::Album => String::from_str("Album"),
        CollectionType::Playlist => String::from_str("Playlist"),
    };
    tid.push('-');
    let number = decimal_i32(id);
    tid.append(number.as_str());
    tid
}

/// The rendering of a text in ASCII that `deunicode` gives, with accents
/// folded away and other scripts transliterated.
pub uninterp spec fn latinization(name: Seq<char>) -> Seq<char>;

/// Whether every character of the text is an ASCII character.
pub open spec fn is_ascii_text(text: Seq<char>) -> bool {
    forall|i: int| 0 <= i < text.len() ==> (#[trigger] text[i]) as u32 <= 127
}

/// `deunicode::deunicode` transliterates a text into ASCII. Its result
/// depends on the text alone and is known here by name; of what it holds
/// only this is claimed, that every character of it is an ASCII character.
pub assume_specification[ deunicode::deunicode ](s: &str) -> (latin: String)
    ensures
        latin@ == latinization(s@),
        is_ascii_text(latin@),
;

/// One document of the index.
#[derive(Debug, Clone)]
pub struct SearchDocument {
    /// The name as given.
    pub name: String,
    /// The name in ASCII.
    pub latinization: String,
    /// The number of the kind of collection.
    pub type_code: i64,
    /// The id within the kind.
    pub id: i64,
    /// The key `(kind, id)`.
    pub tid: String,
}

/// A change to the index: every document under `delete_tid` leaves, then
/// `document`, if there is one, is added.
#[derive(Debug, Clone)]
pub struct IndexUpdate {
    pub delete_tid: String,
    pub document: Option<SearchDocument>,
}

/// The change that removes the term `(kind, id)` from the index.
pub fn remove_term(kind: CollectionType, id: i32) -> (update: IndexUpdate)
    ensures
        update.delete_tid@ == term_tid(kind, id),
        update.document is None,
{
    IndexUpdate { delete_tid: tid_of(kind, id), document: None }
}

/// The change that stores `name` under the term `(kind, id)`: whatever
/// stood under the key is replaced by one document that holds the name, its
/// rendering in ASCII, the kind's number, the id and the key.
pub fn add_term(kind: CollectionType, id: i32, name: &str) -> (update: IndexUpdate)
    ensures
        update.delete_tid@ == term_tid(kind, id),
        update.document matches Some(d) && d.name@ == name@ && d.latinization@ == latinization(
            name@,
        ) && is_ascii_text(d.latinization@) && d.type_code == type_code(kind) && d.id == id
            && d.tid@ == term_tid(kind, id),
{
    let document = SearchDocument {
        name: String::from_str(name),
        latinization: deunicode::deunicode(name),
        type_code: i64::from(kind),
        id: id as i64,
        tid: tid_of(kind, id),
    };
    IndexUpdate { delete_tid: tid_of(kind, id), document: Some(document) }
}

/// The kinds in the order in which a query goes through them.
pub open spec fn search_order() -> Seq<CollectionType> {
    seq![
        CollectionType::Track,
        CollectionType::Artist,
        CollectionType::Album,
        CollectionType::Directory,
        CollectionType::Playlist,
    ]
}

/// The kinds in the order in which a query goes through them.
pub fn kinds_in_search_order() -> (kinds: Vec<CollectionType>)
    ensures
        kinds@ == search_order(),
{
    let mut kinds: Vec<CollectionType> = Vec::new();
    kinds.push(CollectionType::Track);
    kinds.push(CollectionType::Artist);
    kinds.push(CollectionType::Album);
    kinds.push(CollectionType::Directory);
    kinds.push(CollectionType::Playlist);
    kinds
}

/// The ids among the documents found, in the order found. A document
/// without an id is passed over.
pub open spec fn ids_found(found: Seq<Option<i64>>) -> Seq<i64>
    decreases found.len(),
{
    if found.len() == 0 {
        Seq::empty()
    } else {
        match found.last() {
            Some(id) => ids_found(found.drop_last()).push(id),
            None => ids_found(found.drop_last()),
        }
    }
}

/// The ids of the first `n` documents found.
pub open spec fn top_ids(found: Seq<Option<i64>>, n: nat) -> Seq<i64> {
    if n < found.len() {
        ids_found(found.take(n as int))
    } else {
        ids_found(found)
    }
}

/// There are no more ids than documents.
pub proof fn ids_found_is_short(found: Seq<Option<i64>>)
    ensures
        ids_found(found).len() <= found.len(),
    decreases found.len(),
{
    if found.len() > 0 {
        ids_found_is_short(found.drop_last());
    }
}

/// The ids of the first `n` documents found for one kind, by falling
/// relevance.
pub fn collect_ids(found: &Vec<Option<i64>>, n: usize) -> (ids: Vec<i64>)
    ensures
        ids@ == top_ids(found@, n as nat),
        ids@.len() <= n,
{
    let limit = if n < found.len() {
        n
    } else {
        found.len()
    };
    let mut ids: Vec<i64> = Vec::new();
    let mut i: usize = 0;
    while i < limit
        invariant
            i <= limit <= found@.len(),
            ids@ == ids_found(found@.take(i as int)),
        decreases limit - i,
    {
        proof {
            assert(found@.take(i + 1).drop_last() == found@.take(i as int));
        }
        match found[i] {
            Some(id) => {
                ids.push(id);
            },
            None => {},
        }
        i += 1;
    }
    proof {
        assert(found@.take(found@.len() as int) == found@);
        ids_found_is_short(found@.take(limit as int));
    }
    ids
}

/// The ids found for one kind of collection.
#[derive(Debug, Clone)]
pub struct KindHits {
    pub kind: CollectionType,
    pub ids: Vec<i64>,
}

/// What a query found: for each kind with at least one id, in search
/// order, the ids by falling relevance.
pub open spec fn search_results(found: Seq<Seq<Option<i64>>>, n: nat) -> Seq<
    (CollectionType, Seq<i64>),
> {
    results_up_to(found, n, 5)
}

/// The results for the first `k` kinds of the search order.
pub open spec fn results_up_to(found: Seq<Seq<Option<i64>>>, n: nat, k: nat) -> Seq<
    (CollectionType, Seq<i64>),
>
    decreases k,
{
    if k == 0 {
        Seq::empty()
    } else {
        let before = results_up_to(found, n, (k - 1) as nat);
        if k <= found.len() && k <= 5 && top_ids(found[k - 1], n).len() > 0 {
            before.push((search_order()[k - 1], top_ids(found[k - 1], n)))
        } else {
            before
        }
    }
}

/// The rows of documents found, each as a sequence.
pub open spec fn rows_view(found: Seq<Vec<Option<i64>>>) -> Seq<Seq<Option<i64>>> {
    Seq::new(found.len(), |k: int| found[k]@)
}

/// The groups of a result, each as a pair of kind and ids.
pub open spec fn groups_view(groups: Seq<KindHits>) -> Seq<(CollectionType, Seq<i64>)> {
    Seq::new(groups.len(), |k: int| (groups[k].kind, groups[k].ids@))
}

/// Gathers what a query found. Row `k` of `found` holds, for the `k`-th
/// kind of the search order, the id of each document that the index
/// returned for that kind, by falling relevance, or nothing for a document
/// without an id. Of each row the first `n` documents count; a kind without
/// an id among them is left out.
pub fn search_for(found: &Vec<Vec<Option<i64>>>, n: usize) -> (groups: Vec<KindHits>)
    ensures
        groups_view(groups@) == search_results(rows_view(found@), n as nat),
{
    let kinds = kinds_in_search_order();
    let mut groups: Vec<KindHits> = Vec::new();
    let mut k: usize = 0;
    while k < 5
        invariant
            k <= 5,
            kinds@ == search_order(),
            groups_view(groups@) == results_up_to(rows_view(found@), n as nat, k as nat),
        decreases 5 - k,
    {
        if k < found.len() {
            let ids = collect_ids(&found[k], n);
            if ids.len() > 0 {
                groups.push(KindHits { kind: kinds[k], ids });
            }
        }
        k += 1;
    }
    groups
}

/// The key tells the term: two terms with the same key are of the same
/// kind and have the same id. So storing or removing one term never
/// touches the documents of another.
pub proof fn term_tid_is_injective(kind: CollectionType, id: i32, other: CollectionType, oid: i32)
    requires
        term_tid(kind, id) == term_tid(other, oid),
    ensures
        kind == other,
        id == oid,
{
    reveal_strlit("Track");
    reveal_strlit("Artist");
    reveal_strlit("Directory");
    reveal_strlit("Album");
    reveal_strlit("Playlist");
    let a = term_tid(kind, id);
    let b = term_tid(other, oid);
    assert(type_label(kind).len() >= 5);
    assert(type_label(other).len() >= 5);
    assert(a[0] == type_label(kind)[0] && a[1] == type_label(kind)[1]);
    assert(b[0] == type_label(other)[0] && b[1] == type_label(other)[1]);
    assert(kind != other ==> a[0] != b[0] || a[1] != b[1]);
    let n = type_label(kind).len() as int;
    assert(a.subrange(n + 1, a.len() as int) == decimal(id as int));
    assert(b.subrange(n + 1, b.len() as int) == decimal(oid as int));
    crate::text::decimal_is_injective(id as int, oid as int);
}

/// A query's results hold at most one group for each of the five kinds,
/// and every group holds at least one id and at most `n`.
pub proof fn search_results_are_bounded(found: Seq<Seq<Option<i64>>>, n: nat, k: nat)
    ensures
        results_up_to(found, n, k).len() <= k,
        k > 5 ==> results_up_to(found, n, k) == results_up_to(found, n, 5),
        forall|g: int|
            0 <= g < results_up_to(found, n, k).len() ==> 1 <= (#[trigger] results_up_to(
                found,
                n,
                k,
            )[g]).1.len() <= n,
    decreases k,
{
    if k > 0 {
        search_results_are_bounded(found, n, (k - 1) as nat);
        if k <= found.len() && k <= 5 {
            let row = found[k - 1];
            if n < row.len() {
                ids_found_is_short(row.take(n as int));
            } else {
                ids_found_is_short(row);
            }
        }
    }
}

/// Every id among the documents found is among the ids gathered.
pub proof fn found_ids_are_kept(found: Seq<Option<i64>>, j: int)
    requires
        0 <= j < found.len(),
        found[j] is Some,
    ensures
        ids_found(found).contains(found[j]->0),
    decreases found.len(),
{
    let rest = ids_found(found.drop_last());
    if j == found.len() - 1 {
        assert(rest.push(found[j]->0)[rest.len() as int] == found[j]->0);
    } else {
        found_ids_are_kept(found.drop_last(), j);
        let at = choose|i: int| 0 <= i < rest.len() && rest[i] == found[j]->0;
        if found.last() is Some {
            assert(rest.push(found.last()->0)[at] == found[j]->0);
        }
    }
}

/// A group once gathered stays in the results as further kinds are gone
/// through.
pub proof fn results_grow(found: Seq<Seq<Option<i64>>>, n: nat, k: nat, more: nat)
    requires
        k <= more,
    ensures
        results_up_to(found, n, k).len() <= results_up_to(found, n, more).len(),
        forall|g: int|
            0 <= g < results_up_to(found, n, k).len() ==> results_up_to(found, n, more)[g]
                == #[trigger] results_up_to(found, n, k)[g],
    decreases more,
{
    if k < more {
        results_grow(found, n, k, (more - 1) as nat);
    }
}

/// Nothing that the index found is lost: an id that stands among the first
/// `n` documents found for a kind is in the results, in the group of that
/// kind.
pub proof fn search_keeps_what_was_found(found: Seq<Seq<Option<i64>>>, n: nat, k: int, j: int)
    requires
        0 <= k < 5,
        k < found.len(),
        0 <= j < found[k].len(),
        j < n,
        found[k][j] is Some,
    ensures
        exists|g: int|
            0 <= g < search_results(found, n).len() && (#[trigger] search_results(found, n)[g]).0
                == search_order()[k] && search_results(found, n)[g].1.contains(found[k][j]->0),
{
    let row = found[k];
    let id = row[j]->0;
    if n < row.len() {
        found_ids_are_kept(row.take(n as int), j);
    } else {
        found_ids_are_kept(row, j);
    }
    assert(top_ids(row, n).contains(id));
    let upto = results_up_to(found, n, (k + 1) as nat);
    let g = upto.len() - 1;
    assert(upto == results_up_to(found, n, k as nat).push((search_order()[k], top_ids(row, n))));
    assert(upto[g] == (search_order()[k], top_ids(row, n)));
    results_grow(found, n, (k + 1) as nat, 5);
    assert(search_results(found, n)[g] == upto[g]);
}

} // verus!
