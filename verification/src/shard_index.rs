//! The shard index: a JSON document that maps each weight to the file that
//! holds it.

use crate::errors::ResolveError;
use crate::identity::weight_map_key;
use vstd::prelude::*;

verus! {

/// The error of the JSON parser.
#[verifier::external_type_specification]
#[verifier::external_body]
pub struct ExJsonError(serde_json::Error);

/// What a JSON document holds under one key of its root.
#[derive(Clone, Debug)]
pub enum IndexMember {
    /// The root has no such member (or is no object at all).
    Missing,
    /// The member is there but is no object.
    NotAMap,
    /// The member is an object. For each of its members, in the order in which
    /// the object hands them out: the string it holds, or `None` where it holds
    /// something else.
    Entries(Vec<Option<String>>),
}

/// The mathematical content of an [`IndexMember`].
pub enum MemberModel {
    Missing,
    NotAMap,
    Entries(Seq<Option<Seq<char>>>),
}

/// The strings of a list of entries.
pub open spec fn entry_texts(entries: Seq<Option<String>>) -> Seq<Option<Seq<char>>> {
    Seq::new(
        entries.len(),
        |i: int|
            match entries[i] {
                Some(s) => Some(s@),
                None => None,
            },
    )
}

/// The strings of a list of names.
pub open spec fn name_texts(names: Seq<String>) -> Seq<Seq<char>> {
    Seq::new(names.len(), |i: int| names[i]@)
}

impl View for IndexMember {
    type V = MemberModel;

    open spec fn view(&self) -> MemberModel {
        match *self {
            IndexMember::Missing => MemberModel::Missing,
            IndexMember::NotAMap => MemberModel::NotAMap,
            IndexMember::Entries(entries) => MemberModel::Entries(entry_texts(entries@)),
        }
    }
}

/// What the JSON parser makes of `text`, seen under the root's member `key`:
/// `None` where `text` is no JSON document.
pub uninterp spec fn json_member(text: Seq<char>, key: Seq<char>) -> Option<MemberModel>;

/// `serde_json::from_str` into a `serde_json::Value`, then `Value::get` with
/// `key`, and for an object the strings of its values (`Map::values`,
/// `Value::as_str`). The contract only names the outcome: it is `Ok` exactly
/// where the parser accepts `text`, and then holds what `json_member` stands
/// for.
#[verifier::external_body]
fn read_member(text: &str, key: &str) -> (r: Result<IndexMember, serde_json::Error>)
    ensures
        match r {
            Ok(member) => json_member(text@, key@) == Some(member@),
            Err(_) => json_member(text@, key@) is None,
        },
{
    let document: serde_json::Value = serde_json::from_str(text)?;
    Ok(
        match document.get(key) {
            None => IndexMember::Missing,
            Some(serde_json::Value::Object(map)) => IndexMember::Entries(
                map.values().map(|v| v.as_str().map(String::from)).collect(),
            ),
            Some(_) => IndexMember::NotAMap,
        },
    )
}

/// The names among `entries`, each once, in the order of their first
/// occurrence.
pub open spec fn distinct_names(entries: Seq<Option<Seq<char>>>) -> Seq<Seq<char>>
    decreases entries.len(),
{
    if entries.len() == 0 {
        Seq::empty()
    } else {
        let before = distinct_names(entries.drop_last());
        match entries.last() {
            Some(name) => if before.contains(name) {
                before
            } else {
                before.push(name)
            },
            None => before,
        }
    }
}

/// `distinct_names` holds no name twice, and holds exactly the names that
/// occur among the entries.
pub proof fn distinct_names_is_the_set(entries: Seq<Option<Seq<char>>>)
    ensures
        distinct_names(entries).no_duplicates(),
        distinct_names(entries).len() <= entries.len(),
        forall|name: Seq<char>| #[trigger]
            distinct_names(entries).contains(name) <==> entries.contains(Some(name)),
    decreases entries.len(),
{
    if entries.len() > 0 {
        let init = entries.drop_last();
        let before = distinct_names(init);
        distinct_names_is_the_set(init);
        assert forall|name: Seq<char>| #[trigger]
            distinct_names(entries).contains(name) <==> entries.contains(Some(name)) by {
            if entries.contains(Some(name)) {
                let i = choose|i: int| 0 <= i < entries.len() && entries[i] == Some(name);
                if i < entries.len() - 1 {
                    assert(init[i] == Some(name));
                    assert(init.contains(Some(name)));
                    assert(before.contains(name));
                } else {
                    assert(entries.last() == Some(name));
                }
                if !before.contains(name) {
                    assert(before.push(name)[before.len() as int] == name);
                } else {
                    let j = choose|j: int| 0 <= j < before.len() && before[j] == name;
                    assert(distinct_names(entries)[j] == name);
                }
            }
            if distinct_names(entries).contains(name) {
                let j = choose|j: int|
                    0 <= j < distinct_names(entries).len() && distinct_names(entries)[j] == name;
                if j < before.len() {
                    assert(before[j] == name);
                    assert(before.contains(name));
                    let i = choose|i: int| 0 <= i < init.len() && init[i] == Some(name);
                    assert(entries[i] == Some(name));
                } else {
                    assert(entries[entries.len() - 1] == Some(name));
                }
            }
        }
    }
}

/// The distinct names of a weight map: each file once, in the order in which
/// it is first named; members that hold no string are passed over.
pub fn unique_shard_files(entries: &Vec<Option<String>>) -> (files: Vec<String>)
    ensures
        name_texts(files@) == distinct_names(entry_texts(entries@)),
        name_texts(files@).no_duplicates(),
        files@.len() <= entries@.len(),
        forall|name: Seq<char>| #[trigger]
            name_texts(files@).contains(name) <==> entry_texts(entries@).contains(Some(name)),
{
    let mut files: Vec<String> = Vec::new();
    let mut i: usize = 0;
    while i < entries.len()
        invariant
            i <= entries@.len(),
            name_texts(files@) == distinct_names(entry_texts(entries@).take(i as int)),
        decreases entries@.len() - i,
    {
        let ghost texts = entry_texts(entries@);
        proof {
            assert(texts.take(i + 1).drop_last() == texts.take(i as int));
            assert(texts.take(i + 1).last() == texts[i as int]);
        }
        match &entries[i] {
            Some(name) => {
                let mut seen = false;
                let mut j: usize = 0;
                while j < files.len()
                    invariant
                        j <= files@.len(),
                        seen <==> exists|k: int| 0 <= k < j && name_texts(files@)[k] == name@,
                    decreases files@.len() - j,
                {
                    if files[j] == *name {
                        assert(name_texts(files@)[j as int] == name@);
                        seen = true;
                    }
                    j += 1;
                }
                assert(seen <==> name_texts(files@).contains(name@));
                if !seen {
                    let ghost before = name_texts(files@);
                    files.push(name.clone());
                    assert(name_texts(files@) == before.push(name@));
                }
            },
            None => {},
        }
        i += 1;
    }
    proof {
        assert(entry_texts(entries@).take(i as int) == entry_texts(entries@));
        distinct_names_is_the_set(entry_texts(entries@));
    }
    files
}

/// What the index stands for once its weight map has been read: the files to
/// fetch, at least one, or the error. A weight map that names no file is as
/// malformed as a missing one: an empty list is never handed out.
pub open spec fn shard_files_of(member: Option<MemberModel>) -> Result<Seq<Seq<char>>, ResolveError> {
    match member {
        Some(MemberModel::Entries(entries)) => if distinct_names(entries).len() > 0 {
            Ok(distinct_names(entries))
        } else {
            Err(ResolveError::MalformedIndex)
        },
        _ => Err(ResolveError::MalformedIndex),
    }
}

/// A weight map gives files exactly where at least one of its members holds a
/// string; and what it gives is never an empty list.
pub proof fn files_exactly_where_named(entries: Seq<Option<Seq<char>>>)
    ensures
        shard_files_of(Some(MemberModel::Entries(entries))) is Ok <==> exists|name: Seq<char>|
            entries.contains(Some(name)),
        shard_files_of(Some(MemberModel::Entries(entries))) matches Ok(files) ==> files.len() >= 1,
{
    distinct_names_is_the_set(entries);
    let names = distinct_names(entries);
    if names.len() > 0 {
        assert(names.contains(names[0]));
        assert(entries.contains(Some(names[0])));
    }
    if exists|name: Seq<char>| entries.contains(Some(name)) {
        let name = choose|name: Seq<char>| entries.contains(Some(name));
        assert(names.contains(name));
    }
}

/// The files that a weight map names, or `MalformedIndex` where there is no
/// weight map, where it is no object, and where it names no file.
pub fn shard_files(member: &IndexMember) -> (r: Result<Vec<String>, ResolveError>)
    ensures
        match r {
            Ok(files) => shard_files_of(Some(member@)) == Ok::<Seq<Seq<char>>, ResolveError>(
                name_texts(files@),
            ),
            Err(e) => shard_files_of(Some(member@)) == Err::<Seq<Seq<char>>, ResolveError>(e),
        },
        r matches Ok(files) ==> files@.len() >= 1,
{
    match member {
        IndexMember::Entries(entries) => {
            let files = unique_shard_files(entries);
            if files.len() > 0 {
                Ok(files)
            } else {
                Err(ResolveError::MalformedIndex)
            }
        },
        IndexMember::Missing => Err(ResolveError::MalformedIndex),
        IndexMember::NotAMap => Err(ResolveError::MalformedIndex),
    }
}

/// Reads a shard index and returns the files that hold the weights, each once
/// and at least one. The index is malformed where it is no JSON document,
/// where its root has no `weight_map`, where that member is no object, and
/// where it names no file; then no file is named.
pub fn hub_load_safetensors(index: &str) -> (r: Result<Vec<String>, ResolveError>)
    ensures
        match r {
            Ok(files) => shard_files_of(json_member(index@, "weight_map"@)) == Ok::<
                Seq<Seq<char>>,
                ResolveError,
            >(name_texts(files@)),
            Err(e) => shard_files_of(json_member(index@, "weight_map"@)) == Err::<
                Seq<Seq<char>>,
                ResolveError,
            >(e),
        },
        r matches Ok(files) ==> files@.len() >= 1 && name_texts(files@).no_duplicates(),
        r matches Err(e) ==> e == ResolveError::MalformedIndex,
{
    match read_member(index, weight_map_key()) {
        Ok(member) => {
            let r = shard_files(&member);
            proof {
                if let MemberModel::Entries(entries) = member@ {
                    distinct_names_is_the_set(entries);
                }
            }
            r
        },
        Err(_) => Err(ResolveError::MalformedIndex),
    }
}

} // verus!
