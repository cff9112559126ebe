//! A collection of included stores for caching Discord objects.
pub mod channels;
pub mod emojis;
pub mod guilds;
pub mod members;
pub mod presences;
pub mod roles;
pub mod users;
pub mod voice_states;

use vstd::prelude::*;
use vstd::string::*;

use crate::cache::Error;
use crate::cache::backends::{entry, lists_collection, Backend, Entries};
use crate::text::{lemma_parse_decimal_u64, text_pairs, parse_u64, spec_decimal, spec_parse_u64, u64_to_string};

verus! {

/// Whether every key of `pairs` is a decimal ID.
pub open spec fn all_keys_parse(pairs: Seq<(Seq<char>, Seq<char>)>) -> bool {
    forall|i: int| 0 <= i < pairs.len() ==> (#[trigger] spec_parse_u64(pairs[i].0)) is Some
}

/// `pairs` with each key read as a decimal ID.
pub open spec fn parsed_keys(pairs: Seq<(Seq<char>, Seq<char>)>) -> Seq<(u64, Seq<char>)> {
    pairs.map_values(|p: (Seq<char>, Seq<char>)| (spec_parse_u64(p.0)->0, p.1))
}

/// The pairs of IDs and texts that a listing stands for.
pub open spec fn numbered_pairs(v: Seq<(u64, String)>) -> Seq<(u64, Seq<char>)> {
    v.map_values(|p: (u64, String)| (p.0, p.1@))
}

/// Whether `v` lists the collection `coll` of `m` completely, each key read as an ID,
/// each value's text kept, in some order.
pub open spec fn listed_by_id(m: Entries, coll: Seq<char>, v: Seq<(u64, Seq<char>)>) -> bool {
    exists|pairs: Seq<(Seq<char>, Seq<char>)>|
        #[trigger] lists_collection(m, coll, pairs) && all_keys_parse(pairs) && v == parsed_keys(pairs)
}

/// The name of the per-guild collection `prefix` for the guild `guild_id`:
/// `prefix:guild_id`.
pub open spec fn spec_guild_collection(prefix: Seq<char>, guild_id: u64) -> Seq<char> {
    prefix + ":"@ + spec_decimal(guild_id as nat)
}

/// The name of the per-guild collection `prefix` for the guild `guild_id`.
pub fn guild_collection(prefix: &str, guild_id: u64) -> (s: String)
    ensures
        s@ == spec_guild_collection(prefix@, guild_id),
{
    let mut s = prefix.to_owned();
    s.append(":");
    let id = u64_to_string(guild_id);
    s.append(id.as_str());
    s
}

/// Reads the keys of a collection's listing as IDs, keeping each value's text: fails with
/// `ParseInt` when some key is no decimal ID.
pub fn parse_entries(pairs: Vec<(String, String)>) -> (r: Result<Vec<(u64, String)>, Error>)
    ensures
        r is Ok <==> all_keys_parse(text_pairs(pairs@)),
        r matches Ok(v) ==> numbered_pairs(v@) == parsed_keys(text_pairs(pairs@)),
        r matches Err(e) ==> e == Error::ParseInt,
{
    let ghost input = text_pairs(pairs@);
    let mut out: Vec<(u64, String)> = Vec::new();
    let mut i: usize = 0;
    while i < pairs.len()
        invariant
            0 <= i <= pairs.len(),
            input == text_pairs(pairs@),
            out.len() == i,
            all_keys_parse(input.take(i as int)),
            numbered_pairs(out@) == parsed_keys(input.take(i as int)),
        decreases pairs.len() - i,
    {
        let key = parse_u64(pairs[i].0.as_str());
        match key {
            Some(k) => {
                let ghost old_out = out@;
                let value = pairs[i].1.clone();
                out.push((k, value));
                proof {
                    assert(out@ == old_out.push((k, value)));
                    assert(input[i as int] == (pairs@[i as int].0@, pairs@[i as int].1@));
                    assert(numbered_pairs(out@) =~= numbered_pairs(old_out).push((k, value@)));
                    assert(input.take(i + 1) =~= input.take(i as int).push(input[i as int]));
                    assert(numbered_pairs(out@) =~= parsed_keys(input.take(i + 1)));
                }
                i = i + 1;
            },
            None => {
                proof {
                    assert(spec_parse_u64(input[i as int].0) is None);
                }
                return Err(Error::ParseInt);
            },
        }
    }
    proof {
        assert(input.take(i as int) =~= input);
    }
    Ok(out)
}

/// Reads the value under `coll` and `key`, or `None` when the backend fails.
pub fn read_entry<T: Backend>(backend: &T, coll: &str, key: &str) -> (r: Option<String>)
    ensures
        r matches Some(v) ==> entry(backend.entries(), coll@, key@) == Some(v@),
{
    match backend.get(coll, key) {
        Ok(v) => Some(v),
        Err(_) => None,
    }
}

/// Whether a complete listing of the collection `coll` of `m` has a key that is no ID.
pub open spec fn has_non_id_key(m: Entries, coll: Seq<char>) -> bool {
    exists|pairs: Seq<(Seq<char>, Seq<char>)>| #[trigger] lists_collection(m, coll, pairs) && !all_keys_parse(pairs)
}

/// Reads the collection `coll` with its keys as IDs: fails with `ParseInt` when a key of the
/// collection is no ID, and with the backend's error when the backend fails.
pub fn read_collection<T: Backend>(backend: &T, coll: &str) -> (r: Result<Vec<(u64, String)>, Error>)
    ensures
        r matches Ok(v) ==> listed_by_id(backend.entries(), coll@, numbered_pairs(v@)),
        r matches Err(e) ==> e is Redis || (e is ParseInt && has_non_id_key(backend.entries(), coll@)),
{
    match backend.get_all(coll) {
        Ok(pairs) => {
            let ghost listing = text_pairs(pairs@);
            let r = parse_entries(pairs);
            proof {
                assert(lists_collection(backend.entries(), coll@, listing));
            }
            r
        },
        Err(e) => Err(e),
    }
}

/// A listing of a collection by ID holds each entry of the collection whose key is an ID
/// written in decimal, with that entry's value.
pub proof fn lemma_listing_holds_entry(m: Entries, coll: Seq<char>, v: Seq<(u64, Seq<char>)>, id: u64)
    requires
        listed_by_id(m, coll, v),
        m.contains_key((coll, spec_decimal(id as nat))),
    ensures
        exists|i: int| 0 <= i < v.len() && v[i] == (id, m[(coll, spec_decimal(id as nat))]),
{
    let pairs = choose|pairs: Seq<(Seq<char>, Seq<char>)>|
        #[trigger] lists_collection(m, coll, pairs) && all_keys_parse(pairs) && v == parsed_keys(pairs);
    let key = spec_decimal(id as nat);
    assert(m.contains_key((coll, key)));
    let i = choose|i: int| 0 <= i < pairs.len() && pairs[i].0 == key;
    assert(entry(m, coll, pairs[i].0) == Some(pairs[i].1));
    lemma_parse_decimal_u64(id);
    assert(v[i] == (id, m[(coll, key)]));
}

} // verus!
