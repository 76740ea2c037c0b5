//! Error-message normalisation and the peer cache behind folder resolution.

use std::collections::HashMap;
use vstd::prelude::*;
use crate::text::{
    chars_of, contains_spec, contains_str, find_chars, find_spec, i64_to_string, int_decimal,
    lemma_find, matches_at, nat_decimal, parse_i64, parse_i64_spec, string_from_chars,
};

verus! {

/// The number of seconds in a `FLOOD_WAIT` error text: the integer between
/// the first `"(value: "` and the next `")"` after it, when it parses as an `i64`.
pub open spec fn flood_wait_seconds(err: Seq<char>) -> Option<i64> {
    match find_spec(err, "(value: "@) {
        Some(start) => {
            let rest = err.skip(start + "(value: "@.len());
            match find_spec(rest, ")"@) {
                Some(end) => parse_i64_spec(rest.take(end)),
                None => None,
            }
        },
        None => None,
    }
}

/// The message that the frontend receives for an error text: a rate-limit
/// error becomes `FLOOD_WAIT_<seconds>` (60 when the seconds cannot be read),
/// any other error is passed through unchanged.
pub open spec fn map_error_spec(err: Seq<char>) -> Seq<char> {
    if contains_spec(err, "FLOOD_WAIT"@) {
        match flood_wait_seconds(err) {
            Some(n) => "FLOOD_WAIT_"@ + int_decimal(n as int),
            None => "FLOOD_WAIT_60"@,
        }
    } else {
        err
    }
}

/// An error text without `FLOOD_WAIT` reaches the frontend unchanged; one
/// with it always becomes `FLOOD_WAIT_` followed by the seconds to wait,
/// which are 60 when the text gives none that can be read.
pub proof fn law_error_messages(err: Seq<char>)
    ensures
        !contains_spec(err, "FLOOD_WAIT"@) ==> map_error_spec(err) == err,
        contains_spec(err, "FLOOD_WAIT"@) ==> map_error_spec(err).len() > 11
            && map_error_spec(err).take(11) == "FLOOD_WAIT_"@,
        contains_spec(err, "FLOOD_WAIT"@) && flood_wait_seconds(err) is None ==> map_error_spec(err)
            == "FLOOD_WAIT_60"@,
{
    reveal_strlit("FLOOD_WAIT_");
    reveal_strlit("FLOOD_WAIT_60");
    if contains_spec(err, "FLOOD_WAIT"@) {
        match flood_wait_seconds(err) {
            Some(n) => {
                let d = int_decimal(n as int);
                lemma_decimal_not_empty(n as int);
                assert(("FLOOD_WAIT_"@ + d).take(11) =~= "FLOOD_WAIT_"@);
            },
            None => {
                assert("FLOOD_WAIT_60"@.take(11) =~= "FLOOD_WAIT_"@);
            },
        }
    }
}

proof fn lemma_decimal_not_empty(n: int)
    ensures
        int_decimal(n).len() > 0,
{
    if n < 0 {
        assert(int_decimal(n) == seq!['-'] + nat_decimal((-n) as nat));
    } else {
        lemma_nat_decimal_not_empty(n as nat);
    }
}

proof fn lemma_nat_decimal_not_empty(n: nat)
    ensures
        nat_decimal(n).len() > 0,
    decreases n,
{
    if n >= 10 {
        lemma_nat_decimal_not_empty(n / 10);
    }
}

/// Normalises an error text (the `Display` rendering of an error) for the frontend.
pub fn map_error(e: &str) -> (res: String)
    ensures
        res@ == map_error_spec(e@),
{
    let err = chars_of(e);
    if !contains_str(e, "FLOOD_WAIT") {
        return string_from_chars(&err);
    }
    let open_pat = chars_of("(value: ");
    let close_pat = chars_of(")");
    proof {
        lemma_find(err@, open_pat@);
    }
    match find_chars(&err, &open_pat) {
        Some(start) => {
            assert(matches_at(err@, open_pat@, start as int));
            assert(start + open_pat@.len() <= err@.len());
            assert(err@.len() == err.len());
            let from = start + open_pat.len();
            let mut rest: Vec<char> = Vec::new();
            let mut i: usize = from;
            while i < err.len()
                invariant
                    from <= i <= err.len(),
                    rest@ == err@.subrange(from as int, i as int),
                decreases err.len() - i,
            {
                rest.push(err[i]);
                i += 1;
                assert(rest@ =~= err@.subrange(from as int, i as int));
            }
            assert(rest@ =~= err@.skip(from as int));
            proof {
                lemma_find(rest@, close_pat@);
            }
            match find_chars(&rest, &close_pat) {
                Some(end) => {
                    assert(matches_at(rest@, close_pat@, end as int));
                    let mut digits: Vec<char> = Vec::new();
                    let mut j: usize = 0;
                    while j < end
                        invariant
                            j <= end,
                            end <= rest.len(),
                            digits@ == rest@.take(j as int),
                        decreases end - j,
                    {
                        digits.push(rest[j]);
                        j += 1;
                        assert(digits@ =~= rest@.take(j as int));
                    }
                    match parse_i64(&digits) {
                        Some(n) => {
                            let mut out = String::from_str("FLOOD_WAIT_");
                            let num = i64_to_string(n);
                            out.append(num.as_str());
                            out
                        },
                        None => String::from_str("FLOOD_WAIT_60"),
                    }
                },
                None => String::from_str("FLOOD_WAIT_60"),
            }
        },
        None => String::from_str("FLOOD_WAIT_60"),
    }
}


/// Body of the frontend's log request.
pub struct LogPayload {
    pub message: String,
}

/// What the handlers know of a Telegram peer (a dialog's other side).
pub enum PeerInfo {
    /// A channel: the kind of peer that a drive folder is.
    Channel { id: i64, access_hash: Option<i64>, title: String },
    /// A user (the own account's "Saved Messages" among them).
    User { id: i64 },
    /// A basic group.
    Group,
}

/// The id under which a peer is cached: channels and users only.
pub open spec fn peer_key_spec(p: PeerInfo) -> Option<i64> {
    match p {
        PeerInfo::Channel { id, .. } => Some(id),
        PeerInfo::User { id } => Some(id),
        PeerInfo::Group => None,
    }
}

/// The id under which a peer is cached.
pub fn peer_key(p: &PeerInfo) -> (res: Option<i64>)
    ensures
        res == peer_key_spec(*p),
{
    match p {
        PeerInfo::Channel { id, .. } => Some(*id),
        PeerInfo::User { id } => Some(*id),
        PeerInfo::Group => None,
    }
}

/// The cache after a dialog whose peer has the given key was seen.
pub open spec fn record_spec<P>(m: Map<i64, P>, key: Option<i64>, peer: P) -> Map<i64, P> {
    match key {
        Some(k) => m.insert(k, peer),
        None => m,
    }
}

/// Peers already seen, by id, so that a folder is found without listing
/// every dialog again.
pub struct PeerCache<P> {
    entries: HashMap<i64, P>,
}

impl<P> View for PeerCache<P> {
    type V = Map<i64, P>;

    closed spec fn view(&self) -> Map<i64, P> {
        self.entries@
    }
}

impl<P> PeerCache<P> {
    /// An empty cache.
    pub fn new() -> (res: Self)
        ensures
            res@ == Map::<i64, P>::empty(),
    {
        PeerCache { entries: HashMap::new() }
    }

    /// The cached peer of `id`, if any.
    pub fn get(&self, id: i64) -> (res: Option<&P>)
        ensures
            match res {
                Some(p) => self@.contains_key(id) && *p == self@[id],
                None => !self@.contains_key(id),
            },
    {
        broadcast use vstd::std_specs::hash::group_hash_axioms;

        self.entries.get(&id)
    }

    /// Caches a peer under `id`, replacing what was cached there.
    pub fn insert(&mut self, id: i64, peer: P)
        ensures
            final(self)@ == old(self)@.insert(id, peer),
    {
        broadcast use vstd::std_specs::hash::group_hash_axioms;

        self.entries.insert(id, peer);
    }

    /// Forgets the peer cached under `id` (a deleted folder).
    pub fn remove(&mut self, id: i64)
        ensures
            final(self)@ == old(self)@.remove(id),
    {
        broadcast use vstd::std_specs::hash::group_hash_axioms;

        self.entries.remove(&id);
    }

    /// Forgets every peer (on logout).
    pub fn clear(&mut self)
        ensures
            final(self)@ == Map::<i64, P>::empty(),
    {
        self.entries.clear();
    }

    /// Whether nothing is cached (the cache still has to be warmed).
    pub fn is_empty(&self) -> (res: bool)
        ensures
            res == (self@.dom().len() == 0),
    {
        broadcast use vstd::std_specs::hash::group_hash_axioms;
        broadcast use vstd::map_lib::group_map_properties;
        broadcast use vstd::set_lib::group_set_properties;

        let r = self.entries.is_empty();
        proof {
            if !r {
                let k = self@.dom().choose();
                assert(self@.dom().contains(k));
            }
        }
        r
    }

    /// Records a peer met while listing dialogs: it is cached under its key
    /// (if it has one), and the answer says whether it is the peer looked for.
    pub fn record_dialog(&mut self, key: Option<i64>, peer: P, target: i64) -> (found: bool)
        ensures
            final(self)@ == record_spec(old(self)@, key, peer),
            found == (key == Some(target)),
    {
        match key {
            Some(k) => {
                self.insert(k, peer);
                k == target
            },
            None => false,
        }
    }
}

/// Looking a folder up right after recording its dialog finds that dialog's peer.
pub proof fn law_lookup_after_record<P>(m: Map<i64, P>, key: i64, peer: P)
    ensures
        record_spec(m, Some(key), peer).contains_key(key),
        record_spec(m, Some(key), peer)[key] == peer,
{
}

/// Recording a dialog leaves every other cached folder as it was.
pub proof fn law_record_keeps_others<P>(m: Map<i64, P>, key: Option<i64>, peer: P, other: i64)
    requires
        key != Some(other),
    ensures
        record_spec(m, key, peer).contains_key(other) == m.contains_key(other),
        m.contains_key(other) ==> record_spec(m, key, peer)[other] == m[other],
{
}

/// The refusal text for a folder that no dialog matches.
pub open spec fn folder_not_found_spec(fid: i64) -> Seq<char> {
    "Folder/Chat "@ + int_decimal(fid as int) + " not found"@
}

/// The refusal text for a folder that no dialog matches.
pub fn folder_not_found(fid: i64) -> (res: String)
    ensures
        res@ == folder_not_found_spec(fid),
{
    let mut s = String::from_str("Folder/Chat ");
    let n = i64_to_string(fid);
    s.append(n.as_str());
    s.append(" not found");
    s
}

/// The directory that holds the session and the caches: `DATA_DIR` when it
/// is set; otherwise `/app/data` inside a container, else the system's
/// application-data directory for the drive, and `/app/data` when the system
/// has none.
pub fn data_dir(env_value: Option<String>, in_container: bool, system_dir: Option<String>) -> (res: String)
    ensures
        res@ == match env_value {
            Some(v) => v@,
            None => if in_container {
                "/app/data"@
            } else {
                match system_dir {
                    Some(d) => d@,
                    None => "/app/data"@,
                }
            },
        },
{
    match env_value {
        Some(v) => v,
        None => if in_container {
            String::from_str("/app/data")
        } else {
            match system_dir {
                Some(d) => d,
                None => String::from_str("/app/data"),
            }
        },
    }
}

} // verus!
