//! Volatile keyed storage: the draft registries and the published-proposal
//! registry.
//!
//! Each registry maps a user name to its value and lives only as long as
//! the process.  The backing table is a `hashbrown` map held behind a
//! small trusted boundary: the two map types below are opaque to the
//! verifier, and the wrapper functions state what each map operation does
//! to the map's contents.  Everything above the wrappers is verified.

use vstd::prelude::*;

use crate::keyboards::Keyboard;

verus! {

/// One captured chat message: where it lives, what it said, and the
/// keyboard attached to it.
#[derive(Debug, Clone)]
pub struct TgMessage {
    pub chat_id: i64,
    pub message_id: i32,
    pub text: String,
    pub keyboard: Option<Keyboard>,
}

/// One completed proposal, parsed out of a filled draft at submit time.
#[derive(Debug, Clone)]
pub struct Proposal {
    pub title: String,
    pub description: String,
    pub starting_date: String,
    pub expiration_date: String,
    pub vote: u64,
}

/// The empty draft registry contents.
pub open spec fn empty_drafts() -> Map<Seq<char>, TgMessage> {
    Map::empty()
}

/// The empty proposal registry contents.
pub open spec fn empty_proposals() -> Map<Seq<char>, Seq<Proposal>> {
    Map::empty()
}

/// A table from user names to captured messages.  Opaque to the verifier:
/// hashbrown's map cannot be declared here (its allocator type parameter
/// is bound by a trait the crate does not export), so the whole struct is
/// trusted and its contents are named by [`draft_map_contents`].
#[verifier::external_body]
pub struct DraftMap {
    inner: hashbrown::HashMap<String, TgMessage>,
}

/// What a [`DraftMap`] holds, keyed by the characters of the user name.
pub uninterp spec fn draft_map_contents(m: DraftMap) -> Map<Seq<char>, TgMessage>;

/// Relies on hashbrown::HashMap::new: a fresh map holds nothing.
#[verifier::external_body]
fn draft_map_new() -> (m: DraftMap)
    ensures
        draft_map_contents(m) == empty_drafts(),
{
    DraftMap { inner: hashbrown::HashMap::new() }
}

/// Relies on hashbrown::HashMap::insert with String keys: an unconditional
/// upsert of exactly the given key.
#[verifier::external_body]
fn draft_map_insert(m: &mut DraftMap, k: String, v: TgMessage)
    ensures
        draft_map_contents(*final(m)) == draft_map_contents(*old(m)).insert(k@, v),
{
    m.inner.insert(k, v);
}

/// Relies on hashbrown::HashMap::get with String keys, cloning what it
/// finds; the clone copies every field.
#[verifier::external_body]
fn draft_map_get(m: &DraftMap, k: &str) -> (r: Option<TgMessage>)
    ensures
        r == if draft_map_contents(*m).contains_key(k@) {
            Option::Some(draft_map_contents(*m)[k@])
        } else {
            Option::None::<TgMessage>
        },
{
    m.inner.get(k).cloned()
}

/// Relies on hashbrown::HashMap::remove with String keys: takes out
/// exactly the given key and returns what was under it.
#[verifier::external_body]
fn draft_map_remove(m: &mut DraftMap, k: &str) -> (r: Option<TgMessage>)
    ensures
        draft_map_contents(*final(m)) == draft_map_contents(*old(m)).remove(k@),
        r == if draft_map_contents(*old(m)).contains_key(k@) {
            Option::Some(draft_map_contents(*old(m))[k@])
        } else {
            Option::None::<TgMessage>
        },
{
    m.inner.remove(k)
}

/// Relies on hashbrown::HashMap::clear: afterwards the map holds nothing.
#[verifier::external_body]
fn draft_map_clear(m: &mut DraftMap)
    ensures
        draft_map_contents(*final(m)) == empty_drafts(),
{
    m.inner.clear();
}

/// A table from user names to lists of proposals.  Opaque to the verifier
/// for the same reason as [`DraftMap`]; its contents are named by
/// [`proposal_map_contents`].
#[verifier::external_body]
pub struct ProposalListMap {
    inner: hashbrown::HashMap<String, Vec<Proposal>>,
}

/// What a [`ProposalListMap`] holds: per user name, the stored proposals
/// in insertion order.
pub uninterp spec fn proposal_map_contents(m: ProposalListMap) -> Map<Seq<char>, Seq<Proposal>>;

/// Relies on hashbrown::HashMap::new: a fresh map holds nothing.
#[verifier::external_body]
fn proposal_map_new() -> (m: ProposalListMap)
    ensures
        proposal_map_contents(m) == empty_proposals(),
{
    ProposalListMap { inner: hashbrown::HashMap::new() }
}

/// Relies on hashbrown::HashMap::insert with String keys: an unconditional
/// upsert of exactly the given key.
#[verifier::external_body]
fn proposal_map_insert(m: &mut ProposalListMap, k: String, v: Vec<Proposal>)
    ensures
        proposal_map_contents(*final(m)) == proposal_map_contents(*old(m)).insert(k@, v@),
{
    m.inner.insert(k, v);
}

/// Relies on hashbrown::HashMap::get with String keys, cloning what it
/// finds; the clone copies the list element by element, each element field
/// by field.
#[verifier::external_body]
fn proposal_map_get(m: &ProposalListMap, k: &str) -> (r: Option<Vec<Proposal>>)
    ensures
        match r {
            Option::Some(v) => proposal_map_contents(*m).contains_key(k@) && v@
                == proposal_map_contents(*m)[k@],
            Option::None => !proposal_map_contents(*m).contains_key(k@),
        },
{
    m.inner.get(k).cloned()
}

/// Relies on hashbrown::HashMap::clear: afterwards the map holds nothing.
#[verifier::external_body]
fn proposal_map_clear(m: &mut ProposalListMap)
    ensures
        proposal_map_contents(*final(m)) == empty_proposals(),
{
    m.inner.clear();
}

/// A volatile store of captured messages, one per user name.
pub trait TgMessageStorage: Sized {
    /// What the store holds, keyed by the characters of the user name.
    spec fn contents(&self) -> Map<Seq<char>, TgMessage>;

    /// A fresh, empty store.
    fn new() -> (s: Self)
        ensures
            s.contents() == empty_drafts(),
    ;

    /// Unconditional upsert: afterwards exactly `user_name` maps to
    /// `message`; every other entry is untouched.
    fn insert(&mut self, user_name: String, message: TgMessage)
        ensures
            final(self).contents() == old(self).contents().insert(user_name@, message),
    ;

    /// The current entry for `user_name`, if any.
    fn get(&self, user_name: String) -> (r: Option<TgMessage>)
        ensures
            r == if self.contents().contains_key(user_name@) {
                Option::Some(self.contents()[user_name@])
            } else {
                Option::None::<TgMessage>
            },
    ;

    /// Removes and returns the entry for `user_name`, if any.
    fn remove(&mut self, user_name: String) -> (r: Option<TgMessage>)
        ensures
            final(self).contents() == old(self).contents().remove(user_name@),
            r == if old(self).contents().contains_key(user_name@) {
                Option::Some(old(self).contents()[user_name@])
            } else {
                Option::None::<TgMessage>
            },
    ;

    /// Empties the store.
    fn delete_all(&mut self)
        ensures
            final(self).contents() == empty_drafts(),
    ;
}

/// A volatile store of published proposals, in insertion order per user
/// name.
pub trait TgProposalStorage: Sized {
    /// What the store holds: per user name, the proposals in insertion
    /// order.
    spec fn contents(&self) -> Map<Seq<char>, Seq<Proposal>>;

    /// A fresh, empty store.
    fn new() -> (s: Self)
        ensures
            s.contents() == empty_proposals(),
    ;

    /// Appends `proposal` to `user_name`'s list, starting one where none
    /// exists; every other entry is untouched.
    fn insert(&mut self, user_name: String, proposal: Proposal)
        ensures
            final(self).contents() == old(self).contents().insert(
                user_name@,
                (if old(self).contents().contains_key(user_name@) {
                    old(self).contents()[user_name@]
                } else {
                    Seq::<Proposal>::empty()
                }).push(proposal),
            ),
    ;

    /// A copy of `user_name`'s list, if any proposal was ever stored for
    /// it.
    fn get(&self, user_name: String) -> (r: Option<Vec<Proposal>>)
        ensures
            match r {
                Option::Some(v) => self.contents().contains_key(user_name@) && v@
                    == self.contents()[user_name@],
                Option::None => !self.contents().contains_key(user_name@),
            },
    ;

    /// Empties the store.
    fn delete_all(&mut self)
        ensures
            final(self).contents() == empty_proposals(),
    ;
}

/// The registry of main-menu messages, one per user name.
pub struct MainMenuStorage {
    map: DraftMap,
}

impl TgMessageStorage for MainMenuStorage {
    closed spec fn contents(&self) -> Map<Seq<char>, TgMessage> {
        draft_map_contents(self.map)
    }

    fn new() -> Self {
        MainMenuStorage { map: draft_map_new() }
    }

    fn insert(&mut self, user_name: String, message: TgMessage) {
        draft_map_insert(&mut self.map, user_name, message);
    }

    fn get(&self, user_name: String) -> Option<TgMessage> {
        draft_map_get(&self.map, user_name.as_str())
    }

    fn remove(&mut self, user_name: String) -> Option<TgMessage> {
        draft_map_remove(&mut self.map, user_name.as_str())
    }

    fn delete_all(&mut self) {
        draft_map_clear(&mut self.map);
    }
}

/// The registry of open draft messages, one per user name: the single
/// message the authoring conversation edits in place.
pub struct ProposalMenuStorage {
    map: DraftMap,
}

impl TgMessageStorage for ProposalMenuStorage {
    closed spec fn contents(&self) -> Map<Seq<char>, TgMessage> {
        draft_map_contents(self.map)
    }

    fn new() -> Self {
        ProposalMenuStorage { map: draft_map_new() }
    }

    fn insert(&mut self, user_name: String, message: TgMessage) {
        draft_map_insert(&mut self.map, user_name, message);
    }

    fn get(&self, user_name: String) -> Option<TgMessage> {
        draft_map_get(&self.map, user_name.as_str())
    }

    fn remove(&mut self, user_name: String) -> Option<TgMessage> {
        draft_map_remove(&mut self.map, user_name.as_str())
    }

    fn delete_all(&mut self) {
        draft_map_clear(&mut self.map);
    }
}

/// The registry of published proposals.
pub struct ProposalStorage {
    map: ProposalListMap,
}

impl TgProposalStorage for ProposalStorage {
    closed spec fn contents(&self) -> Map<Seq<char>, Seq<Proposal>> {
        proposal_map_contents(self.map)
    }

    fn new() -> Self {
        ProposalStorage { map: proposal_map_new() }
    }

    fn insert(&mut self, user_name: String, proposal: Proposal) {
        let current = proposal_map_get(&self.map, user_name.as_str());
        let mut list = match current {
            Some(v) => v,
            None => Vec::new(),
        };
        list.push(proposal);
        proposal_map_insert(&mut self.map, user_name, list);
    }

    fn get(&self, user_name: String) -> Option<Vec<Proposal>> {
        proposal_map_get(&self.map, user_name.as_str())
    }

    fn delete_all(&mut self) {
        proposal_map_clear(&mut self.map);
    }
}

/// Draft isolation: with distinct keys, writing one user's entry fixes
/// exactly that entry — the other user's entry, and every unrelated entry,
/// reads as before.
pub proof fn lemma_draft_isolation(
    m: Map<Seq<char>, TgMessage>,
    k1: Seq<char>,
    v1: TgMessage,
    k2: Seq<char>,
    v2: TgMessage,
)
    requires
        k1 != k2,
    ensures
        m.insert(k1, v1).insert(k2, v2)[k1] == v1,
        m.insert(k1, v1).insert(k2, v2)[k2] == v2,
        m.insert(k1, v1)[k1] == v1,
        m.contains_key(k2) ==> m.insert(k1, v1)[k2] == m[k2],
        forall|k: Seq<char>|
            m.contains_key(k) && k != k1 && k != k2 ==> m.insert(k1, v1).insert(k2, v2)[k] == m[k],
{
}

} // verus!
