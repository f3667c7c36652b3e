//! The search for a game's name: the operator's names first, then the store's.
use std::collections::HashMap;
use vstd::prelude::*;
use vstd::string::*;

use crate::names::NamesError;
use crate::protocol;
use crate::store;
use crate::store::StoreResponse;

verus! {

/// The names that the store gave, by application id.
pub struct NameCache {
    names: HashMap<u32, String>,
}

impl View for NameCache {
    type V = Map<u32, Seq<char>>;

    closed spec fn view(&self) -> Map<u32, Seq<char>> {
        self.names@.map_values(|name: String| name@)
    }
}

/// How far the search for a game's name has come.
#[derive(Debug)]
pub enum NameStep {
    /// The name is found.
    Known(String),
    /// Look among the names that the store gave before.
    AskCache,
    /// Ask the store.
    AskStore,
}

/// The name that the store's answer comes down to: the one it gave, or one that says that the game
/// is not known.
pub open spec fn store_name(app_id: u32, fetched: Option<Seq<char>>) -> Seq<char> {
    match fetched {
        Some(name) => name,
        None => store::unknown_game(app_id),
    }
}

/// The name that a game gets: the one that the operator set, else the one that the store gave
/// before, else the one that the store gives now.
pub open spec fn chosen_name(
    app_id: u32,
    set: Option<Seq<char>>,
    cache: Map<u32, Seq<char>>,
    fetched: Option<Seq<char>>,
) -> Seq<char> {
    match set {
        Some(name) => name,
        None => if cache.contains_key(app_id) {
            cache[app_id]
        } else {
            store_name(app_id, fetched)
        },
    }
}

/// The cache after an answer of the store: a name is kept, a failure is not.
pub open spec fn kept(
    cache: Map<u32, Seq<char>>,
    app_id: u32,
    fetched: Option<Seq<char>>,
) -> Map<u32, Seq<char>> {
    match fetched {
        Some(name) => cache.insert(app_id, name),
        None => cache,
    }
}

/// The store's answer, where it is a name.
pub open spec fn name_given(fetched: Result<String, String>) -> Option<Seq<char>> {
    match fetched {
        Ok(name) => Some(name@),
        Err(_) => None,
    }
}

impl NameStep {
    /// The name that the search ends with from here on, with this cache and this answer of the
    /// store.
    pub open spec fn outcome(
        self,
        app_id: u32,
        cache: Map<u32, Seq<char>>,
        fetched: Option<Seq<char>>,
    ) -> Seq<char> {
        match self {
            NameStep::Known(name) => name@,
            NameStep::AskCache => chosen_name(app_id, None, cache, fetched),
            NameStep::AskStore => store_name(app_id, fetched),
        }
    }
}

/// The name that the operator set, where the look-up found one.
pub open spec fn set_name(found: Result<Option<String>, NamesError>) -> Option<Seq<char>> {
    match found {
        Ok(name) => protocol::text_in(name),
        Err(_) => None,
    }
}

/// Goes on from the names that the operator set. A document that cannot be read counts as one
/// without the name.
pub fn after_override(found: Result<Option<String>, NamesError>) -> (step: NameStep)
    ensures
        match set_name(found) {
            Some(name) => step matches NameStep::Known(known) && known@ == name,
            None => step is AskCache,
        },
        step is AskCache || step is Known,
        step is Known <==> found is Ok && found->Ok_0 is Some,
        step matches NameStep::Known(known) ==> known@ == found->Ok_0->0@,
        forall|app_id: u32, cache: Map<u32, Seq<char>>, fetched: Option<Seq<char>>|
            #[trigger] step.outcome(app_id, cache, fetched) == chosen_name(
                app_id,
                set_name(found),
                cache,
                fetched,
            ),
{
    match found {
        Ok(Some(name)) => NameStep::Known(name),
        _ => NameStep::AskCache,
    }
}

impl NameCache {
    /// A cache without names.
    pub fn new() -> (cache: NameCache)
        ensures
            cache@ == Map::<u32, Seq<char>>::empty(),
    {
        let cache = NameCache { names: HashMap::new() };
        assert(cache@ =~= Map::<u32, Seq<char>>::empty());
        cache
    }

    /// Goes on from the names that the store gave before.
    pub fn after_cache(&self, app_id: u32) -> (step: NameStep)
        ensures
            if self@.contains_key(app_id) {
                step matches NameStep::Known(known) && known@ == self@[app_id]
            } else {
                step is AskStore
            },
            forall|fetched: Option<Seq<char>>|
                #[trigger] step.outcome(app_id, self@, fetched) == NameStep::AskCache.outcome(
                    app_id,
                    self@,
                    fetched,
                ),
    {
        broadcast use vstd::std_specs::hash::group_hash_axioms;

        match self.names.get(&app_id) {
            Some(name) => NameStep::Known(name.clone()),
            None => NameStep::AskStore,
        }
    }

    /// Goes on from the store's answer: a name is kept for the next time, a failure is not.
    pub fn after_fetch(&mut self, app_id: u32, fetched: Result<String, String>) -> (name: String)
        ensures
            name@ == store_name(app_id, name_given(fetched)),
            final(self)@ == kept(old(self)@, app_id, name_given(fetched)),
            match fetched {
                Ok(given) => name@ == given@ && final(self)@ == old(self)@.insert(app_id, given@),
                Err(_) => name@ == "未知游戏 ("@ + crate::text::decimal(app_id as nat) + ")"@
                    && final(self)@ == old(self)@,
            },
    {
        broadcast use vstd::std_specs::hash::group_hash_axioms;

        match fetched {
            Ok(given) => {
                self.names.insert(app_id, given.clone());
                assert(self@ =~= old(self)@.insert(app_id, given@));
                given
            },
            Err(_) => store::unknown_game_text(app_id),
        }
    }
}

/// The name that the store's reply gives, where it could be read at all.
pub fn fetched_name(entry: Option<StoreResponse>) -> (name: Result<String, String>)
    ensures
        match name {
            Ok(name) => store::name_in(entry) == Some(name@),
            Err(error) => store::name_in(entry) is None && error@ == "API 解析失败"@,
        },
        name is Ok <==> entry is Some && entry->0.success && entry->0.data is Some,
        name matches Ok(name) ==> name@ == entry->0.data->0.name@,
{
    match store::entry_name(entry) {
        Some(name) => Ok(name),
        None => Err("API 解析失败".to_owned()),
    }
}

/// A name that the store gave is found without asking it again, whatever it would answer then, and
/// no other game's name changes. A failure leaves the cache as it was, so that the store is asked
/// again.
pub proof fn lemma_store_asked_once(
    cache: Map<u32, Seq<char>>,
    app_id: u32,
    fetched: Option<Seq<char>>,
    fetched_later: Option<Seq<char>>,
    other: u32,
)
    ensures
        fetched matches Some(name) ==> chosen_name(
            app_id,
            None,
            kept(cache, app_id, fetched),
            fetched_later,
        ) == name,
        other != app_id ==> chosen_name(other, None, kept(cache, app_id, fetched), fetched_later)
            == chosen_name(other, None, cache, fetched_later),
        fetched is None ==> kept(cache, app_id, fetched) == cache,
{
}

/// A name that the operator set is shown whatever the store gave or gives.
pub proof fn lemma_operator_decides(
    app_id: u32,
    name: Seq<char>,
    cache: Map<u32, Seq<char>>,
    fetched: Option<Seq<char>>,
)
    ensures
        chosen_name(app_id, Some(name), cache, fetched) == name,
{
}

/// The name that counts is the operator's where there is one, else the one in the cache where there
/// is one, else the store's answer, each in full, else the text for a game that is not known.
pub proof fn lemma_name_that_counts(
    app_id: u32,
    set: Option<Seq<char>>,
    cache: Map<u32, Seq<char>>,
    fetched: Option<Seq<char>>,
)
    ensures
        set matches Some(name) ==> chosen_name(app_id, set, cache, fetched) == name,
        set is None && cache.contains_key(app_id) ==> chosen_name(app_id, set, cache, fetched)
            == cache[app_id],
        set is None && !cache.contains_key(app_id) ==> (fetched matches Some(name)
            ==> chosen_name(app_id, set, cache, fetched) == name),
        set is None && !cache.contains_key(app_id) && fetched is None ==> chosen_name(
            app_id,
            set,
            cache,
            fetched,
        ) == "未知游戏 ("@ + crate::text::decimal(app_id as nat) + ")"@,
{
}

/// What the cache holds after an answer: the name that was given, in full, under the id that was
/// asked for, and all that it held before; after a failure just what it held before.
pub proof fn lemma_cache_keeps_names(
    cache: Map<u32, Seq<char>>,
    app_id: u32,
    name: Seq<char>,
)
    ensures
        kept(cache, app_id, Some(name)) == cache.insert(app_id, name),
        kept(cache, app_id, None) == cache,
{
}

/// The store's answer and the operator's name are taken as they are, in full.
pub proof fn lemma_names_are_taken_in_full(name: String, message: String, error: NamesError)
    ensures
        name_given(Ok(name)) == Some(name@),
        name_given(Err(message)) is None,
        set_name(Ok(Some(name))) == Some(name@),
        set_name(Ok(None)) is None,
        set_name(Err(error)) is None,
{
}

} // verus!
