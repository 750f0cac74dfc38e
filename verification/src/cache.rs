//! The translation cache: what is stored for a request, and an in-memory store.
//!
//! A cache is a map from cache keys to entries. Looking a request up returns
//! the translated text of its entry and stamps the entry's access time; storing
//! replaces whatever stood under the key.

use vstd::prelude::*;
use vstd::string::*;
use crate::name_map::NameMap;
use crate::text::text_of;
use crate::translation::client::{
    cache_key_of, prompt_hash_text, TranslationRequest, TranslationRequestView,
};

verus! {

/// What is stored for one translation: the key, the translated text, and the
/// fields of the request for inspection.
#[derive(Debug, Clone)]
pub struct CacheRecord {
    pub cache_key: String,
    pub source_text: String,
    pub translated_text: String,
    pub target_language: String,
    pub model: String,
    pub endpoint: String,
    pub prompt_hash: String,
}

/// A cache record as a mathematical value.
pub struct CacheRecordView {
    pub cache_key: Seq<char>,
    pub source_text: Seq<char>,
    pub translated_text: Seq<char>,
    pub target_language: Seq<char>,
    pub model: Seq<char>,
    pub endpoint: Seq<char>,
    pub prompt_hash: Seq<char>,
}

impl View for CacheRecord {
    type V = CacheRecordView;

    open spec fn view(&self) -> CacheRecordView {
        CacheRecordView {
            cache_key: self.cache_key@,
            source_text: self.source_text@,
            translated_text: self.translated_text@,
            target_language: self.target_language@,
            model: self.model@,
            endpoint: self.endpoint@,
            prompt_hash: self.prompt_hash@,
        }
    }
}

/// The record of a request and its translation.
pub open spec fn record_of(request: TranslationRequestView, translated_text: Seq<char>) -> CacheRecordView {
    CacheRecordView {
        cache_key: cache_key_of(request),
        source_text: request.source_text,
        translated_text,
        target_language: request.target_language,
        model: request.model,
        endpoint: request.endpoint,
        prompt_hash: prompt_hash_text(),
    }
}

impl CacheRecord {
    /// Makes the record of a request and its translation.
    pub fn new(request: &TranslationRequest, translated_text: &str) -> (record: Self)
        ensures
            record@ == record_of(request@, translated_text@),
    {
        CacheRecord {
            cache_key: request.cache_key(),
            source_text: request.source_text.clone(),
            translated_text: translated_text.to_string(),
            target_language: request.target_language.clone(),
            model: request.model.clone(),
            endpoint: request.endpoint.clone(),
            prompt_hash: TranslationRequest::prompt_hash(),
        }
    }
}

/// A stored record with the times at which it was created and last read.
#[derive(Debug, Clone)]
pub struct CacheEntry {
    pub record: CacheRecord,
    pub created_at: u64,
    pub accessed_at: u64,
}

/// A stored entry as a mathematical value.
pub struct CacheEntryView {
    pub record: CacheRecordView,
    pub created_at: u64,
    pub accessed_at: u64,
}

impl View for CacheEntry {
    type V = CacheEntryView;

    open spec fn view(&self) -> CacheEntryView {
        CacheEntryView {
            record: self.record@,
            created_at: self.created_at,
            accessed_at: self.accessed_at,
        }
    }
}

/// A translation cache held in memory.
#[derive(Debug, Clone)]
pub struct CacheManager {
    entries: NameMap<CacheEntry>,
}

impl View for CacheManager {
    type V = Map<Seq<char>, CacheEntryView>;

    closed spec fn view(&self) -> Map<Seq<char>, CacheEntryView> {
        Map::new(
            |key: Seq<char>| self.entries@.contains_key(key),
            |key: Seq<char>| self.entries@[key]@,
        )
    }
}

impl CacheManager {
    /// An empty cache.
    pub fn new() -> (cache: Self)
        ensures
            cache@ == Map::<Seq<char>, CacheEntryView>::empty(),
    {
        let cache = CacheManager { entries: NameMap::new() };
        assert(cache@ =~= Map::<Seq<char>, CacheEntryView>::empty());
        cache
    }

    /// Looks a request up at time `now`.
    ///
    /// A hit returns the translated text and stamps the entry's access time. A
    /// miss changes nothing.
    pub fn get(&mut self, request: &TranslationRequest, now: u64) -> (cached: Option<String>)
        ensures
            old(self)@.contains_key(cache_key_of(request@)) ==> {
                let entry = old(self)@[cache_key_of(request@)];
                &&& text_of(cached) == Some(entry.record.translated_text)
                &&& final(self)@ == old(self)@.insert(
                    cache_key_of(request@),
                    CacheEntryView { accessed_at: now, ..entry },
                )
            },
            !old(self)@.contains_key(cache_key_of(request@)) ==> cached is None && final(self)@
                == old(self)@,
    {
        let key = request.cache_key();
        let ghost before = self@;
        match self.entries.remove(key.as_str()) {
            Some(entry) => {
                let text = entry.record.translated_text.clone();
                let stamped = CacheEntry {
                    record: entry.record,
                    created_at: entry.created_at,
                    accessed_at: now,
                };
                self.entries.insert(key, stamped);
                assert(self@ =~= before.insert(
                    cache_key_of(request@),
                    CacheEntryView { accessed_at: now, ..before[cache_key_of(request@)] },
                ));
                Some(text)
            },
            None => {
                assert(self@ =~= before);
                None
            },
        }
    }

    /// Stores the translation of a request at time `now`, in place of any
    /// entry that stood under the request's key.
    pub fn put(&mut self, request: &TranslationRequest, translated_text: &str, now: u64)
        ensures
            final(self)@ == old(self)@.insert(
                cache_key_of(request@),
                CacheEntryView {
                    record: record_of(request@, translated_text@),
                    created_at: now,
                    accessed_at: now,
                },
            ),
    {
        let ghost before = self@;
        let record = CacheRecord::new(request, translated_text);
        let key = record.cache_key.clone();
        self.entries.insert(key, CacheEntry { record, created_at: now, accessed_at: now });
        assert(self@ =~= before.insert(
            cache_key_of(request@),
            CacheEntryView {
                record: record_of(request@, translated_text@),
                created_at: now,
                accessed_at: now,
            },
        ));
    }
}

/// A stored translation is found again: after `put`, the same request reads
/// back the stored text, whatever the cache held before.
pub proof fn lemma_put_then_get(
    before: Map<Seq<char>, CacheEntryView>,
    request: TranslationRequestView,
    translated_text: Seq<char>,
    now: u64,
)
    ensures
        ({
            let after = before.insert(
                cache_key_of(request),
                CacheEntryView {
                    record: record_of(request, translated_text),
                    created_at: now,
                    accessed_at: now,
                },
            );
            after.contains_key(cache_key_of(request)) && after[cache_key_of(
                request,
            )].record.translated_text == translated_text
        }),
{
}

} // verus!
