use vstd::prelude::*;
use crate::text::copy_opt_string;
use crate::rows::Keyed;

verus! {

/// A lexicon entry.
#[derive(Clone, Debug)]
pub struct EntryRow {
    pub id: String,
    pub lemma: String,
    pub pos: Option<String>,
    pub sort_key: Option<String>,
    pub lookup_key: Option<String>,
    pub notes_raw: Option<String>,
}

impl Keyed for EntryRow {
    open spec fn key(&self) -> Seq<char> {
        self.id@
    }

    fn key_of(&self) -> (k: &String) {
        &self.id
    }

    fn duplicate(&self) -> (r: Self) {
        EntryRow {
            id: self.id.clone(),
            lemma: self.lemma.clone(),
            pos: copy_opt_string(&self.pos),
            sort_key: copy_opt_string(&self.sort_key),
            lookup_key: copy_opt_string(&self.lookup_key),
            notes_raw: copy_opt_string(&self.notes_raw),
        }
    }
}

/// A sense of an entry.
#[derive(Clone, Debug)]
pub struct SenseRow {
    pub id: String,
    pub entry_id: String,
    pub gloss: Option<String>,
    pub usage_labels: Option<String>,
    pub notes_raw: Option<String>,
    pub source_id: String,
}

impl Keyed for SenseRow {
    open spec fn key(&self) -> Seq<char> {
        self.entry_id@
    }

    fn key_of(&self) -> (k: &String) {
        &self.entry_id
    }

    fn duplicate(&self) -> (r: Self) {
        SenseRow {
            id: self.id.clone(),
            entry_id: self.entry_id.clone(),
            gloss: copy_opt_string(&self.gloss),
            usage_labels: copy_opt_string(&self.usage_labels),
            notes_raw: copy_opt_string(&self.notes_raw),
            source_id: self.source_id.clone(),
        }
    }
}

/// An example of a sense.
#[derive(Clone, Debug)]
pub struct ExampleRow {
    pub id: String,
    pub sense_id: String,
    pub text: String,
    pub trans: Option<String>,
    pub source_id: String,
}

impl Keyed for ExampleRow {
    open spec fn key(&self) -> Seq<char> {
        self.sense_id@
    }

    fn key_of(&self) -> (k: &String) {
        &self.sense_id
    }

    fn duplicate(&self) -> (r: Self) {
        ExampleRow {
            id: self.id.clone(),
            sense_id: self.sense_id.clone(),
            text: self.text.clone(),
            trans: copy_opt_string(&self.trans),
            source_id: self.source_id.clone(),
        }
    }
}

/// An etymology note of an entry.
#[derive(Clone, Debug)]
pub struct EtyRow {
    pub id: String,
    pub entry_id: String,
    pub src_lang: Option<String>,
    pub value: Option<String>,
    pub ref_: Option<String>,
    pub source_id: String,
}

impl Keyed for EtyRow {
    open spec fn key(&self) -> Seq<char> {
        self.entry_id@
    }

    fn key_of(&self) -> (k: &String) {
        &self.entry_id
    }

    fn duplicate(&self) -> (r: Self) {
        EtyRow {
            id: self.id.clone(),
            entry_id: self.entry_id.clone(),
            src_lang: copy_opt_string(&self.src_lang),
            value: copy_opt_string(&self.value),
            ref_: copy_opt_string(&self.ref_),
            source_id: self.source_id.clone(),
        }
    }
}

/// A variant form of an entry.
#[derive(Clone, Debug)]
pub struct VariantRow {
    pub id: String,
    pub entry_id: String,
    pub form: String,
    pub vtype: Option<String>,
    pub dialect: Option<String>,
    pub note: Option<String>,
    pub source_id: String,
}

impl Keyed for VariantRow {
    open spec fn key(&self) -> Seq<char> {
        self.entry_id@
    }

    fn key_of(&self) -> (k: &String) {
        &self.entry_id
    }

    fn duplicate(&self) -> (r: Self) {
        VariantRow {
            id: self.id.clone(),
            entry_id: self.entry_id.clone(),
            form: self.form.clone(),
            vtype: copy_opt_string(&self.vtype),
            dialect: copy_opt_string(&self.dialect),
            note: copy_opt_string(&self.note),
            source_id: self.source_id.clone(),
        }
    }
}

/// Corpus frequency of an entry. `per_million_bits` holds the IEEE-754 bits of the
/// frequency per million tokens, which the library carries without reading.
#[derive(Clone, Debug)]
pub struct FreqRow {
    pub entry_id: String,
    pub lemma: String,
    pub rank: Option<i64>,
    pub count_tokens: Option<i64>,
    pub per_million_bits: Option<u64>,
    pub note: Option<String>,
    pub source_id: String,
}

impl Keyed for FreqRow {
    open spec fn key(&self) -> Seq<char> {
        self.entry_id@
    }

    fn key_of(&self) -> (k: &String) {
        &self.entry_id
    }

    fn duplicate(&self) -> (r: Self) {
        FreqRow {
            entry_id: self.entry_id.clone(),
            lemma: self.lemma.clone(),
            rank: self.rank,
            count_tokens: self.count_tokens,
            per_million_bits: self.per_million_bits,
            note: copy_opt_string(&self.note),
            source_id: self.source_id.clone(),
        }
    }
}

/// An entry with everything that the lexicon holds of it.
#[derive(Clone, Debug)]
pub struct LexEntryPayload {
    pub entry: EntryRow,
    pub senses: Vec<SenseRow>,
    pub examples: Vec<ExampleRow>,
    pub etymology: Vec<EtyRow>,
    pub variants: Vec<VariantRow>,
    pub freq: Option<FreqRow>,
}

/// A payload with its lists read as sequences.
pub struct LexEntryPayloadView {
    pub entry: EntryRow,
    pub senses: Seq<SenseRow>,
    pub examples: Seq<ExampleRow>,
    pub etymology: Seq<EtyRow>,
    pub variants: Seq<VariantRow>,
    pub freq: Option<FreqRow>,
}

impl View for LexEntryPayload {
    type V = LexEntryPayloadView;

    open spec fn view(&self) -> LexEntryPayloadView {
        LexEntryPayloadView {
            entry: self.entry,
            senses: self.senses@,
            examples: self.examples@,
            etymology: self.etymology@,
            variants: self.variants@,
            freq: self.freq,
        }
    }
}

/// The views of a list of payloads.
pub open spec fn payload_views(ps: Seq<LexEntryPayload>) -> Seq<LexEntryPayloadView> {
    ps.map_values(|p: LexEntryPayload| p@)
}

} // verus!
