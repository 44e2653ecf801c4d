use vstd::prelude::*;
use crate::error::ApiError;
use crate::text::{decode_amp_entities, escape_amp, lemma_decode_escaped, lemma_decode_without_ampersand};
use crate::models::lex::{EntryRow, EtyRow, ExampleRow, FreqRow, LexEntryPayloadView, SenseRow, VariantRow};
use crate::routes::lex::{lemma_examples_of_senses_flatten, lemma_examples_of_senses_members, lex_payloads};
use crate::rows::{lemma_last_with_key_member, lemma_with_key_members};
use crate::models::term::{QueryEchoView, opt_view};
use crate::text::string_views;
use crate::routes::lex::{LexLookupView, LexQueryView, LexReplyView, LexStepView, entry_ids, lex_by_form, lex_by_key, lex_resume, sense_ids};
use crate::routes::term::{TermDbQueryView, first_ids, second_ids, term_ids};
use crate::models::term::TermQueryResponseView;
use crate::text::json_string_array;
use crate::routes::meta::{MetaDbInfoView, MetaFetch, MetaQuery, MetaReplyView, MetaStepView, info_or_unknown, meta_resume};
use crate::models::meta::SourceRow;
use crate::routes::validate::CheckQueryView;
use crate::routes::lex_batch::{LexBatchBody, LexBatchRunView, answers_every_key, batch_start, lex_batch_on_track, lex_batch_starts_on_track, lex_batch_stays_on_track, listed, LexBatchView, LexBatchStepView, batch_resume};
use crate::routes::params::{key_is_valid, lang_is_known, limit_is_valid, requested_limit};
use crate::config::{default_bind_addr, default_lex_db_path, default_term_db_path, read_only_url, setting_or};
use crate::routes::domains::{contains_pattern, entry_of, search_limit, vocab_lang, vocab_limit};
use crate::models::term::TermRow;
use crate::routes::term::{lemma_term_pairs_shape, pair_linked_to, term_pairs_from, TermLookupView, TermReplyView, TermStepView, term_resume, term_start};
use crate::routes::term::{any_target, kept_pair_ids, lemma_domain_pair_ids, lemma_plain_pair_ids, no_kept_target_is_earlier_irish, pair_ids, target_answers};
use crate::routes::term_batch::{BatchBody, TermBatchRunView, answers_every_term, term_batch_on_track, term_batch_start, term_batch_starts_on_track, term_batch_stays_on_track, TermBatchView, TermBatchStepView, term_batch_resume};
use crate::routes::validate::{CheckReplyView, CheckStepView, TermCheckView, check_feed, check_resume, check_start};
use crate::routes::term::{labels_left, some_label_answers, term_feed};
use crate::routes::term::{lemma_pair_made_of_rows_at, pair_made_of_rows};
use crate::routes::term::{irish_term_seen_before, labels_of, lemma_irish_domains};
use crate::rows::{Keyed, last_with_key, lemma_last_with_key_is_last, lemma_with_key_is_filter, seconds, with_key};

verus! {

/// The parameters are checked as documented. A key (a lemma, a form, a term,
/// a domain, a search text) is accepted when it is not empty and its UTF-8
/// encoding has at most 128 bytes. A limit defaults to 5 and is accepted from 1
/// to 50. The languages are `ga` and `en`. A refused parameter is answered
/// with 400 and its own message, a failed query with 500 and "db error".
pub proof fn parameters_are_checked_as_documented(key: Seq<char>, limit: Option<i64>, lang: Seq<char>, e: ApiError)
    ensures
        key_is_valid(key) <==> key.len() > 0 && vstd::utf8::encode_utf8(key).len() <= 128,
        requested_limit(None) == 5,
        limit matches Some(n) ==> requested_limit(limit) == n,
        limit_is_valid(requested_limit(limit)) <==> 1 <= requested_limit(limit) <= 50,
        lang_is_known(lang) <==> lang == "ga"@ || lang == "en"@,
        e.status_code() == 500 <==> e == ApiError::DbError,
        e.status_code() == 400 <==> e != ApiError::DbError,
        ApiError::InvalidLimit.reason() == "invalid limit"@,
        ApiError::InvalidKey.reason() == "invalid key"@,
        ApiError::InvalidLang.reason() == "invalid lang"@,
        ApiError::DbError.reason() == "db error"@,
{
}

/// The settings default as documented: `BIND_ADDR` to `127.0.0.1:5005`,
/// `LEX_DB_PATH` to `./data/lexicon.sqlite`, `TERM_DB_PATH` to
/// `./data/terminology.sqlite`; a setting that is given is used as it is. The
/// databases are opened read-only, as `sqlite:PATH?mode=ro`.
pub proof fn settings_default_as_documented(value: String, default: Seq<char>, path: Seq<char>)
    ensures
        setting_or(Some(value), default) == value@,
        setting_or(None, default) == default,
        default_bind_addr() == "127.0.0.1:5005"@,
        default_lex_db_path() == "./data/lexicon.sqlite"@,
        default_term_db_path() == "./data/terminology.sqlite"@,
        read_only_url(path) == "sqlite:"@ + path + "?mode=ro"@,
{
}

/// A domain search returns at most the limit named, 20 when none is, and never
/// more than 100; it looks for labels that contain the text, with `&amp;` read
/// as `&`. A vocabulary returns at most the limit named, 200 when none is, and
/// never more than 500; its language is the one named, Irish when none is; each
/// of its pairs is the row's Irish term, English term and part of speech, in
/// that order.
pub proof fn searches_and_vocabularies_as_documented(
    limit: Option<i64>,
    text: Seq<char>,
    lang: Option<String>,
    row: (String, String, Option<String>),
)
    ensures
        search_limit(limit) == (match limit {
            Some(n) => if n < 100 { n } else { 100 },
            None => 20,
        }),
        contains_pattern(text) == "%"@ + decode_amp_entities(text) + "%"@,
        vocab_limit(limit) == (match limit {
            Some(n) => if n < 500 { n } else { 500 },
            None => 200,
        }),
        vocab_lang(lang) == (match lang {
            Some(l) => l@,
            None => "ga"@,
        }),
        entry_of(row).ga == row.0,
        entry_of(row).en == row.1,
        entry_of(row).pos == row.2,
{
}

/// A lookup by key or by variant form asks the database only when the key and
/// the limit are acceptable, and then asks for exactly that key; otherwise it
/// answers at once with an error of status 400.
pub proof fn lex_lookup_refuses_bad_parameters_at_once(key: Seq<char>, limit: Option<i64>)
    ensures
        lex_by_key(key, limit).1 is Query <==> key_is_valid(key) && limit_is_valid(requested_limit(limit)),
        lex_by_form(key, limit).1 is Query <==> key_is_valid(key) && limit_is_valid(requested_limit(limit)),
        lex_by_key(key, limit).1 matches LexStepView::Done(r) ==> r matches Err(e) && e.status_code() == 400,
        lex_by_form(key, limit).1 matches LexStepView::Done(r) ==> r matches Err(e) && e.status_code() == 400,
        key_is_valid(key) && limit_is_valid(requested_limit(limit)) ==> lex_by_key(key, limit).1
            == LexStepView::Query(
            crate::routes::lex::LexQueryView::EntriesByLookupKey { key, limit: requested_limit(limit) },
        ),
{
}

/// A term lookup, and a validation, ask the database only when all
/// their parameters are acceptable; otherwise they answer at once with an error
/// of status 400.
pub proof fn term_requests_refuse_bad_parameters_at_once(echo: QueryEchoView, limit: Option<i64>)
    ensures
        term_start(echo, limit).1 is Query <==> key_is_valid(echo.term) && (echo.domain matches Some(
            d,
        ) ==> key_is_valid(d)) && limit_is_valid(requested_limit(limit)),
        term_start(echo, limit).1 matches TermStepView::Done(r) ==> r matches Err(e) && e.status_code()
            == 400,
        check_start(echo.term, echo.lang, echo.domain).1 is Query <==> key_is_valid(echo.term) && (
        echo.domain matches Some(d) ==> key_is_valid(d)) && lang_is_known(echo.lang),
        check_start(echo.term, echo.lang, echo.domain).1 matches CheckStepView::Done(r) ==> r matches Err(
            e,
        ) && e.status_code() == 400,
        term_start(echo, limit).1 is Query ==> term_start(echo, limit).1 == TermStepView::Query(
            crate::routes::term::TermDbQueryView::SourceTerms {
                lang: echo.lang,
                key: echo.term,
                limit: requested_limit(limit),
            },
        ),
{
}

/// Once a single lookup has asked the database, the only error it can end
/// with is `DbError`: its parameters were all checked before.
pub proof fn lookups_fail_later_only_on_the_database(
    lex: LexLookupView,
    lex_reply: LexReplyView,
    term: TermLookupView,
    term_reply: TermReplyView,
    check: TermCheckView,
    check_reply: CheckReplyView,
    meta: MetaFetch,
    meta_reply: MetaReplyView,
)
    ensures
        lex_resume(lex, lex_reply).1 matches LexStepView::Done(Err(e)) ==> e == ApiError::DbError,
        term_resume(term, term_reply).1 matches TermStepView::Done(Err(e)) ==> e == ApiError::DbError,
        check_resume(check, check_reply).1 matches CheckStepView::Done(Err(e)) ==> e == ApiError::DbError,
        meta_resume(meta, meta_reply).1 matches MetaStepView::Done(Err(e)) ==> e == ApiError::DbError,
{
}

/// Whatever state a request is in, a failed query ends it with `DbError`,
/// answered with status 500.
pub proof fn failed_query_is_answered_with_500(
    lex: LexLookupView,
    lex_batch: LexBatchView,
    term: TermLookupView,
    term_batch: TermBatchView,
    check: TermCheckView,
)
    ensures
        lex_resume(lex, LexReplyView::Failed).1 == LexStepView::Done(Err(ApiError::DbError)),
        batch_resume(lex_batch, LexReplyView::Failed).1 == LexBatchStepView::Done(Err(ApiError::DbError)),
        term_resume(term, TermReplyView::Failed).1 == TermStepView::Done(Err(ApiError::DbError)),
        term_batch_resume(term_batch, TermReplyView::Failed).1 == TermBatchStepView::Done(
            Err(ApiError::DbError),
        ),
        check_resume(check, CheckReplyView::Failed).1 == CheckStepView::Done(Err(ApiError::DbError)),
        ApiError::DbError.status_code() == 500,
{
}


/// Every payload holds the entry in the same place, and nothing but rows that
/// refer to that entry: senses, etymology, variants and frequency of the
/// entry, and examples of the payload's own senses, each one of the rows the
/// queries gave.
pub proof fn payloads_hold_only_rows_of_their_entry(
    entries: Seq<EntryRow>,
    senses: Seq<SenseRow>,
    examples: Seq<ExampleRow>,
    etymology: Seq<EtyRow>,
    variants: Seq<VariantRow>,
    freq: Seq<FreqRow>,
    i: int,
)
    requires
        0 <= i < entries.len(),
    ensures
        ({
            let ps = lex_payloads(entries, senses, examples, etymology, variants, freq);
            let p = ps[i];
            let id = entries[i].id@;
            &&& ps.len() == entries.len()
            &&& p.entry == entries[i]
            &&& forall|k: int| 0 <= k < p.senses.len() ==> (#[trigger] p.senses[k]).entry_id@ == id && senses.contains(p.senses[k])
            &&& forall|k: int| 0 <= k < p.etymology.len() ==> (#[trigger] p.etymology[k]).entry_id@ == id && etymology.contains(p.etymology[k])
            &&& forall|k: int| 0 <= k < p.variants.len() ==> (#[trigger] p.variants[k]).entry_id@ == id && variants.contains(p.variants[k])
            &&& forall|k: int| 0 <= k < p.examples.len() ==> examples.contains(#[trigger] p.examples[k])
                && exists|m: int| 0 <= m < p.senses.len() && p.senses[m].id@ == p.examples[k].sense_id@
            &&& p.freq matches Some(f) ==> f.entry_id@ == id && freq.contains(f)
        }),
{
    let id = entries[i].id@;
    lemma_with_key_members(senses, id);
    lemma_with_key_members(etymology, id);
    lemma_with_key_members(variants, id);
    lemma_last_with_key_member(freq, id);
    lemma_examples_of_senses_members(examples, crate::rows::with_key(senses, id));
}


/// Every payload is complete. The first entry with a given id gets every
/// sense, every etymology row and every variant row whose `entry_id` is that
/// id, each in the order in which the rows came; sense by sense, every
/// example whose `sense_id` is that sense's id; and the last frequency row of
/// the entry, or none where there is none. A later entry with the same id gets
/// none of these rows.
pub proof fn payloads_hold_every_row_of_their_entry(
    entries: Seq<EntryRow>,
    senses: Seq<SenseRow>,
    examples: Seq<ExampleRow>,
    etymology: Seq<EtyRow>,
    variants: Seq<VariantRow>,
    freq: Seq<FreqRow>,
    i: int,
)
    requires
        0 <= i < entries.len(),
    ensures
        ({
            let p = lex_payloads(entries, senses, examples, etymology, variants, freq)[i];
            let id = entries[i].id@;
            &&& p.entry == entries[i]
            &&& (forall|j: int| 0 <= j < i ==> (#[trigger] entries[j]).id@ != id) ==> {
                &&& p.senses == senses.filter(|r: SenseRow| r.entry_id@ == id)
                &&& p.etymology == etymology.filter(|r: EtyRow| r.entry_id@ == id)
                &&& p.variants == variants.filter(|r: VariantRow| r.entry_id@ == id)
                &&& p.examples == p.senses.map_values(
                    |s: SenseRow| examples.filter(|x: ExampleRow| x.sense_id@ == s.id@),
                ).flatten()
                &&& p.freq is None <==> forall|m: int| 0 <= m < freq.len() ==> (#[trigger] freq[m]).entry_id@ != id
                &&& p.freq matches Some(f) ==> exists|k: int|
                    0 <= k < freq.len() && #[trigger] freq[k] == f && f.entry_id@ == id && forall|m: int|
                        k < m < freq.len() ==> (#[trigger] freq[m]).entry_id@ != id
            }
            &&& (exists|j: int| 0 <= j < i && (#[trigger] entries[j]).id@ == id) ==> {
                &&& p.senses.len() == 0
                &&& p.examples.len() == 0
                &&& p.etymology.len() == 0
                &&& p.variants.len() == 0
                &&& p.freq is None
            }
        }),
{
    let id = entries[i].id@;
    let by_sense = |r: SenseRow| r.entry_id@ == id;
    let by_ety = |r: EtyRow| r.entry_id@ == id;
    let by_variant = |r: VariantRow| r.entry_id@ == id;
    lemma_with_key_is_filter(senses, id, by_sense);
    lemma_with_key_is_filter(etymology, id, by_ety);
    lemma_with_key_is_filter(variants, id, by_variant);
    lemma_examples_of_senses_flatten(examples, with_key(senses, id));
    lemma_last_with_key_is_last(freq, id);
    if exists|j: int| 0 <= j < i && (#[trigger] entries[j]).id@ == id {
        let j = choose|j: int| 0 <= j < i && (#[trigger] entries[j]).id@ == id;
        assert(entries[j].key() == entries[i].key());
    }
}


/// Term pairs: at most one per id pair; the English side never carries
/// domains; with a domain asked for, one of every pair's terms (its target
/// term, whose links were asked for) has a domain label that answers it.
pub proof fn term_pairs_respect_the_domain(
    pairs: Seq<(String, String)>,
    targets: Seq<TermRow>,
    sources: Seq<TermRow>,
    links: Seq<(String, String)>,
    domain: Option<Seq<char>>,
)
    ensures
        ({
            let r = term_pairs_from(pairs, targets, sources, links, domain, Seq::empty());
            &&& r.len() <= pairs.len()
            &&& forall|k: int| 0 <= k < r.len() ==> (#[trigger] r[k]).en.domains.len() == 0
            &&& domain matches Some(d) ==> forall|k: int| 0 <= k < r.len() ==> pair_linked_to(links, #[trigger] r[k], d)
        }),
{
    lemma_term_pairs_shape(pairs, targets, sources, links, domain, Seq::empty());
}


/// On the same rows, a term lookup within a domain gives the pairs that the
/// lookup without one gives, in the same order, less those whose target term
/// has no domain label that answers the domain: without a domain every pair
/// whose two rows were found is kept, and with one exactly those whose target
/// row answers it, compared by their (Irish, English) term ids. An Irish
/// term's labels are handed out once, so this holds as long as no kept
/// pair's target is the Irish term of an earlier kept pair.
pub proof fn domain_lookup_restricts_the_plain_one(
    pairs: Seq<(String, String)>,
    targets: Seq<TermRow>,
    sources: Seq<TermRow>,
    links: Seq<(String, String)>,
    domain: Seq<char>,
)
    requires
        no_kept_target_is_earlier_irish(pairs, targets, sources, target_answers(links, domain)),
    ensures
        pair_ids(term_pairs_from(pairs, targets, sources, links, None, Seq::empty()))
            == kept_pair_ids(pairs, targets, sources, any_target()),
        pair_ids(term_pairs_from(pairs, targets, sources, links, Some(domain), Seq::empty()))
            == kept_pair_ids(pairs, targets, sources, target_answers(links, domain)),
{
    lemma_plain_pair_ids(pairs, targets, sources, links, Seq::empty());
    lemma_domain_pair_ids(pairs, targets, sources, links, domain, Seq::empty());
}


/// The replies that a term lookup gets from a database that gives these rows:
/// the source terms, the pairs, the target terms, the domain links and the
/// source rows, in the order in which the lookup asks for them.
pub open spec fn lookup_replies(
    found: Seq<TermRow>,
    pairs: Seq<(String, String)>,
    targets: Seq<TermRow>,
    links: Seq<(String, String)>,
    sources: Seq<TermRow>,
) -> Seq<TermReplyView> {
    seq![
        TermReplyView::Terms(found),
        TermReplyView::Pairs(pairs),
        TermReplyView::Terms(targets),
        TermReplyView::Pairs(links),
        TermReplyView::Terms(sources),
    ]
}

/// The replies that a validation gets from the same database: the id of the
/// first source term, the first pair, and whether the pair's target has a
/// domain link whose label answers the domain.
pub open spec fn check_replies(
    found: Seq<TermRow>,
    pairs: Seq<(String, String)>,
    links: Seq<(String, String)>,
    domain: Option<Seq<char>>,
) -> Seq<CheckReplyView> {
    seq![
        CheckReplyView::MaybeId(if found.len() == 0 { None } else { Some(found[0].id@) }),
        CheckReplyView::MaybePair(if pairs.len() == 0 { None } else { Some((pairs[0].0@, pairs[0].1@)) }),
        CheckReplyView::Found(
            match domain {
                Some(d) => pairs.len() > 0 && some_label_answers(seconds(with_key(links, pairs[0].0@)), d),
                None => false,
            },
        ),
    ]
}

/// A validation from English says a term is valid exactly when the lookup of
/// the term with limit 1, on the same database, finds a match: where the
/// database holds at most one pair for the term's first source term (a
/// validation reads only the first) and the rows of that pair's two terms.
pub proof fn validation_agrees_with_a_lookup_of_one(
    term: Seq<char>,
    domain: Option<Seq<char>>,
    found: Seq<TermRow>,
    pairs: Seq<(String, String)>,
    targets: Seq<TermRow>,
    links: Seq<(String, String)>,
    sources: Seq<TermRow>,
)
    requires
        key_is_valid(term),
        domain matches Some(d) ==> key_is_valid(d),
        found.len() <= 1,
        pairs.len() <= 1,
        pairs.len() == 1 ==> last_with_key(targets, pairs[0].0@) is Some && last_with_key(sources, pairs[0].1@) is Some,
    ensures
        ({
            let echo = QueryEchoView { term, lang: "en"@, domain };
            let lookup = term_feed(term_start(echo, Some(1)), lookup_replies(found, pairs, targets, links, sources)).1;
            let check = check_feed(check_start(term, "en"@, domain), check_replies(found, pairs, links, domain)).1;
            &&& lookup matches TermStepView::Done(Ok(r))
            &&& check matches CheckStepView::Done(Ok(valid))
            &&& valid == (r.matches.len() > 0)
        }),
{
    reveal_with_fuel(term_feed, 6);
    reveal_with_fuel(check_feed, 4);
    let replies = lookup_replies(found, pairs, targets, links, sources);
    assert(replies.drop_last() =~= seq![replies[0], replies[1], replies[2], replies[3]]);
    assert(replies.drop_last().drop_last() =~= seq![replies[0], replies[1], replies[2]]);
    assert(replies.drop_last().drop_last().drop_last() =~= seq![replies[0], replies[1]]);
    assert(replies.drop_last().drop_last().drop_last().drop_last() =~= seq![replies[0]]);
    assert(seq![replies[0]].drop_last() =~= Seq::<TermReplyView>::empty());
    let checks = check_replies(found, pairs, links, domain);
    assert(checks.drop_last() =~= seq![checks[0], checks[1]]);
    assert(checks.drop_last().drop_last() =~= seq![checks[0]]);
    assert(seq![checks[0]].drop_last() =~= Seq::<CheckReplyView>::empty());
    if pairs.len() == 1 {
        let t = last_with_key(targets, pairs[0].0@)->Some_0;
        crate::rows::lemma_last_with_key_member(targets, pairs[0].0@);
        assert(t.id@ == pairs[0].0@);
        let r = term_pairs_from(pairs, targets, sources, links, domain, Seq::empty());
        assert(pairs.skip(1) =~= Seq::<(String, String)>::empty());
        let ga = if t.lang@ == "ga"@ { t } else { last_with_key(sources, pairs[0].1@)->Some_0 };
        let none = Seq::<Seq<char>>::empty();
        assert(!none.contains(t.id@));
        assert(labels_left(links, none, t.id@) == seconds(with_key(links, t.id@)));
        assert(term_pairs_from(pairs.skip(1), targets, sources, links, domain, none).len() == 0);
        assert(term_pairs_from(pairs.skip(1), targets, sources, links, domain, none.push(ga.id@)).len() == 0);
        assert(r.len() > 0 <==> (domain matches Some(d) ==> some_label_answers(seconds(with_key(links, pairs[0].0@)), d)));
    }
}


/// Every pair that a term lookup answers with is made of the rows that the
/// queries found for one of the pairs of ids: pair `k` of the answer comes from
/// some pair of ids `j`, whose target row (with the first id) and source row
/// (with the second) were found. Each side holds the id, the stored term (not
/// the lookup key), the part of speech and the source of its row; the row in
/// Irish gives the Irish side; the English side has no domains.
pub proof fn term_pairs_copy_their_rows(
    pairs: Seq<(String, String)>,
    targets: Seq<TermRow>,
    sources: Seq<TermRow>,
    links: Seq<(String, String)>,
    domain: Option<Seq<char>>,
    k: int,
) -> (j: int)
    requires
        0 <= k < term_pairs_from(pairs, targets, sources, links, domain, Seq::empty()).len(),
    ensures
        0 <= j < pairs.len(),
        pair_made_of_rows(term_pairs_from(pairs, targets, sources, links, domain, Seq::empty())[k], pairs[j], targets, sources),
{
    lemma_pair_made_of_rows_at(pairs, targets, sources, links, domain, Seq::empty(), k)
}


/// A validation runs the same way from either language. It asks for the id of
/// a term in that language with that key; then for one pair of that term
/// (as the English side when the language is English, else as the Irish
/// side); then, with a domain, whether the pair's target term (its first id)
/// has a domain link whose label the database matches to the domain, and
/// answers exactly that; without a domain, the pair makes the term valid. No
/// term, or no pair, makes it invalid.
pub proof fn validation_follows_term_pair_and_domain(
    term: Seq<char>,
    lang: Seq<char>,
    domain: Option<Seq<char>>,
    id: Seq<char>,
    pair: (Seq<char>, Seq<char>),
    found: bool,
)
    requires
        key_is_valid(term),
        domain matches Some(d) ==> key_is_valid(d),
        lang_is_known(lang),
    ensures
        ({
            let (s0, q0) = check_start(term, lang, domain);
            let (s1, q1) = check_resume(s0, CheckReplyView::MaybeId(Some(id)));
            let (s2, q2) = check_resume(s1, CheckReplyView::MaybePair(Some(pair)));
            &&& q0 == CheckStepView::Query(CheckQueryView::SourceTermId { lang, key: term })
            &&& check_resume(s0, CheckReplyView::MaybeId(None)).1 == CheckStepView::Done(Ok(false))
            &&& q1 == CheckStepView::Query(CheckQueryView::PairOfSource { source_is_en: lang == "en"@, source_id: id })
            &&& check_resume(s1, CheckReplyView::MaybePair(None)).1 == CheckStepView::Done(Ok(false))
            &&& domain is None ==> q2 == CheckStepView::Done(Ok(true))
            &&& domain matches Some(d) ==> q2 == CheckStepView::Query(
                CheckQueryView::DomainLinkExists { term_id: pair.0, domain: d },
            ) && check_resume(s2, CheckReplyView::Found(found)).1 == CheckStepView::Done(Ok(found))
        }),
{
}

/// A database's description is what was read of it: after its schema
/// version, its build time and its sources are read, it is exactly those
/// three; a failure to read the sources leaves them empty. `/meta` reports a
/// description that was read unchanged, sources included, and one that could
/// not be read as unknown, with nothing in it.
pub proof fn meta_reports_what_was_read(
    schema_version: Option<String>,
    build_time: Option<String>,
    sources: Seq<SourceRow>,
    info: MetaDbInfoView,
    e: ApiError,
)
    ensures
        ({
            let (s1, q1) = meta_resume(MetaFetch::AwaitingSchemaVersion, MetaReplyView::Text(schema_version));
            let (s2, q2) = meta_resume(s1, MetaReplyView::Text(build_time));
            &&& q1 == MetaStepView::Query(MetaQuery::BuildTime)
            &&& q2 == MetaStepView::Query(MetaQuery::Sources)
            &&& meta_resume(s2, MetaReplyView::Sources(sources)).1 == MetaStepView::Done(
                Ok(MetaDbInfoView { schema_version, build_time, sources }),
            )
            &&& meta_resume(s2, MetaReplyView::Failed).1 == MetaStepView::Done(
                Ok(MetaDbInfoView { schema_version, build_time, sources: Seq::empty() }),
            )
        }),
        info_or_unknown(Ok(info)) == info,
        info_or_unknown(Err(e)) == (MetaDbInfoView { schema_version: None, build_time: None, sources: Seq::empty() }),
{
}


/// A lookup of lexicon entries asks its queries in turn and answers with
/// payloads made of exactly the rows it was given, each in its place. By key,
/// it asks for the entries with that lookup key, at most the limit; by variant
/// form, it first asks for the ids of the entries with that form, at most the
/// limit, and then for the entries with those ids. No entries (or no ids)
/// answer with no payloads. Otherwise it asks, by the entries' ids, for their
/// senses; for the examples of the senses' ids when there are senses; then, by
/// the entries' ids, for their etymology, their variants and their
/// frequencies; and answers with the payloads of those entries, senses,
/// examples (none when there were no senses), etymology, variants and
/// frequencies.
pub proof fn lex_lookups_ask_in_turn_and_answer_with_what_they_got(
    key: Seq<char>,
    limit: Option<i64>,
    ids: Seq<Seq<char>>,
    entries: Seq<EntryRow>,
    senses: Seq<SenseRow>,
    examples: Seq<ExampleRow>,
    etymology: Seq<EtyRow>,
    variants: Seq<VariantRow>,
    freq: Seq<FreqRow>,
)
    requires
        key_is_valid(key),
        limit_is_valid(requested_limit(limit)),
    ensures
        ({
            let (s0, q0) = lex_by_key(key, limit);
            let (f0, g0) = lex_by_form(key, limit);
            let entry_ids_json = json_string_array(entry_ids(entries));
            let (s1, q1) = lex_resume(s0, LexReplyView::Entries(entries));
            let (s2, q2) = lex_resume(s1, LexReplyView::Senses(senses));
            let (s3, q3) = if senses.len() > 0 {
                lex_resume(s2, LexReplyView::Examples(examples))
            } else {
                (s2, q2)
            };
            let (s4, q4) = lex_resume(s3, LexReplyView::Etymology(etymology));
            let (s5, q5) = lex_resume(s4, LexReplyView::Variants(variants));
            let (s6, q6) = lex_resume(s5, LexReplyView::Frequencies(freq));
            &&& q0 == LexStepView::Query(LexQueryView::EntriesByLookupKey { key, limit: requested_limit(limit) })
            &&& g0 == LexStepView::Query(LexQueryView::EntryIdsByVariantForm { form: key, limit: requested_limit(limit) })
            &&& lex_resume(f0, LexReplyView::EntryIds(Seq::empty())).1 == LexStepView::Done(Ok(Seq::<LexEntryPayloadView>::empty()))
            &&& ids.len() > 0 ==> lex_resume(f0, LexReplyView::EntryIds(ids)) == (
                s0,
                LexStepView::Query(LexQueryView::EntriesByIds { ids_json: json_string_array(ids) }),
            )
            &&& lex_resume(s0, LexReplyView::Entries(Seq::empty())).1 == LexStepView::Done(Ok(Seq::<LexEntryPayloadView>::empty()))
            &&& entries.len() > 0 ==> {
                &&& q1 == LexStepView::Query(LexQueryView::SensesByEntryIds { ids_json: entry_ids_json })
                &&& senses.len() > 0 ==> q2 == LexStepView::Query(
                    LexQueryView::ExamplesBySenseIds { ids_json: json_string_array(sense_ids(senses)) },
                )
                &&& q3 == LexStepView::Query(LexQueryView::EtymologyByEntryIds { ids_json: entry_ids_json })
                &&& q4 == LexStepView::Query(LexQueryView::VariantsByEntryIds { ids_json: entry_ids_json })
                &&& q5 == LexStepView::Query(LexQueryView::FrequenciesByEntryIds { ids_json: entry_ids_json })
                &&& q6 == LexStepView::Done(Ok(lex_payloads(
                    entries,
                    senses,
                    if senses.len() > 0 { examples } else { Seq::empty() },
                    etymology,
                    variants,
                    freq,
                )))
            }
        }),
{
}

/// A term lookup asks its queries in turn and answers with the pairs made of
/// exactly the rows it was given, echoing the term, the language and the
/// domain it was asked for. It asks for the terms in the language with that
/// lookup key, at most the limit; none answer with no matches. Then for the
/// pairs of those terms' ids (as the English side when the language is
/// English); none answer with no matches. Then for the terms with the pairs'
/// first ids (the targets); if there are any, for their domain links, within
/// the requested domain; then for the terms with the pairs' second ids (the
/// sources); and answers with the pairs made of these rows.
pub proof fn term_lookups_ask_in_turn_and_answer_with_what_they_got(
    echo: QueryEchoView,
    limit: Option<i64>,
    found: Seq<TermRow>,
    pairs: Seq<(String, String)>,
    targets: Seq<TermRow>,
    links: Seq<(String, String)>,
    sources: Seq<TermRow>,
)
    requires
        key_is_valid(echo.term),
        echo.domain matches Some(d) ==> key_is_valid(d),
        limit_is_valid(requested_limit(limit)),
    ensures
        ({
            let none = TermStepView::Done(Ok(TermQueryResponseView { query: echo, matches: Seq::empty() }));
            let (s0, q0) = term_start(echo, limit);
            let (s1, q1) = term_resume(s0, TermReplyView::Terms(found));
            let (s2, q2) = term_resume(s1, TermReplyView::Pairs(pairs));
            let (s3, q3) = term_resume(s2, TermReplyView::Terms(targets));
            let (s4, q4) = if targets.len() > 0 {
                term_resume(s3, TermReplyView::Pairs(links))
            } else {
                (s3, q3)
            };
            let (s5, q5) = term_resume(s4, TermReplyView::Terms(sources));
            &&& q0 == TermStepView::Query(TermDbQueryView::SourceTerms { lang: echo.lang, key: echo.term, limit: requested_limit(limit) })
            &&& term_resume(s0, TermReplyView::Terms(Seq::empty())).1 == none
            &&& found.len() > 0 ==> {
                &&& q1 == TermStepView::Query(TermDbQueryView::PairsBySourceIds {
                    source_is_en: echo.lang == "en"@,
                    ids_json: json_string_array(term_ids(found)),
                })
                &&& term_resume(s1, TermReplyView::Pairs(Seq::empty())).1 == none
                &&& pairs.len() > 0 ==> {
                    &&& q2 == TermStepView::Query(TermDbQueryView::TermsByIds { ids_json: json_string_array(first_ids(pairs)) })
                    &&& targets.len() > 0 ==> q3 == TermStepView::Query(TermDbQueryView::DomainLinks {
                        ids_json: json_string_array(first_ids(pairs)),
                        domain: echo.domain,
                    })
                    &&& q4 == TermStepView::Query(TermDbQueryView::TermsByIds { ids_json: json_string_array(second_ids(pairs)) })
                    &&& q5 == TermStepView::Done(Ok(TermQueryResponseView {
                        query: echo,
                        matches: term_pairs_from(
                            pairs,
                            targets,
                            sources,
                            if targets.len() > 0 { links } else { Seq::empty() },
                            echo.domain,
                            Seq::empty(),
                        ),
                    }))
                }
            }
        }),
{
}


/// The Irish side of a term pair holds every domain label that the links
/// give its term, in their order, unless an earlier pair of the answer has the
/// same Irish term: then it holds none.
pub proof fn irish_side_gets_its_labels_once(
    pairs: Seq<(String, String)>,
    targets: Seq<TermRow>,
    sources: Seq<TermRow>,
    links: Seq<(String, String)>,
    domain: Option<Seq<char>>,
    k: int,
)
    requires
        0 <= k < term_pairs_from(pairs, targets, sources, links, domain, Seq::empty()).len(),
    ensures
        ({
            let r = term_pairs_from(pairs, targets, sources, links, domain, Seq::empty());
            r[k].ga.domains == if irish_term_seen_before(r, k) {
                Seq::<String>::empty()
            } else {
                labels_of(links, r[k].ga.term_id@)
            }
        }),
{
    lemma_irish_domains(pairs, targets, sources, links, domain, Seq::empty(), k);
}


/// Domains may be written with `&` or with `&amp;`: a text with every `&`
/// written as `&amp;` reads as the text itself, and a text without `&` is
/// left as it is.
pub proof fn ampersand_may_be_written_as_entity(s: Seq<char>)
    ensures
        decode_amp_entities(escape_amp(s)) == s,
        !s.contains('&') ==> decode_amp_entities(s) == s,
{
    lemma_decode_escaped(s);
    if !s.contains('&') {
        lemma_decode_without_ampersand(s);
    }
}


/// A lexicon batch answers exactly the lemmas and variant forms asked for,
/// each with the payloads that its single lookup (`get_by_lemma` or
/// `get_by_variant`, with the body's limit) answers on the replies that the
/// batch handed to it: the batch starts on track, and a batch on track stays
/// on track, whatever the database replies, until it answers so.
pub proof fn lex_batch_answers_as_single_lookups(body: LexBatchBody, run: LexBatchRunView, reply: LexReplyView)
    requires
        lex_batch_on_track(LexBatchView::Running(run)),
    ensures
        lex_batch_on_track(batch_start(body).0),
        answers_every_key(listed(body.lemmas), listed(body.variants), requested_limit(body.limit), batch_start(body).1),
        batch_start(body).0 matches LexBatchView::Running(r) ==> r.limit == requested_limit(body.limit)
            && r.lemmas == listed(body.lemmas) && r.variants == listed(body.variants),
        batch_resume(LexBatchView::Running(run), reply).0 matches LexBatchView::Running(next) ==> next.lemmas
            == run.lemmas && next.variants == run.variants && next.limit == run.limit,
        lex_batch_on_track(batch_resume(LexBatchView::Running(run), reply).0),
        answers_every_key(run.lemmas, run.variants, run.limit, batch_resume(LexBatchView::Running(run), reply).1),
{
    lex_batch_starts_on_track(body);
    lex_batch_stays_on_track(run, reply);
}

/// A term batch answers one response per term, in order, each echoing its
/// term and each the response that the single lookup of that term (`en2ga`
/// or `ga2en`, with the body's domain and limit) gives on the replies that the
/// batch handed to it: the batch starts on track, and a batch on track stays
/// on track, whatever the database replies, until it answers so.
pub proof fn term_batch_answers_as_single_lookups(body: BatchBody, run: TermBatchRunView, reply: TermReplyView)
    requires
        term_batch_on_track(TermBatchView::Running(run)),
    ensures
        term_batch_on_track(term_batch_start(body).0),
        term_batch_start(body).0 matches TermBatchView::Running(r) ==> r.lang == body.lang@
            && r.terms == string_views(body.terms@) && r.domain == opt_view(body.domain)
            && r.limit == body.limit,
        term_batch_start(body).1 matches TermBatchStepView::Done(Ok(rs)) ==> rs.len() == 0 && body.terms@.len() == 0,
        term_batch_on_track(term_batch_resume(TermBatchView::Running(run), reply).0),
        term_batch_resume(TermBatchView::Running(run), reply).0 matches TermBatchView::Running(next) ==> next.lang
            == run.lang && next.terms == run.terms && next.domain == run.domain && next.limit == run.limit,
        answers_every_term(run, term_batch_resume(TermBatchView::Running(run), reply).1),
{
    term_batch_starts_on_track(body);
    term_batch_stays_on_track(run, reply);
}

} // verus!
