//! The plugin runtime: the name-keyed plugin registry, boot, document
//! ingestion, and the dispatch pipeline that folds a document through
//! every interested plugin.

use vstd::prelude::*;

use crate::codec::decode_matcher;
use crate::config::Config;
use crate::context::Context;
use crate::errors::Error;
use crate::markdown::{events_model, DocEventModel, File, FileType};
use crate::matcher::{
    matcher_model, spec_model_consults_regex_doc, spec_model_matches_doc, spec_model_pattern,
    regex_valid, MarkdownEvent, MatcherModel,
};
use crate::codec::spec_data_model;
use crate::events::DocEvent;
use crate::payload::{Payload, Value};
use crate::plugins::{
    dispatch_on_load, dispatch_process_file, log_extends, spec_dataview_process_rel,
    spec_markdown_namespace, spec_tasks_process_rel, PluginKind,
};
use crate::store::{
    spec_subs_rows, spec_vault_rows, tables_unchanged, CoreStatement, Store, VaultRow,
};

verus! {

/// The host-side identity of a loaded plugin.
#[derive(Debug, Clone, PartialEq, Eq)]
pub struct BackendPlugin {
    /// The plugin's unique name.
    pub name: String,
    /// Where the plugin's module comes from.
    pub uri: String,
}

/// One loaded plugin: its identity and its implementation.
#[derive(Debug, Clone, PartialEq, Eq)]
pub struct RegisteredPlugin {
    pub plugin: BackendPlugin,
    pub kind: PluginKind,
}

/// A vault as listed by the runtime.
#[derive(Debug, Clone, PartialEq, Eq)]
pub struct Vault {
    pub name: String,
    pub mount: String,
}

/// The serialized matcher payload of a subscription result row.
pub open spec fn spec_row_data(row: Seq<Value>) -> Seq<char> {
    if row.len() >= 4 {
        match row[3] {
            Value::Str(s) => s@,
            _ => Seq::empty(),
        }
    } else {
        Seq::empty()
    }
}

/// The subscribing plugin of a subscription result row.
pub open spec fn spec_row_plugin(row: Seq<Value>) -> Seq<char> {
    if row.len() >= 1 {
        match row[0] {
            Value::Str(s) => s@,
            _ => Seq::empty(),
        }
    } else {
        Seq::empty()
    }
}

/// Every row's matcher payload deserializes.
pub open spec fn spec_rows_decode_ok(rows: Seq<Seq<Value>>) -> bool {
    forall|j: int| 0 <= j < rows.len() ==> spec_data_model(#[trigger] spec_row_data(rows[j])) is Some
}

/// Whether a decoded matcher matches some event of the document.
pub open spec fn spec_model_matches_some(m: MatcherModel, doc: Seq<DocEventModel>) -> bool {
    exists|i: int| 0 <= i < doc.len() && spec_model_matches_doc(m, #[trigger] doc[i])
}

/// Whether evaluating a decoded matcher over the document consults an
/// invalid regular expression somewhere.
pub open spec fn spec_model_errs(m: MatcherModel, doc: Seq<DocEventModel>) -> bool {
    exists|i: int|
        0 <= i < doc.len() && spec_model_consults_regex_doc(m, #[trigger] doc[i]) && !regex_valid(
            spec_model_pattern(m),
        )
}

/// Whether evaluating any row's matcher over the document errs.
pub open spec fn spec_rows_err(rows: Seq<Seq<Value>>, doc: Seq<DocEventModel>) -> bool {
    exists|j: int|
        0 <= j < rows.len() && (spec_data_model(#[trigger] spec_row_data(rows[j])) matches Some(m)
            && spec_model_errs(m, doc))
}

/// The deduplicated interested-plugin names after considering the
/// first `n` subscription rows, in registration order: a plugin whose
/// matcher matches some event joins the set once, at its first
/// matching subscription.
pub open spec fn spec_matched_upto(rows: Seq<Seq<Value>>, doc: Seq<DocEventModel>, n: int) -> Seq<
    Seq<char>,
>
    decreases n,
{
    if n <= 0 {
        Seq::empty()
    } else {
        let prev = spec_matched_upto(rows, doc, n - 1);
        match spec_data_model(spec_row_data(rows[n - 1])) {
            Some(m) => if spec_model_matches_some(m, doc) && !prev.contains(
                spec_row_plugin(rows[n - 1]),
            ) {
                prev.push(spec_row_plugin(rows[n - 1]))
            } else {
                prev
            },
            None => prev,
        }
    }
}

/// The deduplicated interested-plugin names of a document.
pub open spec fn spec_matched(rows: Seq<Seq<Value>>, doc: Seq<DocEventModel>) -> Seq<Seq<char>> {
    spec_matched_upto(rows, doc, rows.len() as int)
}

/// LAW (deduplication): however many of a plugin's subscriptions match
/// the same document, the matched-plugin set holds the plugin at most
/// once — it is a set, not a multiset.
pub proof fn lemma_matched_no_duplicates(
    rows: Seq<Seq<Value>>,
    doc: Seq<DocEventModel>,
    n: int,
    a: int,
    b: int,
)
    requires
        0 <= a < b < spec_matched_upto(rows, doc, n).len(),
    ensures
        spec_matched_upto(rows, doc, n)[a] != spec_matched_upto(rows, doc, n)[b],
    decreases n,
{
    if n > 0 {
        let prev = spec_matched_upto(rows, doc, n - 1);
        let cur = spec_matched_upto(rows, doc, n);
        if cur.len() == prev.len() {
            assert(cur == prev);
            lemma_matched_no_duplicates(rows, doc, n - 1, a, b);
        } else {
            if b < prev.len() {
                lemma_matched_no_duplicates(rows, doc, n - 1, a, b);
            } else {
                assert(b == prev.len());
                assert(!prev.contains(cur[b]));
                assert(cur[a] == prev[a]);
                if cur[a] == cur[b] {
                    assert(prev.contains(cur[b]));
                }
            }
        }
    }
}

/// The first registered plugin with this name.
pub open spec fn spec_kind_lookup(registry: Seq<RegisteredPlugin>, name: Seq<char>) -> Option<
    PluginKind,
>
    decreases registry.len(),
{
    if registry.len() == 0 {
        None
    } else if registry.first().plugin.name@ == name {
        Some(registry.first().kind)
    } else {
        spec_kind_lookup(registry.drop_first(), name)
    }
}

/// The plugin implementations behind a list of matched names, when
/// every name is registered.
pub open spec fn spec_kinds_of(registry: Seq<RegisteredPlugin>, names: Seq<Seq<char>>) -> Option<
    Seq<PluginKind>,
>
    decreases names.len(),
{
    if names.len() == 0 {
        Some(Seq::empty())
    } else {
        match (spec_kinds_of(registry, names.drop_last()), spec_kind_lookup(
            registry,
            names.last(),
        )) {
            (Some(ks), Some(k)) => Some(ks.push(k)),
            _ => None,
        }
    }
}

/// What one plugin's `process_file` guarantees.
pub open spec fn spec_kind_process_rel(
    kind: PluginKind,
    pre: Store,
    post: Store,
    fin: File,
    r: Result<File, Error>,
) -> bool {
    match kind {
        PluginKind::Tasks => spec_tasks_process_rel(pre, post, fin, r),
        PluginKind::DataView => spec_dataview_process_rel(pre, post, fin, r),
    }
}

/// Folding a file through a list of plugins, one `process_file` at a
/// time, threading the (possibly modified) file from each call into
/// the next; the first failure aborts the fold.
pub open spec fn spec_fold_rel(
    pre: Store,
    post: Store,
    kinds: Seq<PluginKind>,
    fin: File,
    fout: Result<File, Error>,
) -> bool
    decreases kinds.len(),
{
    if kinds.len() == 0 {
        post == pre && (fout matches Ok(f) && f == fin)
    } else {
        (exists|mid: Store, fmid: File|
            #[trigger] spec_kind_process_rel(kinds.first(), pre, mid, fin, Ok(fmid))
                && spec_fold_rel(mid, post, kinds.drop_first(), fmid, fout)) || (exists|e: Error|
            spec_kind_process_rel(kinds.first(), pre, post, fin, Err(#[trigger] dummy_err(e)))
                && fout == Err::<File, Error>(e))
    }
}

/// Identity helper that gives the abort case of the fold a trigger.
pub open spec fn dummy_err(e: Error) -> Error {
    e
}

/// Extending a successful fold by one more plugin call.
proof fn lemma_fold_snoc(
    pre: Store,
    mid: Store,
    post: Store,
    kinds: Seq<PluginKind>,
    k: PluginKind,
    f0: File,
    fmid: File,
    fout: Result<File, Error>,
)
    requires
        spec_fold_rel(pre, mid, kinds, f0, Ok(fmid)),
        spec_kind_process_rel(k, mid, post, fmid, fout),
    ensures
        spec_fold_rel(pre, post, kinds.push(k), f0, fout),
    decreases kinds.len(),
{
    let ks = kinds.push(k);
    assert(ks.len() == kinds.len() + 1);
    if kinds.len() == 0 {
        assert(mid == pre && fmid == f0);
        assert(ks.first() == k);
        assert(ks.drop_first() =~= Seq::<PluginKind>::empty());
        match fout {
            Ok(f2) => {
                assert(spec_kind_process_rel(ks.first(), pre, post, f0, Ok(f2)));
                assert(spec_fold_rel(post, post, ks.drop_first(), f2, Ok(f2)));
                assert(spec_fold_rel(pre, post, ks, f0, fout));
            },
            Err(e) => {
                assert(spec_kind_process_rel(ks.first(), pre, post, f0, Err(dummy_err(e))));
                assert(spec_fold_rel(pre, post, ks, f0, fout));
            },
        }
    } else {
        assert(spec_fold_rel(pre, mid, kinds, f0, Ok(fmid)));
        let (m1, f1) = choose|m1: Store, f1: File|
            #[trigger] spec_kind_process_rel(kinds.first(), pre, m1, f0, Ok(f1))
                && spec_fold_rel(m1, mid, kinds.drop_first(), f1, Ok(fmid));
        lemma_fold_snoc(m1, mid, post, kinds.drop_first(), k, f1, fmid, fout);
        assert(ks.first() == kinds.first());
        assert(ks.drop_first() =~= kinds.drop_first().push(k));
        assert(spec_kind_process_rel(ks.first(), pre, m1, f0, Ok(f1)));
        assert(spec_fold_rel(m1, post, ks.drop_first(), f1, fout));
        assert(spec_fold_rel(pre, post, ks, f0, fout));
    }
}

/// Decode each subscription row into its matcher and subscribing
/// plugin. A row whose payload does not deserialize fails the whole
/// batch with a serialization error.
fn collect_filters(rows: &Vec<Vec<Value>>) -> (r: Result<Vec<(MarkdownEvent, String)>, Error>)
    ensures
        r is Ok <==> spec_rows_decode_ok(rows.deep_view()),
        r matches Ok(v) ==> v@.len() == rows.deep_view().len() && (forall|j: int|
            0 <= j < v@.len() ==> (spec_data_model(
                spec_row_data(rows.deep_view()[j]),
            ) matches Some(m) && matcher_model(#[trigger] v@[j].0) == m && v@[j].1@
                == spec_row_plugin(rows.deep_view()[j]))),
        r matches Err(e) ==> e matches Error::Serialization(_),
{
    let mut out: Vec<(MarkdownEvent, String)> = Vec::new();
    let mut j: usize = 0;
    while j < rows.len()
        invariant
            j <= rows@.len(),
            rows.deep_view().len() == rows@.len(),
            out@.len() == j,
            forall|j2: int|
                0 <= j2 < j ==> (spec_data_model(
                    spec_row_data(rows.deep_view()[j2]),
                ) matches Some(m) && matcher_model(#[trigger] out@[j2].0) == m && out@[j2].1@
                    == spec_row_plugin(rows.deep_view()[j2])),
        decreases rows@.len() - j,
    {
        let row = &rows[j];
        proof {
            assert(rows.deep_view()[j as int] =~= rows@[j as int]@);
        }
        let data_owned: String = if row.len() >= 4 {
            match &row[3] {
                Value::Str(s) => s.clone(),
                _ => String::new(),
            }
        } else {
            String::new()
        };
        proof {
            assert(data_owned@ == spec_row_data(rows.deep_view()[j as int]));
        }
        let m = match decode_matcher(data_owned.as_str()) {
            Ok(m) => m,
            Err(_) => {
                proof {
                    assert(!spec_rows_decode_ok(rows.deep_view())) by {
                        assert(spec_data_model(
                            spec_row_data(rows.deep_view()[j as int]),
                        ) is None);
                    }
                }
                return Err(
                    Error::Serialization("subscription payload does not deserialize".to_owned()),
                );
            },
        };
        let plugin: String = if row.len() >= 1 {
            match &row[0] {
                Value::Str(s) => s.clone(),
                _ => String::new(),
            }
        } else {
            String::new()
        };
        proof {
            assert(plugin@ == spec_row_plugin(rows.deep_view()[j as int]));
        }
        out.push((m, plugin));
        j = j + 1;
    }
    proof {
        assert forall|j2: int|
            0 <= j2 < rows.deep_view().len() implies spec_data_model(
            #[trigger] spec_row_data(rows.deep_view()[j2]),
        ) is Some by {
            assert(spec_data_model(spec_row_data(rows.deep_view()[j2])) matches Some(m2)
                && matcher_model(out@[j2].0) == m2);
        }
    }
    Ok(out)
}

/// Whether this matcher matches any event of the document. The
/// matcher is evaluated against every event; an invalid pattern that
/// any event consults fails the call.
fn filter_matches_doc(m: &MarkdownEvent, events: &Vec<DocEvent>) -> (r: Result<bool, Error>)
    ensures
        r is Ok <==> !spec_model_errs(matcher_model(*m), events_model(events@)),
        r matches Ok(b) ==> b == spec_model_matches_some(
            matcher_model(*m),
            events_model(events@),
        ),
        r matches Err(e) ==> e matches Error::Regex(_),
{
    let ghost doc = events_model(events@);
    let mut found = false;
    let mut i: usize = 0;
    while i < events.len()
        invariant
            i <= events@.len(),
            doc == events_model(events@),
            doc.len() == events@.len(),
            found == (exists|i2: int|
                0 <= i2 < i && spec_model_matches_doc(matcher_model(*m), #[trigger] doc[i2])),
            forall|i2: int|
                0 <= i2 < i ==> !(spec_model_consults_regex_doc(
                    matcher_model(*m),
                    #[trigger] doc[i2],
                ) && !regex_valid(spec_model_pattern(matcher_model(*m)))),
        decreases events@.len() - i,
    {
        proof {
            assert(doc[i as int] == crate::markdown::doc_event_model(events@[i as int]));
        }
        match m.is_matched(&events[i]) {
            Ok(b) => {
                if b {
                    found = true;
                }
            },
            Err(e) => {
                return Err(e);
            },
        }
        i = i + 1;
    }
    Ok(found)
}

/// Whether the list of already-matched names holds this one.
fn names_contain(names: &Vec<String>, name: &String) -> (r: bool)
    ensures
        r == names.deep_view().contains(name@),
{
    let mut i: usize = 0;
    while i < names.len()
        invariant
            i <= names@.len(),
            names.deep_view().len() == names@.len(),
            forall|j: int| 0 <= j < i ==> names.deep_view()[j] != name@,
        decreases names@.len() - i,
    {
        proof {
            assert(names.deep_view()[i as int] == names@[i as int]@);
        }
        if names[i].eq(name) {
            proof {
                assert(names.deep_view()[i as int] == name@);
            }
            return true;
        }
        i = i + 1;
    }
    proof {
        if names.deep_view().contains(name@) {
            let j = choose|j: int| 0 <= j < names.deep_view().len() && names.deep_view()[j] == name@;
            assert(names.deep_view()[j] != name@);
        }
    }
    false
}

/// The deduplicated interested-plugin names of a document, in
/// subscription-registration order.
fn matched_plugins(
    filters: &Vec<(MarkdownEvent, String)>,
    events: &Vec<DocEvent>,
    rows: &Vec<Vec<Value>>,
) -> (r: Result<Vec<String>, Error>)
    requires
        spec_rows_decode_ok(rows.deep_view()),
        filters@.len() == rows.deep_view().len(),
        forall|j: int|
            0 <= j < filters@.len() ==> (spec_data_model(
                spec_row_data(rows.deep_view()[j]),
            ) matches Some(m) && matcher_model(#[trigger] filters@[j].0) == m && filters@[j].1@
                == spec_row_plugin(rows.deep_view()[j])),
    ensures
        r is Ok <==> !spec_rows_err(rows.deep_view(), events_model(events@)),
        r matches Ok(v) ==> v.deep_view() == spec_matched(rows.deep_view(), events_model(events@)),
        r matches Err(e) ==> e matches Error::Regex(_),
{
    let ghost rws = rows.deep_view();
    let ghost doc = events_model(events@);
    let mut acc: Vec<String> = Vec::new();
    let mut j: usize = 0;
    while j < filters.len()
        invariant
            j <= filters@.len(),
            rws == rows.deep_view(),
            doc == events_model(events@),
            filters@.len() == rws.len(),
            spec_rows_decode_ok(rws),
            forall|j2: int|
                0 <= j2 < filters@.len() ==> (spec_data_model(
                    spec_row_data(rws[j2]),
                ) matches Some(m) && matcher_model(#[trigger] filters@[j2].0) == m
                    && filters@[j2].1@ == spec_row_plugin(rws[j2])),
            acc.deep_view() == spec_matched_upto(rws, doc, j as int),
            forall|j2: int|
                0 <= j2 < j ==> !(spec_data_model(
                    spec_row_data(#[trigger] rws[j2]),
                ) matches Some(m) && spec_model_errs(m, doc)),
        decreases filters@.len() - j,
    {
        let (m, plugin) = &filters[j];
        let matches_doc = match filter_matches_doc(m, events) {
            Ok(b) => b,
            Err(e) => {
                proof {
                    assert(spec_data_model(spec_row_data(rws[j as int])) matches Some(mm)
                        && spec_model_errs(mm, doc));
                }
                return Err(e);
            },
        };
        if matches_doc && !names_contain(&acc, plugin) {
            acc.push(plugin.clone());
            proof {
                assert(acc.deep_view() =~= spec_matched_upto(rws, doc, j + 1 as int));
            }
        } else {
            proof {
                assert(acc.deep_view() =~= spec_matched_upto(rws, doc, j + 1 as int));
            }
        }
        j = j + 1;
    }
    proof {
        if spec_rows_err(rws, doc) {
            let j2 = choose|j2: int|
                0 <= j2 < rws.len() && (spec_data_model(
                    #[trigger] spec_row_data(rws[j2]),
                ) matches Some(m) && spec_model_errs(m, doc));
            assert(false);
        }
    }
    Ok(acc)
}

/// The first registered plugin with this name.
fn kind_for(registry: &Vec<RegisteredPlugin>, name: &String) -> (r: Option<PluginKind>)
    ensures
        r == spec_kind_lookup(registry@, name@),
{
    let mut i: usize = 0;
    proof {
        assert(registry@.subrange(0, registry@.len() as int) =~= registry@);
    }
    loop
        invariant
            i <= registry@.len(),
            spec_kind_lookup(registry@, name@) == spec_kind_lookup(
                registry@.subrange(i as int, registry@.len() as int),
                name@,
            ),
        decreases registry@.len() - i,
    {
        if i >= registry.len() {
            proof {
                assert(registry@.subrange(i as int, registry@.len() as int).len() == 0);
            }
            return None;
        }
        proof {
            assert(registry@.subrange(i as int, registry@.len() as int).first()
                == registry@[i as int]);
        }
        if registry[i].plugin.name.eq(name) {
            return Some(registry[i].kind);
        }
        proof {
            assert(registry@.subrange(i as int, registry@.len() as int).drop_first()
                =~= registry@.subrange(i + 1 as int, registry@.len() as int));
        }
        i = i + 1;
    }
}

/// The plugin implementations behind the matched names; an unknown
/// name is a plugin-routing error.
fn kinds_of(registry: &Vec<RegisteredPlugin>, names: &Vec<String>) -> (r: Result<
    Vec<PluginKind>,
    Error,
>)
    ensures
        r is Ok <==> spec_kinds_of(registry@, names.deep_view()) is Some,
        r matches Ok(v) ==> spec_kinds_of(registry@, names.deep_view()) == Some(v@),
        r matches Err(e) ==> e matches Error::PluginError(_),
{
    let mut out: Vec<PluginKind> = Vec::new();
    let mut i: usize = 0;
    while i < names.len()
        invariant
            i <= names@.len(),
            names.deep_view().len() == names@.len(),
            spec_kinds_of(registry@, names.deep_view().take(i as int)) == Some(out@),
        decreases names@.len() - i,
    {
        proof {
            assert(names.deep_view()[i as int] == names@[i as int]@);
        }
        match kind_for(registry, &names[i]) {
            Some(k) => {
                out.push(k);
            },
            None => {
                proof {
                    lemma_kinds_of_bad(registry@, names.deep_view(), i as int);
                }
                return Err(Error::PluginError("no plugin with the matched name".to_owned()));
            },
        }
        proof {
            let pre = names.deep_view().take(i as int);
            let now = names.deep_view().take(i + 1 as int);
            assert(now.drop_last() =~= pre);
            assert(now.last() == names.deep_view()[i as int]);
        }
        i = i + 1;
    }
    proof {
        assert(names.deep_view().take(names.deep_view().len() as int) =~= names.deep_view());
    }
    Ok(out)
}

/// An unknown name anywhere poisons the lookup.
proof fn lemma_kinds_of_bad(registry: Seq<RegisteredPlugin>, names: Seq<Seq<char>>, i: int)
    requires
        0 <= i < names.len(),
        spec_kind_lookup(registry, names[i]) is None,
    ensures
        spec_kinds_of(registry, names) is None,
    decreases names.len(),
{
    if names.len() > 0 {
        if i == names.len() - 1 {
        } else {
            assert(names.drop_last()[i] == names[i]);
            lemma_kinds_of_bad(registry, names.drop_last(), i);
        }
    }
}

/// Everything the dispatch pipeline guarantees, as a relation between
/// the store before and after, the registry, the incoming document,
/// and the result.
pub open spec fn spec_render_rel(
    pre: Store,
    post: Store,
    registry: Seq<RegisteredPlugin>,
    file: File,
    r: Result<File, Error>,
) -> bool {
    let doc = spec_doc_of(file);
    let rows = spec_subs_rows(pre.subscriptions@, spec_markdown_namespace());
    &&& (file.data is Unknown ==> tables_unchanged(pre, post) && (r matches Err(e)
        && e matches Error::FileCodec(_)))
    &&& ((file.data is Markdown && !spec_rows_decode_ok(rows)) ==> tables_unchanged(pre, post)
        && (r matches Err(e) && e matches Error::Serialization(_)))
    &&& ((file.data is Markdown && spec_rows_decode_ok(rows) && spec_rows_err(rows, doc))
        ==> tables_unchanged(pre, post) && (r matches Err(e) && e matches Error::Regex(_)))
    &&& ((file.data is Markdown && spec_rows_decode_ok(rows) && !spec_rows_err(rows, doc)
        && spec_kinds_of(registry, spec_matched(rows, doc)) is None) ==> tables_unchanged(
        pre,
        post,
    ) && (r matches Err(e) && e matches Error::PluginError(_)))
    &&& ((file.data is Markdown && spec_rows_decode_ok(rows) && !spec_rows_err(rows, doc)
        && spec_kinds_of(registry, spec_matched(rows, doc)) is Some) ==> (exists|pre2: Store|
        {
            &&& tables_unchanged(pre, pre2)
            &&& log_extends(pre.applied.deep_view(), pre2.applied.deep_view())
            &&& #[trigger] spec_fold_rel(
                pre2,
                post,
                spec_kinds_of(registry, spec_matched(rows, doc)).unwrap(),
                file,
                r,
            )
        }))
}

/// The event-sequence model of a markdown file; an unknown file has
/// no events.
pub open spec fn spec_doc_of(file: File) -> Seq<DocEventModel> {
    match file.data {
        FileType::Markdown(evs) => events_model(evs@),
        FileType::Unknown => Seq::empty(),
    }
}

/// The runtime: the capability context (owning the storage actor), the
/// plugin registry, and the configuration it booted from.
#[derive(Debug)]
pub struct KasukuRuntime {
    pub context: Context,
    pub registry: Vec<RegisteredPlugin>,
    pub config: Config,
}

impl KasukuRuntime {
    pub open spec fn wf(self) -> bool {
        self.context.wf()
    }

    /// The dispatch pipeline: fetch the subscriptions of the
    /// document-event namespace, compute the deduplicated
    /// interested-plugin set, and fold the document through each one's
    /// `process_file` in registration order, threading the (possibly
    /// modified) document from one call into the next. Any failure
    /// aborts the whole request: there is no partial result; see
    /// [`spec_render_rel`].
    pub fn dispatch_document(&mut self, file: File) -> (r: Result<File, Error>)
        requires
            old(self).wf(),
        ensures
            final(self).wf(),
            final(self).registry == old(self).registry,
            final(self).config == old(self).config,
            spec_render_rel(
                old(self).context.actor.store,
                final(self).context.actor.store,
                old(self).registry@,
                file,
                r,
            ),
    {
        let ghost file0 = file;
        let ghost pre = self.context.actor.store;
        match &file.data {
            FileType::Markdown(_) => {},
            FileType::Unknown => {
                return Err(Error::FileCodec("not a markdown file".to_owned()));
            },
        }
        let events: &Vec<DocEvent> = match &file.data {
            FileType::Markdown(evs) => evs,
            FileType::Unknown => {
                proof {
                    assert(false);
                }
                return Err(Error::FileCodec("not a markdown file".to_owned()));
            },
        };
        let reply = self.context.run_statement(
            CoreStatement::SelectSubscriptionsByEvent("markdown::MarkdownEvent".to_owned()),
        );
        let rows: Vec<Vec<Value>> = match reply {
            Ok(Payload::Select { labels: _, rows }) => rows,
            Ok(_) => {
                proof {
                    assert(false);
                }
                return Err(Error::DatabaseError("unexpected payload".to_owned()));
            },
            Err(e) => {
                proof {
                    assert(false);
                }
                return Err(e);
            },
        };
        let filters = match collect_filters(&rows) {
            Ok(f) => f,
            Err(e) => {
                return Err(e);
            },
        };
        let names = match matched_plugins(&filters, events, &rows) {
            Ok(n) => n,
            Err(e) => {
                return Err(e);
            },
        };
        let kinds = match kinds_of(&self.registry, &names) {
            Ok(k) => k,
            Err(e) => {
                return Err(e);
            },
        };
        let ghost rws = rows.deep_view();
        let ghost doc = spec_doc_of(file0);
        let ghost pre0 = pre;
        let ghost fold_pre = self.context.actor.store;
        let mut current = file;
        let mut i: usize = 0;
        while i < kinds.len()
            invariant
                i <= kinds@.len(),
                self.context.wf(),
                self.registry == old(self).registry,
                self.config == old(self).config,
                pre0 == old(self).context.actor.store,
                rws == spec_subs_rows(pre0.subscriptions@, spec_markdown_namespace()),
                doc == spec_doc_of(file0),
                file0 == file,
                file0.data is Markdown,
                spec_rows_decode_ok(rws),
                !spec_rows_err(rws, doc),
                spec_kinds_of(old(self).registry@, spec_matched(rws, doc)) == Some(kinds@),
                tables_unchanged(pre0, fold_pre),
                log_extends(pre0.applied.deep_view(), fold_pre.applied.deep_view()),
                spec_fold_rel(
                    fold_pre,
                    self.context.actor.store,
                    kinds@.take(i as int),
                    file0,
                    Ok(current),
                ),
            decreases kinds@.len() - i,
        {
            let ghost mid = self.context.actor.store;
            let ghost fmid = current;
            let kind = kinds[i];
            let res = dispatch_process_file(kind, &mut self.context, current);
            proof {
                assert(kinds@.take(i + 1 as int) =~= kinds@.take(i as int).push(kinds@[i as int]));
            }
            match res {
                Ok(f2) => {
                    proof {
                        lemma_fold_snoc(
                            fold_pre,
                            mid,
                            self.context.actor.store,
                            kinds@.take(i as int),
                            kinds@[i as int],
                            file0,
                            fmid,
                            Ok(f2),
                        );
                    }
                    current = f2;
                },
                Err(e) => {
                    proof {
                        lemma_fold_snoc(
                            fold_pre,
                            mid,
                            self.context.actor.store,
                            kinds@.take(i as int),
                            kinds@[i as int],
                            file0,
                            fmid,
                            Err(e),
                        );
                        lemma_fold_prefix_abort(
                            fold_pre,
                            self.context.actor.store,
                            kinds@,
                            (i + 1) as int,
                            file0,
                            e,
                        );
                        assert(spec_fold_rel(
                            fold_pre,
                            self.context.actor.store,
                            spec_kinds_of(old(self).registry@, spec_matched(rws, doc)).unwrap(),
                            file0,
                            Err(e),
                        ));
                    }
                    return Err(e);
                },
            }
            i = i + 1;
        }
        proof {
            assert(kinds@.take(kinds@.len() as int) =~= kinds@);
            assert(spec_fold_rel(
                fold_pre,
                self.context.actor.store,
                spec_kinds_of(old(self).registry@, spec_matched(rws, doc)).unwrap(),
                file0,
                Ok(current),
            ));
        }
        Ok(current)
    }
}

/// An aborted fold prefix is an aborted fold of the whole list.
proof fn lemma_fold_prefix_abort(
    pre: Store,
    post: Store,
    kinds: Seq<PluginKind>,
    n: int,
    f0: File,
    e: Error,
)
    requires
        0 < n <= kinds.len(),
        spec_fold_rel(pre, post, kinds.take(n), f0, Err(e)),
    ensures
        spec_fold_rel(pre, post, kinds, f0, Err(e)),
    decreases n,
{
    let ks = kinds.take(n);
    assert(ks.first() == kinds.first());
    if n == 1 {
        assert(ks.drop_first() =~= Seq::<PluginKind>::empty());
        if exists|mid: Store, fmid: File|
            #[trigger] spec_kind_process_rel(ks.first(), pre, mid, f0, Ok(fmid)) && spec_fold_rel(
                mid,
                post,
                ks.drop_first(),
                fmid,
                Err(e),
            ) {
            let (mid, fmid) = choose|mid: Store, fmid: File|
                #[trigger] spec_kind_process_rel(ks.first(), pre, mid, f0, Ok(fmid))
                    && spec_fold_rel(mid, post, ks.drop_first(), fmid, Err(e));
            assert(false);
        }
        assert(exists|e2: Error|
            spec_kind_process_rel(ks.first(), pre, post, f0, Err(#[trigger] dummy_err(e2)))
                && Err::<File, Error>(e) == Err::<File, Error>(e2));
        let e2 = choose|e2: Error|
            spec_kind_process_rel(ks.first(), pre, post, f0, Err(#[trigger] dummy_err(e2)))
                && Err::<File, Error>(e) == Err::<File, Error>(e2);
        assert(spec_kind_process_rel(kinds.first(), pre, post, f0, Err(dummy_err(e2))));
        assert(spec_fold_rel(pre, post, kinds, f0, Err(e)));
    } else {
        if exists|mid: Store, fmid: File|
            #[trigger] spec_kind_process_rel(ks.first(), pre, mid, f0, Ok(fmid)) && spec_fold_rel(
                mid,
                post,
                ks.drop_first(),
                fmid,
                Err(e),
            ) {
            let (mid, fmid) = choose|mid: Store, fmid: File|
                #[trigger] spec_kind_process_rel(ks.first(), pre, mid, f0, Ok(fmid))
                    && spec_fold_rel(mid, post, ks.drop_first(), fmid, Err(e));
            assert(ks.drop_first() =~= kinds.drop_first().take(n - 1));
            lemma_fold_prefix_abort(mid, post, kinds.drop_first(), n - 1, fmid, e);
            assert(spec_fold_rel(pre, post, kinds, f0, Err(e)));
        } else {
            let e2 = choose|e2: Error|
                spec_kind_process_rel(ks.first(), pre, post, f0, Err(#[trigger] dummy_err(e2)))
                    && Err::<File, Error>(e) == Err::<File, Error>(e2);
            assert(spec_kind_process_rel(kinds.first(), pre, post, f0, Err(dummy_err(e2))));
            assert(spec_fold_rel(pre, post, kinds, f0, Err(e)));
        }
    }
}

/// Which built-in implementation a configured plugin name denotes.
pub open spec fn spec_builtin_kind(name: Seq<char>) -> Option<PluginKind> {
    if name == "tasks"@ {
        Some(PluginKind::Tasks)
    } else if name == "dataview"@ {
        Some(PluginKind::DataView)
    } else {
        None
    }
}

/// Which built-in implementation a configured plugin name denotes.
fn builtin_kind(name: &String) -> (r: Option<PluginKind>)
    ensures
        r == spec_builtin_kind(name@),
{
    if name.eq(&String::from_str("tasks")) {
        Some(PluginKind::Tasks)
    } else if name.eq(&String::from_str("dataview")) {
        Some(PluginKind::DataView)
    } else {
        None
    }
}

/// Every configured plugin names a built-in implementation.
pub open spec fn spec_plugins_known(plugins: Seq<crate::config::PluginConfig>) -> bool {
    forall|i: int|
        0 <= i < plugins.len() ==> spec_builtin_kind(#[trigger] plugins[i].name@) is Some
}

/// The vault rows after inserting the configured vaults in order,
/// skipping any whose name is already taken.
pub open spec fn spec_vaults_after(
    acc: Seq<VaultRow>,
    vaults: Seq<(String, crate::config::VaultConfig)>,
    n: int,
) -> Seq<VaultRow>
    decreases n,
{
    if n <= 0 {
        acc
    } else {
        let prev = spec_vaults_after(acc, vaults, n - 1);
        if crate::store::spec_vault_name_taken(prev, vaults[n - 1].0@) {
            prev
        } else {
            prev.push(VaultRow { name: vaults[n - 1].0, mount: vaults[n - 1].1.mount })
        }
    }
}

/// The observable columns of one subscription row.
pub open spec fn spec_sub_row_view(r: crate::store::SubscriptionRow) -> (
    Seq<char>,
    Seq<char>,
    Seq<char>,
    Seq<char>,
) {
    (r.plugin@, r.event@, r.event_type@, r.data@)
}

/// The observable content of the subscriptions table.
pub open spec fn spec_subs_table_view(rows: Seq<crate::store::SubscriptionRow>) -> Seq<
    (Seq<char>, Seq<char>, Seq<char>, Seq<char>),
> {
    rows.map_values(|r: crate::store::SubscriptionRow| spec_sub_row_view(r))
}

/// The subscription rows one built-in plugin's `on_load` writes, in
/// the order it writes them.
pub open spec fn spec_kind_boot_rows(name: Seq<char>, kind: PluginKind) -> Seq<
    (Seq<char>, Seq<char>, Seq<char>, Seq<char>),
> {
    match kind {
        PluginKind::Tasks => seq![
            (name, "tasks::TaskEvent"@, "tasks::Tasks"@, "TaskEvent::Add"@),
            (
                name,
                spec_markdown_namespace(),
                "types::IdentityPlugin"@,
                crate::codec::spec_matcher_data(MarkdownEvent::TaskList),
            ),
        ],
        PluginKind::DataView => seq![
            (
                name,
                spec_markdown_namespace(),
                "types::IdentityPlugin"@,
                "Tag:CodeBlock:Fenced:"@ + "/dataview/"@,
            ),
        ],
    }
}

/// The subscription rows boot leaves after loading the first `n`
/// configured plugins: subscriptions are derived state, rebuilt at
/// every boot by each plugin's `on_load`, in configuration order.
pub open spec fn spec_boot_subs(plugins: Seq<crate::config::PluginConfig>, n: int) -> Seq<
    (Seq<char>, Seq<char>, Seq<char>, Seq<char>),
>
    decreases n,
{
    if n <= 0 {
        Seq::empty()
    } else {
        spec_boot_subs(plugins, n - 1) + (match spec_builtin_kind(plugins[n - 1].name@) {
            Some(k) => spec_kind_boot_rows(plugins[n - 1].name@, k),
            None => Seq::empty(),
        })
    }
}

/// A decision of the document-ingestion walk.
#[derive(Debug, Clone, Copy, PartialEq, Eq, Structural)]
pub enum Filtering {
    /// Descend into and consider this entry.
    Continue,
    /// Skip this entry.
    Ignore,
    /// Skip this whole directory.
    IgnoreDir,
}

/// The ingestion filter: hidden entries are skipped with their whole
/// directory, markdown files are taken, everything else is skipped.
pub fn ingest_filter(name: &str) -> (r: Filtering)
    ensures
        crate::codec::has_prefix(name@, "."@) ==> r is IgnoreDir,
        !crate::codec::has_prefix(name@, "."@) && crate::codec::has_suffix(name@, ".md"@)
            ==> r is Continue,
        !crate::codec::has_prefix(name@, "."@) && !crate::codec::has_suffix(name@, ".md"@)
            ==> r is Ignore,
{
    if crate::codec::str_has_prefix(name, ".") {
        Filtering::IgnoreDir
    } else if crate::codec::str_has_suffix(name, ".md") {
        Filtering::Continue
    } else {
        Filtering::Ignore
    }
}

/// Each vault listing row is the vault's name and mount.
proof fn lemma_vault_rows_index(vs: Seq<VaultRow>, i: int)
    requires
        0 <= i < vs.len(),
    ensures
        spec_vault_rows(vs).len() == vs.len(),
        spec_vault_rows(vs)[i] == seq![Value::Str(vs[i].name), Value::Str(vs[i].mount)],
    decreases vs.len(),
{
    if vs.len() > 0 {
        assert(spec_vault_rows(vs).drop_last() =~= spec_vault_rows(vs.drop_last()));
        if i < vs.len() - 1 {
            assert(vs.drop_last()[i] == vs[i]);
            lemma_vault_rows_index(vs.drop_last(), i);
        } else {
            if vs.drop_last().len() > 0 {
                lemma_vault_rows_index(vs.drop_last(), 0);
            }
            lemma_vault_rows_len(vs.drop_last());
        }
    }
}

/// A vault listing has one row per vault.
proof fn lemma_vault_rows_len(vs: Seq<VaultRow>)
    ensures
        spec_vault_rows(vs).len() == vs.len(),
    decreases vs.len(),
{
    if vs.len() > 0 {
        lemma_vault_rows_len(vs.drop_last());
    }
}

impl KasukuRuntime {
    /// Boot the runtime over a fresh store: reset the core schema,
    /// load every configured plugin and run its `on_load` on its own
    /// behalf, then record the configured vaults (a repeated vault
    /// name is skipped, as the storage engine would refuse it).
    pub fn new(config: Config) -> (r: Result<KasukuRuntime, Error>)
        ensures
            r is Ok <==> spec_plugins_known(config.plugins@),
            r matches Err(e) ==> e matches Error::PluginError(_),
            r matches Ok(rt) ==> ({
                &&& rt.wf()
                &&& rt.config == config
                &&& rt.registry@.len() == config.plugins@.len()
                &&& (forall|i: int|
                    0 <= i < config.plugins@.len() ==> (#[trigger] rt.registry@[i]).plugin.name
                        == config.plugins@[i].name && rt.registry@[i].plugin.uri
                        == config.plugins@[i].uri && Some(rt.registry@[i].kind)
                        == spec_builtin_kind(config.plugins@[i].name@))
                &&& rt.context.actor.store.vaults@ == spec_vaults_after(
                    Seq::empty(),
                    config.vaults@,
                    config.vaults@.len() as int,
                )
                &&& spec_subs_table_view(rt.context.actor.store.subscriptions@)
                    == spec_boot_subs(config.plugins@, config.plugins@.len() as int)
                &&& rt.context.actor.store.entries@.len() == 0
                &&& rt.context.actor.store.tasks@.len() == 0
                &&& (rt.context.actor.store.tasks_created <==> (exists|i: int|
                    0 <= i < config.plugins@.len() && spec_builtin_kind(
                        #[trigger] config.plugins@[i].name@,
                    ) == Some(PluginKind::Tasks)))
            }),
    {
        let mut context = Context::acquire();
        let mut registry: Vec<RegisteredPlugin> = Vec::new();
        let mut i: usize = 0;
        while i < config.plugins.len()
            invariant
                i <= config.plugins@.len(),
                context.wf(),
                registry@.len() == i,
                forall|j: int|
                    0 <= j < i ==> (#[trigger] registry@[j]).plugin.name
                        == config.plugins@[j].name && registry@[j].plugin.uri
                        == config.plugins@[j].uri && Some(registry@[j].kind) == spec_builtin_kind(
                        config.plugins@[j].name@,
                    ),
                context.actor.store.vaults@.len() == 0,
                context.actor.store.entries@.len() == 0,
                context.actor.store.tasks@.len() == 0,
                spec_subs_table_view(context.actor.store.subscriptions@) == spec_boot_subs(
                    config.plugins@,
                    i as int,
                ),
                context.actor.store.tasks_created <==> (exists|j: int|
                    0 <= j < i && spec_builtin_kind(#[trigger] config.plugins@[j].name@) == Some(
                        PluginKind::Tasks,
                    )),
            decreases config.plugins@.len() - i,
        {
            let pc = &config.plugins[i];
            let kind = match builtin_kind(&pc.name) {
                Some(k) => k,
                None => {
                    proof {
                        assert(!spec_plugins_known(config.plugins@)) by {
                            assert(spec_builtin_kind(config.plugins@[i as int].name@) is None);
                        }
                    }
                    return Err(
                        Error::PluginError("no built-in plugin with the configured name".to_owned()),
                    );
                },
            };
            let ghost pre_subs = context.actor.store.subscriptions@;
            context.set_plugin(pc.name.clone());
            let loaded = dispatch_on_load(kind, &mut context);
            proof {
                if loaded is Err {
                    assert(false);
                }
                let subs_now = context.actor.store.subscriptions@;
                let pre_len = pre_subs.len() as int;
                let name = config.plugins@[i as int].name@;
                let fresh = spec_kind_boot_rows(name, kind);
                assert forall|j: int| 0 <= j < pre_len implies subs_now[j] == pre_subs[j] by {
                    assert(subs_now.take(pre_len)[j] == subs_now[j]);
                }
                assert(spec_boot_subs(config.plugins@, i + 1 as int) == spec_boot_subs(
                    config.plugins@,
                    i as int,
                ) + fresh);
                assert(context.plugin@ == name);
                match kind {
                    PluginKind::Tasks => {
                        assert(crate::plugins::sub_view(
                            subs_now[pre_len],
                            context.plugin@,
                            "tasks::TaskEvent"@,
                            "tasks::Tasks"@,
                            "TaskEvent::Add"@,
                        ));
                        assert(spec_sub_row_view(subs_now[pre_len]) == fresh[0]);
                        assert(subs_now[pre_len + 1] == subs_now.last());
                        assert(spec_sub_row_view(subs_now[pre_len + 1]) == fresh[1]);
                    },
                    PluginKind::DataView => {
                        assert(subs_now[pre_len] == subs_now.last());
                        assert(spec_sub_row_view(subs_now[pre_len]) == fresh[0]);
                    },
                }
                assert(spec_subs_table_view(subs_now) =~= spec_boot_subs(
                    config.plugins@,
                    i + 1 as int,
                ));
            }
            registry.push(
                RegisteredPlugin {
                    plugin: BackendPlugin { name: pc.name.clone(), uri: pc.uri.clone() },
                    kind,
                },
            );
            i = i + 1;
        }
        let ghost boot_vaults = context.actor.store.vaults@;
        proof {
            assert(boot_vaults =~= Seq::<VaultRow>::empty());
        }
        let mut v: usize = 0;
        while v < config.vaults.len()
            invariant
                v <= config.vaults@.len(),
                context.wf(),
                context.actor.store.vaults@ == spec_vaults_after(
                    Seq::empty(),
                    config.vaults@,
                    v as int,
                ),
                context.actor.store.entries@.len() == 0,
                context.actor.store.tasks@.len() == 0,
                spec_subs_table_view(context.actor.store.subscriptions@) == spec_boot_subs(
                    config.plugins@,
                    config.plugins@.len() as int,
                ),
                context.actor.store.tasks_created <==> (exists|j: int|
                    0 <= j < config.plugins@.len() && spec_builtin_kind(
                        #[trigger] config.plugins@[j].name@,
                    ) == Some(PluginKind::Tasks)),
                registry@.len() == config.plugins@.len(),
                forall|j: int|
                    0 <= j < config.plugins@.len() ==> (#[trigger] registry@[j]).plugin.name
                        == config.plugins@[j].name && registry@[j].plugin.uri
                        == config.plugins@[j].uri && Some(registry@[j].kind) == spec_builtin_kind(
                        config.plugins@[j].name@,
                    ),
            decreases config.vaults@.len() - v,
        {
            let (name, vcfg) = &config.vaults[v];
            let row = VaultRow { name: name.clone(), mount: vcfg.mount.clone() };
            proof {
                assert(row == VaultRow {
                    name: config.vaults@[v as int].0,
                    mount: config.vaults@[v as int].1.mount,
                });
            }
            let _ = context.run_statement(CoreStatement::InsertVault(row));
            v = v + 1;
        }
        proof {
            assert(spec_plugins_known(config.plugins@)) by {
                assert forall|j: int|
                    0 <= j < config.plugins@.len() implies spec_builtin_kind(
                    #[trigger] config.plugins@[j].name@,
                ) is Some by {
                    assert(Some(registry@[j].kind) == spec_builtin_kind(
                        config.plugins@[j].name@,
                    ));
                }
            }
        }
        Ok(KasukuRuntime { context, registry, config })
    }

    /// Record one walked document under its vault; a path already
    /// recorded is left as it is, as the storage engine would refuse
    /// the duplicate key.
    pub fn ingest_entry(&mut self, path: String, vault: String)
        requires
            old(self).wf(),
        ensures
            final(self).wf(),
            final(self).registry == old(self).registry,
            final(self).config == old(self).config,
            crate::store::spec_entry_path_taken(old(self).context.actor.store.entries@, path@)
                ==> final(self).context.actor.store.entries@ == old(
                self,
            ).context.actor.store.entries@,
            !crate::store::spec_entry_path_taken(old(self).context.actor.store.entries@, path@)
                ==> final(self).context.actor.store.entries@ == old(
                self,
            ).context.actor.store.entries@.push(
                crate::store::EntryRow { path, vault },
            ),
            final(self).context.actor.store.subscriptions@ == old(
                self,
            ).context.actor.store.subscriptions@,
            final(self).context.actor.store.vaults@ == old(self).context.actor.store.vaults@,
            final(self).context.actor.store.tasks@ == old(self).context.actor.store.tasks@,
            final(self).context.actor.store.tasks_created == old(
                self,
            ).context.actor.store.tasks_created,
    {
        let _ = self.context.run_statement(
            CoreStatement::InsertEntry(crate::store::EntryRow { path, vault }),
        );
    }

    /// List the recorded vaults.
    pub fn vaults(&mut self) -> (r: Vec<Vault>)
        requires
            old(self).wf(),
        ensures
            final(self).wf(),
            final(self).registry == old(self).registry,
            final(self).config == old(self).config,
            tables_unchanged(old(self).context.actor.store, final(self).context.actor.store),
            r@.len() == old(self).context.actor.store.vaults@.len(),
            forall|i: int|
                0 <= i < r@.len() ==> (#[trigger] r@[i]).name == old(
                    self,
                ).context.actor.store.vaults@[i].name && r@[i].mount == old(
                    self,
                ).context.actor.store.vaults@[i].mount,
    {
        let ghost vs = self.context.actor.store.vaults@;
        let reply = self.context.run_statement(CoreStatement::SelectVaults);
        let rows: Vec<Vec<Value>> = match reply {
            Ok(Payload::Select { labels: _, rows }) => rows,
            Ok(_) => {
                proof {
                    assert(false);
                }
                Vec::new()
            },
            Err(_) => {
                proof {
                    assert(false);
                }
                Vec::new()
            },
        };
        proof {
            lemma_vault_rows_len(vs);
        }
        let mut out: Vec<Vault> = Vec::new();
        let mut i: usize = 0;
        while i < rows.len()
            invariant
                i <= rows@.len(),
                rows.deep_view() == spec_vault_rows(vs),
                rows@.len() == vs.len(),
                out@.len() == i,
                forall|j: int|
                    0 <= j < i ==> (#[trigger] out@[j]).name == vs[j].name && out@[j].mount
                        == vs[j].mount,
            decreases rows@.len() - i,
        {
            proof {
                lemma_vault_rows_index(vs, i as int);
                assert(rows.deep_view()[i as int] =~= rows@[i as int]@);
            }
            let row = &rows[i];
            if row.len() >= 2 {
                let name = match &row[0] {
                    Value::Str(s) => s.clone(),
                    _ => {
                        proof {
                            assert(false);
                        }
                        String::new()
                    },
                };
                let mount = match &row[1] {
                    Value::Str(s) => s.clone(),
                    _ => {
                        proof {
                            assert(false);
                        }
                        String::new()
                    },
                };
                out.push(Vault { name, mount });
            } else {
                proof {
                    assert(false);
                }
            }
            i = i + 1;
        }
        out
    }

    /// Render one plugin's view, by name. A plugin that does not
    /// override `render` refuses with `InvalidRender`.
    pub fn preview(&mut self, plugin_name: &String, view: crate::common::Event) -> (r: Result<
        crate::common::Rsx,
        Error,
    >)
        requires
            old(self).wf(),
        ensures
            final(self).wf(),
            final(self).registry == old(self).registry,
            final(self).config == old(self).config,
            spec_kind_lookup(old(self).registry@, plugin_name@) is None ==> (r matches Err(e)
                && e matches Error::PluginError(_)),
            spec_kind_lookup(old(self).registry@, plugin_name@) == Some(PluginKind::Tasks)
                ==> crate::plugins::spec_tasks_render_rel(
                old(self).context.actor.store,
                final(self).context.actor.store,
                r,
            ),
            spec_kind_lookup(old(self).registry@, plugin_name@) == Some(PluginKind::DataView)
                ==> (r matches Err(e) && e is InvalidRender)
                && final(self).context.actor.store == old(self).context.actor.store,
    {
        let kind = match kind_for(&self.registry, plugin_name) {
            Some(k) => k,
            None => {
                return Err(Error::PluginError("no plugin with that name".to_owned()));
            },
        };
        crate::plugins::dispatch_render(kind, &mut self.context, view)
    }
}

} // verus!

