//! List-request parameters and their query-string encoding.

use vstd::prelude::*;

use crate::keyed::{lemma_lookup_concat, lemma_lookup_small, lookup, set_count};
use crate::text::{decimal, join_strings, owned, seq_join, strings_view, u64_to_decimal};

verus! {

/// The character views of query pairs.
pub open spec fn pairs_view(p: Seq<(String, String)>) -> Seq<(Seq<char>, Seq<char>)> {
    p.map_values(|x: (String, String)| (x.0@, x.1@))
}

/// A pair for an optional filter: present exactly when the filter is set.
pub open spec fn opt_pair(key: Seq<char>, value: Option<String>) -> Seq<(Seq<char>, Seq<char>)> {
    match value {
        Some(v) => seq![(key, v@)],
        None => seq![],
    }
}

/// The pagination pairs, always sent: `limit` then `offset`, in decimal.
pub open spec fn page_pairs(limit: u64, offset: u64) -> Seq<(Seq<char>, Seq<char>)> {
    seq![("limit"@, decimal(limit as nat)), ("offset"@, decimal(offset as nat))]
}

/// The `expand` pair: the relation names joined with commas, when set.
pub open spec fn expand_pairs(expand: Option<Vec<String>>) -> Seq<(Seq<char>, Seq<char>)> {
    match expand {
        Some(names) => seq![("expand"@, seq_join(strings_view(names@), ","@))],
        None => seq![],
    }
}

/// Appends one pair.
fn push_pair(pairs: &mut Vec<(String, String)>, key: &str, value: String)
    ensures
        pairs_view(final(pairs)@) == pairs_view(old(pairs)@).push((key@, value@)),
{
    pairs.push((owned(key), value));
    assert(pairs_view(final(pairs)@) =~= pairs_view(old(pairs)@).push((key@, value@)));
}

/// Appends the pair of an optional filter.
fn push_opt(pairs: &mut Vec<(String, String)>, key: &str, value: &Option<String>)
    ensures
        pairs_view(final(pairs)@) == pairs_view(old(pairs)@) + opt_pair(key@, *value),
{
    match value {
        Some(v) => {
            push_pair(pairs, key, v.clone());
            assert(pairs_view(final(pairs)@) =~= pairs_view(old(pairs)@) + opt_pair(key@, *value));
        },
        None => {
            assert(pairs_view(final(pairs)@) =~= pairs_view(old(pairs)@) + opt_pair(key@, *value));
        },
    }
}

/// Appends the pagination pairs.
fn push_page(pairs: &mut Vec<(String, String)>, limit: u64, offset: u64)
    ensures
        pairs_view(final(pairs)@) == pairs_view(old(pairs)@) + page_pairs(limit, offset),
{
    push_pair(pairs, "limit", u64_to_decimal(limit));
    push_pair(pairs, "offset", u64_to_decimal(offset));
    assert(pairs_view(final(pairs)@) =~= pairs_view(old(pairs)@) + page_pairs(limit, offset));
}

/// Appends the `expand` pair.
fn push_expand(pairs: &mut Vec<(String, String)>, expand: &Option<Vec<String>>)
    ensures
        pairs_view(final(pairs)@) == pairs_view(old(pairs)@) + expand_pairs(*expand),
{
    match expand {
        Some(names) => {
            push_pair(pairs, "expand", join_strings(names, ","));
            assert(pairs_view(final(pairs)@) =~= pairs_view(old(pairs)@) + expand_pairs(*expand));
        },
        None => {
            assert(pairs_view(final(pairs)@) =~= pairs_view(old(pairs)@) + expand_pairs(*expand));
        },
    }
}


/// The text of an optional filter, when set.
pub open spec fn opt_view(v: Option<String>) -> Option<Seq<char>> {
    match v {
        Some(s) => Some(s@),
        None => None,
    }
}

/// The text sent for `expand`: the names joined with commas, when set.
pub open spec fn expand_value(expand: Option<Vec<String>>) -> Option<Seq<char>> {
    match expand {
        Some(names) => Some(seq_join(strings_view(names@), ","@)),
        None => None,
    }
}

/// What is found under each key in the parts a query is made of.
pub proof fn lemma_lookup_query_parts(
    key: Seq<char>,
    value: Option<String>,
    limit: u64,
    offset: u64,
    expand: Option<Vec<String>>,
)
    ensures
        forall|k: Seq<char>|
            #[trigger] lookup(opt_pair(key, value), k) == (if k == key {
                opt_view(value)
            } else {
                None
            }),
        forall|k: Seq<char>|
            #[trigger] lookup(nonempty_pair(key, value), k) == (if k == key && value is Some
                && value->0@.len() > 0 {
                opt_view(value)
            } else {
                None
            }),
        forall|k: Seq<char>|
            #[trigger] lookup(page_pairs(limit, offset), k) == (if k == "limit"@ {
                Some(decimal(limit as nat))
            } else if k == "offset"@ {
                Some(decimal(offset as nat))
            } else {
                None
            }),
        forall|k: Seq<char>|
            #[trigger] lookup(expand_pairs(expand), k) == (if k == "expand"@ {
                expand_value(expand)
            } else {
                None
            }),
{
    lemma_lookup_small(key, Seq::<char>::empty());
    match value {
        Some(v) => lemma_lookup_small(key, v@),
        None => {},
    }
    let a = seq![("limit"@, decimal(limit as nat))];
    let b = seq![("offset"@, decimal(offset as nat))];
    lemma_lookup_small("limit"@, decimal(limit as nat));
    lemma_lookup_small("offset"@, decimal(offset as nat));
    lemma_lookup_concat(a, b);
    assert(page_pairs(limit, offset) == a + b);
    reveal_strlit("limit");
    reveal_strlit("offset");
    assert("limit"@.len() != "offset"@.len());
    match expand {
        Some(names) => lemma_lookup_small("expand"@, seq_join(strings_view(names@), ","@)),
        None => {},
    }
}

/// Parameters for listing deals with filtering and pagination.
pub struct DealsListParams {
    pub stage: Option<String>,
    pub org: Option<String>,
    pub owner: Option<String>,
    pub limit: u64,
    pub offset: u64,
    pub expand: Option<Vec<String>>,
}

impl DealsListParams {
    /// The query pairs: the stage, organization and owner filters when set,
    /// then the page, then `expand` when set.
    pub open spec fn query_spec(&self) -> Seq<(Seq<char>, Seq<char>)> {
        opt_pair("stage_id"@, self.stage) + opt_pair("organization_id"@, self.org) + opt_pair(
            "owner_id"@,
            self.owner,
        ) + page_pairs(self.limit, self.offset) + expand_pairs(self.expand)
    }

    /// Converts the parameters to query-string pairs.
    pub fn to_query_pairs(&self) -> (pairs: Vec<(String, String)>)
        ensures
            pairs_view(pairs@) == self.query_spec(),
    {
        let mut pairs = Vec::new();
        push_opt(&mut pairs, "stage_id", &self.stage);
        push_opt(&mut pairs, "organization_id", &self.org);
        push_opt(&mut pairs, "owner_id", &self.owner);
        push_page(&mut pairs, self.limit, self.offset);
        push_expand(&mut pairs, &self.expand);
        assert(pairs_view(pairs@) =~= self.query_spec());
        pairs
    }
}

/// Parameters for listing organizations with filtering and pagination.
pub struct OrgsListParams {
    pub owner: Option<String>,
    pub limit: u64,
    pub offset: u64,
    pub expand: Option<Vec<String>>,
}

impl OrgsListParams {
    /// The query pairs: the owner filter when set, the page, `expand` when set.
    pub open spec fn query_spec(&self) -> Seq<(Seq<char>, Seq<char>)> {
        opt_pair("owner_id"@, self.owner) + page_pairs(self.limit, self.offset) + expand_pairs(
            self.expand,
        )
    }

    /// Converts the parameters to query-string pairs.
    pub fn to_query_pairs(&self) -> (pairs: Vec<(String, String)>)
        ensures
            pairs_view(pairs@) == self.query_spec(),
    {
        let mut pairs = Vec::new();
        push_opt(&mut pairs, "owner_id", &self.owner);
        push_page(&mut pairs, self.limit, self.offset);
        push_expand(&mut pairs, &self.expand);
        assert(pairs_view(pairs@) =~= self.query_spec());
        pairs
    }
}

/// Parameters for listing people with pagination (the server offers no
/// people filters; filtering happens on the client after fetching).
pub struct PeopleListParams {
    pub limit: u64,
    pub offset: u64,
    pub expand: Option<Vec<String>>,
}

impl PeopleListParams {
    /// The query pairs: the page, then `expand` when set.
    pub open spec fn query_spec(&self) -> Seq<(Seq<char>, Seq<char>)> {
        page_pairs(self.limit, self.offset) + expand_pairs(self.expand)
    }

    /// Converts the parameters to query-string pairs.
    pub fn to_query_pairs(&self) -> (pairs: Vec<(String, String)>)
        ensures
            pairs_view(pairs@) == self.query_spec(),
    {
        let mut pairs = Vec::new();
        push_page(&mut pairs, self.limit, self.offset);
        push_expand(&mut pairs, &self.expand);
        assert(pairs_view(pairs@) =~= self.query_spec());
        pairs
    }
}

/// Parameters for listing activities with filtering and pagination.
pub struct ActivitiesListParams {
    pub type_id: Option<String>,
    pub deal_id: Option<String>,
    pub owner_id: Option<String>,
    pub limit: u64,
    pub offset: u64,
    pub expand: Option<Vec<String>>,
}

impl ActivitiesListParams {
    /// The query pairs: the type, deal and owner filters when set, the
    /// page, `expand` when set.
    pub open spec fn query_spec(&self) -> Seq<(Seq<char>, Seq<char>)> {
        opt_pair("type_id"@, self.type_id) + opt_pair("deal_id"@, self.deal_id) + opt_pair(
            "owner_id"@,
            self.owner_id,
        ) + page_pairs(self.limit, self.offset) + expand_pairs(self.expand)
    }

    /// Converts the parameters to query-string pairs.
    pub fn to_query_pairs(&self) -> (pairs: Vec<(String, String)>)
        ensures
            pairs_view(pairs@) == self.query_spec(),
    {
        let mut pairs = Vec::new();
        push_opt(&mut pairs, "type_id", &self.type_id);
        push_opt(&mut pairs, "deal_id", &self.deal_id);
        push_opt(&mut pairs, "owner_id", &self.owner_id);
        push_page(&mut pairs, self.limit, self.offset);
        push_expand(&mut pairs, &self.expand);
        assert(pairs_view(pairs@) =~= self.query_spec());
        pairs
    }
}

/// Every filter given to a deals listing is sent, under its key and with its
/// text, and an unset one is not; the page is always sent, and `expand`
/// exactly when set.
pub proof fn lemma_deals_query_sends_each_filter(p: DealsListParams)
    ensures
        lookup(p.query_spec(), "stage_id"@) == opt_view(p.stage),
        lookup(p.query_spec(), "organization_id"@) == opt_view(p.org),
        lookup(p.query_spec(), "owner_id"@) == opt_view(p.owner),
        lookup(p.query_spec(), "limit"@) == Some(decimal(p.limit as nat)),
        lookup(p.query_spec(), "offset"@) == Some(decimal(p.offset as nat)),
        lookup(p.query_spec(), "expand"@) == expand_value(p.expand),
        p.query_spec().len() == set_count(p.stage) + set_count(p.org) + set_count(p.owner) + 2 + set_count(p.expand),
{
    reveal_strlit("stage_id");
    lemma_lookup_query_parts("stage_id"@, p.stage, p.limit, p.offset, p.expand);
    reveal_strlit("organization_id");
    lemma_lookup_query_parts("organization_id"@, p.org, p.limit, p.offset, p.expand);
    reveal_strlit("owner_id");
    lemma_lookup_query_parts("owner_id"@, p.owner, p.limit, p.offset, p.expand);
    let q0 = opt_pair("stage_id"@, p.stage);
    let q1 = opt_pair("organization_id"@, p.org);
    let q2 = opt_pair("owner_id"@, p.owner);
    let q3 = page_pairs(p.limit, p.offset);
    let q4 = expand_pairs(p.expand);
    lemma_lookup_concat(q0, q1);
    lemma_lookup_concat(q0 + q1, q2);
    lemma_lookup_concat(q0 + q1 + q2, q3);
    lemma_lookup_concat(q0 + q1 + q2 + q3, q4);
    assert(p.query_spec() == q0 + q1 + q2 + q3 + q4);
    reveal_strlit("limit");
    reveal_strlit("offset");
    reveal_strlit("expand");
    assert("limit"@.len() == 5);
    assert("offset"@.len() == 6);
    assert("expand"@.len() == 6);
    assert("offset"@[0] != "expand"@[0]);
    assert("stage_id"@.len() == 8);
    assert("owner_id"@.len() == 8);
    assert("stage_id"@[0] != "owner_id"@[0]);
    assert("organization_id"@.len() == 15);
}

/// The owner filter of an organizations listing is sent exactly when
/// given, with its text; the page is always sent, `expand` when set.
pub proof fn lemma_orgs_query_sends_each_filter(p: OrgsListParams)
    ensures
        lookup(p.query_spec(), "owner_id"@) == opt_view(p.owner),
        lookup(p.query_spec(), "limit"@) == Some(decimal(p.limit as nat)),
        lookup(p.query_spec(), "offset"@) == Some(decimal(p.offset as nat)),
        lookup(p.query_spec(), "expand"@) == expand_value(p.expand),
        p.query_spec().len() == set_count(p.owner) + 2 + set_count(p.expand),
{
    reveal_strlit("owner_id");
    lemma_lookup_query_parts("owner_id"@, p.owner, p.limit, p.offset, p.expand);
    let q0 = opt_pair("owner_id"@, p.owner);
    let q1 = page_pairs(p.limit, p.offset);
    let q2 = expand_pairs(p.expand);
    lemma_lookup_concat(q0, q1);
    lemma_lookup_concat(q0 + q1, q2);
    assert(p.query_spec() == q0 + q1 + q2);
    reveal_strlit("limit");
    reveal_strlit("offset");
    reveal_strlit("expand");
    assert("limit"@.len() == 5);
    assert("offset"@.len() == 6);
    assert("expand"@.len() == 6);
    assert("offset"@[0] != "expand"@[0]);
    assert("owner_id"@.len() == 8);
}

/// Every filter given to an activities listing (type, deal, owner) is sent,
/// under its key and with its text, and an unset one is not; the page is
/// always sent, and `expand` exactly when set.
pub proof fn lemma_activities_query_sends_each_filter(p: ActivitiesListParams)
    ensures
        lookup(p.query_spec(), "type_id"@) == opt_view(p.type_id),
        lookup(p.query_spec(), "deal_id"@) == opt_view(p.deal_id),
        lookup(p.query_spec(), "owner_id"@) == opt_view(p.owner_id),
        lookup(p.query_spec(), "limit"@) == Some(decimal(p.limit as nat)),
        lookup(p.query_spec(), "offset"@) == Some(decimal(p.offset as nat)),
        lookup(p.query_spec(), "expand"@) == expand_value(p.expand),
        p.query_spec().len() == set_count(p.type_id) + set_count(p.deal_id) + set_count(p.owner_id) + 2 + set_count(p.expand),
{
    reveal_strlit("type_id");
    lemma_lookup_query_parts("type_id"@, p.type_id, p.limit, p.offset, p.expand);
    reveal_strlit("deal_id");
    lemma_lookup_query_parts("deal_id"@, p.deal_id, p.limit, p.offset, p.expand);
    reveal_strlit("owner_id");
    lemma_lookup_query_parts("owner_id"@, p.owner_id, p.limit, p.offset, p.expand);
    let q0 = opt_pair("type_id"@, p.type_id);
    let q1 = opt_pair("deal_id"@, p.deal_id);
    let q2 = opt_pair("owner_id"@, p.owner_id);
    let q3 = page_pairs(p.limit, p.offset);
    let q4 = expand_pairs(p.expand);
    lemma_lookup_concat(q0, q1);
    lemma_lookup_concat(q0 + q1, q2);
    lemma_lookup_concat(q0 + q1 + q2, q3);
    lemma_lookup_concat(q0 + q1 + q2 + q3, q4);
    assert(p.query_spec() == q0 + q1 + q2 + q3 + q4);
    reveal_strlit("limit");
    reveal_strlit("offset");
    reveal_strlit("expand");
    assert("limit"@.len() == 5);
    assert("offset"@.len() == 6);
    assert("expand"@.len() == 6);
    assert("offset"@[0] != "expand"@[0]);
    assert("type_id"@.len() == 7);
    assert("deal_id"@.len() == 7);
    assert("type_id"@[0] != "deal_id"@[0]);
    assert("owner_id"@.len() == 8);
}

/// The pipeline filter of a stages listing is sent exactly when given,
/// with its text; the page is always sent, `expand` when set.
pub proof fn lemma_stages_query_sends_the_pipeline_filter(p: StagesListParams)
    ensures
        lookup(p.query_spec(), "pipeline_id"@) == opt_view(p.pipeline_id),
        lookup(p.query_spec(), "limit"@) == Some(decimal(p.limit as nat)),
        lookup(p.query_spec(), "offset"@) == Some(decimal(p.offset as nat)),
        lookup(p.query_spec(), "expand"@) == expand_value(p.expand),
        p.query_spec().len() == set_count(p.pipeline_id) + 2 + set_count(p.expand),
{
    reveal_strlit("pipeline_id");
    lemma_lookup_query_parts("pipeline_id"@, p.pipeline_id, p.limit, p.offset, p.expand);
    let q0 = opt_pair("pipeline_id"@, p.pipeline_id);
    let q1 = page_pairs(p.limit, p.offset);
    let q2 = expand_pairs(p.expand);
    lemma_lookup_concat(q0, q1);
    lemma_lookup_concat(q0 + q1, q2);
    assert(p.query_spec() == q0 + q1 + q2);
    reveal_strlit("limit");
    reveal_strlit("offset");
    reveal_strlit("expand");
    assert("limit"@.len() == 5);
    assert("offset"@.len() == 6);
    assert("expand"@.len() == 6);
    assert("offset"@[0] != "expand"@[0]);
    assert("pipeline_id"@.len() == 11);
}

/// Parameters for listing pipelines with pagination.
pub struct PipelinesListParams {
    pub limit: u64,
    pub offset: u64,
    pub expand: Option<Vec<String>>,
}

impl PipelinesListParams {
    /// The query pairs: the page, then `expand` when set.
    pub open spec fn query_spec(&self) -> Seq<(Seq<char>, Seq<char>)> {
        page_pairs(self.limit, self.offset) + expand_pairs(self.expand)
    }

    /// Converts the parameters to query-string pairs.
    pub fn to_query_pairs(&self) -> (pairs: Vec<(String, String)>)
        ensures
            pairs_view(pairs@) == self.query_spec(),
    {
        let mut pairs = Vec::new();
        push_page(&mut pairs, self.limit, self.offset);
        push_expand(&mut pairs, &self.expand);
        assert(pairs_view(pairs@) =~= self.query_spec());
        pairs
    }
}

/// Parameters for listing stages, optionally of one pipeline (`None` lists
/// the stages of every pipeline in one unfiltered call).
pub struct StagesListParams {
    pub pipeline_id: Option<String>,
    pub limit: u64,
    pub offset: u64,
    pub expand: Option<Vec<String>>,
}

impl StagesListParams {
    /// The query pairs: the pipeline filter when set, the page, `expand`
    /// when set.
    pub open spec fn query_spec(&self) -> Seq<(Seq<char>, Seq<char>)> {
        opt_pair("pipeline_id"@, self.pipeline_id) + page_pairs(self.limit, self.offset)
            + expand_pairs(self.expand)
    }

    /// Converts the parameters to query-string pairs.
    pub fn to_query_pairs(&self) -> (pairs: Vec<(String, String)>)
        ensures
            pairs_view(pairs@) == self.query_spec(),
    {
        let mut pairs = Vec::new();
        push_opt(&mut pairs, "pipeline_id", &self.pipeline_id);
        push_page(&mut pairs, self.limit, self.offset);
        push_expand(&mut pairs, &self.expand);
        assert(pairs_view(pairs@) =~= self.query_spec());
        pairs
    }
}

/// Parameters for listing workflows with pagination. There is no `active`
/// filter: the server ignores it, so `workflows list --active` filters on
/// the client.
pub struct WorkflowsListParams {
    pub limit: u64,
    pub offset: u64,
    pub expand: Option<Vec<String>>,
}

impl WorkflowsListParams {
    /// The query pairs: the page, then `expand` when set.
    pub open spec fn query_spec(&self) -> Seq<(Seq<char>, Seq<char>)> {
        page_pairs(self.limit, self.offset) + expand_pairs(self.expand)
    }

    /// Converts the parameters to query-string pairs.
    pub fn to_query_pairs(&self) -> (pairs: Vec<(String, String)>)
        ensures
            pairs_view(pairs@) == self.query_spec(),
    {
        let mut pairs = Vec::new();
        push_page(&mut pairs, self.limit, self.offset);
        push_expand(&mut pairs, &self.expand);
        assert(pairs_view(pairs@) =~= self.query_spec());
        pairs
    }
}

/// Parameters for listing the runs of one workflow. `workflow_id` is a path
/// segment, never a query pair; `include_dry_run` is the only way to see
/// test runs.
pub struct WorkflowRunsListParams {
    pub workflow_id: String,
    pub status: Option<String>,
    pub include_dry_run: bool,
    pub limit: u64,
    pub offset: u64,
}

impl WorkflowRunsListParams {
    /// The query pairs: the status filter when set, `dry_run=true` only when
    /// test runs are asked for, then the page.
    pub open spec fn query_spec(&self) -> Seq<(Seq<char>, Seq<char>)> {
        opt_pair("status"@, self.status) + (if self.include_dry_run {
            seq![("dry_run"@, "true"@)]
        } else {
            seq![]
        }) + page_pairs(self.limit, self.offset)
    }

    /// Converts the parameters to query-string pairs.
    pub fn to_query_pairs(&self) -> (pairs: Vec<(String, String)>)
        ensures
            pairs_view(pairs@) == self.query_spec(),
    {
        let mut pairs = Vec::new();
        push_opt(&mut pairs, "status", &self.status);
        if self.include_dry_run {
            push_pair(&mut pairs, "dry_run", owned("true"));
        }
        push_page(&mut pairs, self.limit, self.offset);
        assert(pairs_view(pairs@) =~= self.query_spec());
        pairs
    }
}

/// The runs listing never sends the workflow id as a query pair (it is a
/// path segment), sends `dry_run=true` exactly when test runs are asked
/// for, and always ends with the page.
pub proof fn lemma_runs_query_shape(p: WorkflowRunsListParams)
    ensures
        forall|i: int| 0 <= i < p.query_spec().len() ==> (#[trigger] p.query_spec()[i]).0 != "workflow_id"@,
        p.query_spec().contains(("dry_run"@, "true"@)) <==> p.include_dry_run,
        p.query_spec().len() >= 2,
        p.query_spec()[p.query_spec().len() - 2] == ("limit"@, decimal(p.limit as nat)),
        p.query_spec()[p.query_spec().len() - 1] == ("offset"@, decimal(p.offset as nat)),
{
    reveal_strlit("status");
    reveal_strlit("dry_run");
    reveal_strlit("true");
    reveal_strlit("limit");
    reveal_strlit("offset");
    reveal_strlit("workflow_id");
    let q = p.query_spec();
    assert forall|i: int| 0 <= i < q.len() implies (#[trigger] q[i]).0 != "workflow_id"@ by {
        assert(q[i].0.len() != 11);
    }
    if p.include_dry_run {
        let k: int = if p.status is Some { 1 } else { 0 };
        assert(q[k] == ("dry_run"@, "true"@));
    } else {
        assert forall|i: int| 0 <= i < q.len() implies (#[trigger] q[i]) != ("dry_run"@, "true"@) by {
            assert(q[i].0.len() != 7);
        }
    }
}

/// The status filter of a runs listing is sent exactly when given, with
/// its text; `dry_run` is `true` exactly when test runs are asked for and
/// absent otherwise; the page is always sent.
pub proof fn lemma_runs_query_sends_each_filter(p: WorkflowRunsListParams)
    ensures
        lookup(p.query_spec(), "status"@) == opt_view(p.status),
        lookup(p.query_spec(), "dry_run"@) == (if p.include_dry_run {
            Some("true"@)
        } else {
            None
        }),
        lookup(p.query_spec(), "limit"@) == Some(decimal(p.limit as nat)),
        lookup(p.query_spec(), "offset"@) == Some(decimal(p.offset as nat)),
        p.query_spec().len() == set_count(p.status) + (if p.include_dry_run {
            1nat
        } else {
            0nat
        }) + 2,
{
    reveal_strlit("status");
    reveal_strlit("dry_run");
    reveal_strlit("limit");
    reveal_strlit("offset");
    lemma_lookup_query_parts("status"@, p.status, p.limit, p.offset, None);
    lemma_lookup_small("dry_run"@, "true"@);
    lemma_lookup_small("dry_run"@, Seq::<char>::empty());
    let q0 = opt_pair("status"@, p.status);
    let q1: Seq<(Seq<char>, Seq<char>)> = if p.include_dry_run {
        seq![("dry_run"@, "true"@)]
    } else {
        seq![]
    };
    let q2 = page_pairs(p.limit, p.offset);
    lemma_lookup_concat(q0, q1);
    lemma_lookup_concat(q0 + q1, q2);
    assert(p.query_spec() == q0 + q1 + q2);
    assert("status"@.len() == 6);
    assert("dry_run"@.len() == 7);
    assert("limit"@.len() == 5);
    assert("offset"@.len() == 6);
    assert("status"@[0] != "offset"@[0]);
}

/// A pair for an optional filter that is also left out when empty.
pub open spec fn nonempty_pair(key: Seq<char>, value: Option<String>) -> Seq<(Seq<char>, Seq<char>)> {
    match value {
        Some(v) => if v@.len() > 0 {
            seq![(key, v@)]
        } else {
            seq![]
        },
        None => seq![],
    }
}

/// Appends the pair of an optional filter when it is set and non-empty.
fn push_nonempty(pairs: &mut Vec<(String, String)>, key: &str, value: &Option<String>)
    ensures
        pairs_view(final(pairs)@) == pairs_view(old(pairs)@) + nonempty_pair(key@, *value),
{
    match value {
        Some(v) => {
            if v.as_str().unicode_len() > 0 {
                push_pair(pairs, key, v.clone());
            }
            assert(pairs_view(final(pairs)@) =~= pairs_view(old(pairs)@) + nonempty_pair(
                key@,
                *value,
            ));
        },
        None => {
            assert(pairs_view(final(pairs)@) =~= pairs_view(old(pairs)@) + nonempty_pair(
                key@,
                *value,
            ));
        },
    }
}

/// The query of a plain paginated list (notes, webhooks, templates).
pub fn page_query_pairs(limit: u64, offset: u64) -> (pairs: Vec<(String, String)>)
    ensures
        pairs_view(pairs@) == page_pairs(limit, offset),
{
    let mut pairs = Vec::new();
    push_page(&mut pairs, limit, offset);
    assert(pairs_view(pairs@) =~= page_pairs(limit, offset));
    pairs
}

/// The query of a list with one optional filter sent after the page
/// (custom field definitions by `entity_type`, trash by `type`).
pub fn filtered_page_query_pairs(limit: u64, offset: u64, key: &str, filter: &Option<String>) -> (pairs:
    Vec<(String, String)>)
    ensures
        pairs_view(pairs@) == page_pairs(limit, offset) + opt_pair(key@, *filter),
{
    let mut pairs = Vec::new();
    push_page(&mut pairs, limit, offset);
    push_opt(&mut pairs, key, filter);
    assert(pairs_view(pairs@) =~= page_pairs(limit, offset) + opt_pair(key@, *filter));
    pairs
}

/// The audit-log query: the page, always, then each of the four filters
/// only when set and non-empty (the server rejects empty values).
pub open spec fn audit_query_spec(
    entity_type: Option<String>,
    entity_id: Option<String>,
    actor_kind: Option<String>,
    workflow_run_id: Option<String>,
    limit: u64,
    offset: u64,
) -> Seq<(Seq<char>, Seq<char>)> {
    page_pairs(limit, offset) + nonempty_pair("entity_type"@, entity_type) + nonempty_pair(
        "entity_id"@,
        entity_id,
    ) + nonempty_pair("actor_kind"@, actor_kind) + nonempty_pair(
        "workflow_run_id"@,
        workflow_run_id,
    )
}

/// No audit-log query pair carries an empty value (the server rejects an
/// empty filter), and the page is always sent first.
pub proof fn lemma_audit_query_has_no_empty_value(
    entity_type: Option<String>,
    entity_id: Option<String>,
    actor_kind: Option<String>,
    workflow_run_id: Option<String>,
    limit: u64,
    offset: u64,
)
    ensures
        ({
            let q = audit_query_spec(entity_type, entity_id, actor_kind, workflow_run_id, limit, offset);
            &&& forall|i: int| 0 <= i < q.len() ==> (#[trigger] q[i]).1.len() > 0
            &&& q.len() >= 2
            &&& q[0] == ("limit"@, decimal(limit as nat))
            &&& q[1] == ("offset"@, decimal(offset as nat))
        }),
{
    let q = audit_query_spec(entity_type, entity_id, actor_kind, workflow_run_id, limit, offset);
    assert(decimal(limit as nat).len() > 0);
    assert(decimal(offset as nat).len() > 0);
    assert forall|i: int| 0 <= i < q.len() implies (#[trigger] q[i]).1.len() > 0 by {
        if i >= 2 {
            let rest = nonempty_pair("entity_type"@, entity_type) + nonempty_pair("entity_id"@, entity_id)
                + nonempty_pair("actor_kind"@, actor_kind) + nonempty_pair(
                "workflow_run_id"@,
                workflow_run_id,
            );
            assert(q =~= page_pairs(limit, offset) + rest);
            assert(q[i] == rest[i - 2]);
        }
    }
}

/// Every audit-log filter that is given and non-empty is sent, under its
/// key and with its text; an unset or empty one is not; the page is always
/// sent.
pub proof fn lemma_audit_query_sends_each_filter(
    entity_type: Option<String>,
    entity_id: Option<String>,
    actor_kind: Option<String>,
    workflow_run_id: Option<String>,
    limit: u64,
    offset: u64,
)
    ensures
        ({
            let q = audit_query_spec(entity_type, entity_id, actor_kind, workflow_run_id, limit, offset);
            &&& lookup(q, "entity_type"@) == (if entity_type is Some && entity_type->0@.len() > 0 {
                opt_view(entity_type)
            } else {
                None
            })
            &&& lookup(q, "entity_id"@) == (if entity_id is Some && entity_id->0@.len() > 0 {
                opt_view(entity_id)
            } else {
                None
            })
            &&& lookup(q, "actor_kind"@) == (if actor_kind is Some && actor_kind->0@.len() > 0 {
                opt_view(actor_kind)
            } else {
                None
            })
            &&& lookup(q, "workflow_run_id"@) == (if workflow_run_id is Some
                && workflow_run_id->0@.len() > 0 {
                opt_view(workflow_run_id)
            } else {
                None
            })
            &&& lookup(q, "limit"@) == Some(decimal(limit as nat))
            &&& lookup(q, "offset"@) == Some(decimal(offset as nat))
        }),
{
    reveal_strlit("entity_type");
    reveal_strlit("entity_id");
    reveal_strlit("actor_kind");
    reveal_strlit("workflow_run_id");
    reveal_strlit("limit");
    reveal_strlit("offset");
    lemma_lookup_query_parts("entity_type"@, entity_type, limit, offset, None);
    lemma_lookup_query_parts("entity_id"@, entity_id, limit, offset, None);
    lemma_lookup_query_parts("actor_kind"@, actor_kind, limit, offset, None);
    lemma_lookup_query_parts("workflow_run_id"@, workflow_run_id, limit, offset, None);
    let q0 = page_pairs(limit, offset);
    let q1 = nonempty_pair("entity_type"@, entity_type);
    let q2 = nonempty_pair("entity_id"@, entity_id);
    let q3 = nonempty_pair("actor_kind"@, actor_kind);
    let q4 = nonempty_pair("workflow_run_id"@, workflow_run_id);
    lemma_lookup_concat(q0, q1);
    lemma_lookup_concat(q0 + q1, q2);
    lemma_lookup_concat(q0 + q1 + q2, q3);
    lemma_lookup_concat(q0 + q1 + q2 + q3, q4);
    assert(audit_query_spec(entity_type, entity_id, actor_kind, workflow_run_id, limit, offset) == q0
        + q1 + q2 + q3 + q4);
    assert("entity_type"@.len() == 11);
    assert("entity_id"@.len() == 9);
    assert("actor_kind"@.len() == 10);
    assert("workflow_run_id"@.len() == 15);
    assert("limit"@.len() == 5);
    assert("offset"@.len() == 6);
}

/// Builds the audit-log query.
pub fn audit_query_pairs(
    entity_type: &Option<String>,
    entity_id: &Option<String>,
    actor_kind: &Option<String>,
    workflow_run_id: &Option<String>,
    limit: u64,
    offset: u64,
) -> (pairs: Vec<(String, String)>)
    ensures
        pairs_view(pairs@) == audit_query_spec(
            *entity_type,
            *entity_id,
            *actor_kind,
            *workflow_run_id,
            limit,
            offset,
        ),
{
    let mut pairs = Vec::new();
    push_page(&mut pairs, limit, offset);
    push_nonempty(&mut pairs, "entity_type", entity_type);
    push_nonempty(&mut pairs, "entity_id", entity_id);
    push_nonempty(&mut pairs, "actor_kind", actor_kind);
    push_nonempty(&mut pairs, "workflow_run_id", workflow_run_id);
    assert(pairs_view(pairs@) =~= audit_query_spec(
        *entity_type,
        *entity_id,
        *actor_kind,
        *workflow_run_id,
        limit,
        offset,
    ));
    pairs
}

} // verus!
