//! Cost figures supplied as a JSON document.
//!
//! The document is an object with the optional groups `infrastructure`,
//! `operations`, `development` and `business_impact`. Every figure in a group
//! is optional on its own: one that is absent, or is no number, counts as
//! zero. A number is taken as it stands, below zero too. Only a text that is
//! no JSON document at all is an error.

use vstd::prelude::*;
use crate::decimal::{float_signed_nanos, SignedDecimal};
use crate::error::CrabScoreError;
use crate::metrics::{
    BusinessImpact, CostMetrics, DevelopmentCosts, InfrastructureCosts, OperationalCosts,
};

verus! {

/// Declares `serde_json::Value`, a parsed JSON value. Nothing inside it is
/// visible here: it is read through the functions below.
#[verifier::external_type_specification]
#[verifier::external_body]
pub struct ExJsonValue(serde_json::Value);

/// The value that `serde_json::from_str` reads from `text`; `None` where it
/// reports an error.
pub uninterp spec fn json_document(text: Seq<char>) -> Option<serde_json::Value>;

/// The member that `serde_json::Value::get` finds in `value` under the
/// string key `key`.
pub uninterp spec fn json_member(value: serde_json::Value, key: Seq<char>) -> Option<
    serde_json::Value,
>;

/// The bit pattern of the 64-bit floating-point number that
/// `serde_json::Value::as_f64` gives for `value`.
pub uninterp spec fn json_float_bits(value: serde_json::Value) -> Option<u64>;

/// The integer that `serde_json::Value::as_u64` gives for `value`.
pub uninterp spec fn json_unsigned(value: serde_json::Value) -> Option<u64>;

/// Calls `serde_json::from_str` for a `serde_json::Value`. The contract names
/// the outcome `json_document`: the same text always reads as the same value,
/// or always fails.
#[verifier::external_body]
fn parse_json(text: &str) -> (r: Result<serde_json::Value, serde_json::Error>)
    ensures
        r is Ok <==> json_document(text@) is Some,
        r is Ok ==> r.unwrap() == json_document(text@).unwrap(),
{
    serde_json::from_str(text)
}

/// Calls `serde_json::Value::get` with a string key. The contract names the
/// outcome `json_member`.
#[verifier::external_body]
fn member<'a>(value: &'a serde_json::Value, key: &str) -> (r: Option<&'a serde_json::Value>)
    ensures
        r is Some <==> json_member(*value, key@) is Some,
        r is Some ==> *r.unwrap() == json_member(*value, key@).unwrap(),
{
    value.get(key)
}

/// Calls `serde_json::Value::as_f64` and hands the number out as its bit
/// pattern. The contract names the outcome `json_float_bits`.
#[verifier::external_body]
fn float_bits(value: &serde_json::Value) -> (r: Option<u64>)
    ensures
        r == json_float_bits(*value),
{
    value.as_f64().map(|x| x.to_bits())
}

/// Calls `serde_json::Value::as_u64`. The contract names the outcome
/// `json_unsigned`.
#[verifier::external_body]
fn unsigned(value: &serde_json::Value) -> (r: Option<u64>)
    ensures
        r == json_unsigned(*value),
{
    value.as_u64()
}

/// The quantity that a figure with the floating-point pattern `bits` stands
/// for, in billionths: the number that the pattern holds, and zero where
/// there is no pattern or it holds no finite number.
pub open spec fn quantity_of_bits(bits: Option<u64>) -> int {
    match bits {
        None => 0,
        Some(b) => match float_signed_nanos(b) {
            None => 0,
            Some(n) => n,
        },
    }
}

/// The quantity under `field` in `group`, in billionths: zero where the
/// group or the field is absent.
pub open spec fn quantity_in(group: Option<serde_json::Value>, field: Seq<char>) -> int {
    match group {
        None => 0,
        Some(g) => match json_member(g, field) {
            None => 0,
            Some(leaf) => quantity_of_bits(json_float_bits(leaf)),
        },
    }
}

/// The count under `field` in `group`: zero where the group or the field is
/// absent or the field holds no unsigned integer.
pub open spec fn count_in(group: Option<serde_json::Value>, field: Seq<char>) -> u64 {
    match group {
        None => 0,
        Some(g) => match json_member(g, field) {
            None => 0,
            Some(leaf) => match json_unsigned(leaf) {
                None => 0,
                Some(n) => n,
            },
        },
    }
}

/// `m` holds exactly the figures of the document `doc`.
pub open spec fn reads_as(doc: serde_json::Value, m: CostMetrics) -> bool {
    let infra = json_member(doc, "infrastructure"@);
    let ops = json_member(doc, "operations"@);
    let dev = json_member(doc, "development"@);
    let biz = json_member(doc, "business_impact"@);
    &&& m.infrastructure.cloud_compute_usd@ == quantity_in(infra, "cloud_compute_usd"@)
    &&& m.infrastructure.storage_usd@ == quantity_in(infra, "storage_usd"@)
    &&& m.infrastructure.network_egress_usd@ == quantity_in(infra, "network_egress_usd"@)
    &&& m.infrastructure.cost_per_million_ops@ == quantity_in(infra, "cost_per_million_ops"@)
    &&& m.operations.mttr_minutes@ == quantity_in(ops, "mttr_minutes"@)
    &&& m.operations.incidents_per_month@ == quantity_in(ops, "incidents_per_month"@)
    &&& m.operations.overhead_percentage@ == quantity_in(ops, "overhead_percentage"@)
    &&& m.operations.monitoring_usd@ == quantity_in(ops, "monitoring_usd"@)
    &&& m.development.loc == count_in(dev, "loc"@)
    &&& m.development.cyclomatic_complexity@ == quantity_in(dev, "cyclomatic_complexity"@)
    &&& m.development.code_churn@ == quantity_in(dev, "code_churn"@)
    &&& m.development.onboarding_days@ == quantity_in(dev, "onboarding_days"@)
    &&& m.business_impact.revenue_per_100ms_latency@ == quantity_in(
        biz,
        "revenue_per_100ms_latency"@,
    )
    &&& m.business_impact.csat_score@ == quantity_in(biz, "csat_score"@)
    &&& m.business_impact.sla_compliance@ == quantity_in(biz, "sla_compliance"@)
    &&& m.business_impact.competitive_advantage@ == quantity_in(biz, "competitive_advantage"@)
}

/// The member of an optional value, as a value.
pub open spec fn owned(group: Option<&serde_json::Value>) -> Option<serde_json::Value> {
    match group {
        None => None,
        Some(g) => Some(*g),
    }
}

/// The quantity that a figure read as the floating-point pattern `bits`
/// stands for: zero where there is none or it is no finite number.
pub fn quantity_from_bits(bits: Option<u64>) -> (d: SignedDecimal)
    ensures
        d@ == quantity_of_bits(bits),
{
    match bits {
        None => SignedDecimal::zero(),
        Some(b) => match SignedDecimal::from_float_bits(b) {
            None => SignedDecimal::zero(),
            Some(d) => d,
        },
    }
}

fn quantity(group: Option<&serde_json::Value>, field: &str) -> (d: SignedDecimal)
    ensures
        d@ == quantity_in(owned(group), field@),
{
    match group {
        None => SignedDecimal::zero(),
        Some(g) => match member(g, field) {
            None => SignedDecimal::zero(),
            Some(leaf) => quantity_from_bits(float_bits(leaf)),
        },
    }
}

fn count(group: Option<&serde_json::Value>, field: &str) -> (n: u64)
    ensures
        n == count_in(owned(group), field@),
{
    match group {
        None => 0,
        Some(g) => match member(g, field) {
            None => 0,
            Some(leaf) => match unsigned(leaf) {
                None => 0,
                Some(n) => n,
            },
        },
    }
}

/// Reads the cost figures out of a JSON document that has been parsed.
pub fn cost_metrics_from_json(doc: &serde_json::Value) -> (m: CostMetrics)
    ensures
        reads_as(*doc, m),
{
    let infra = member(doc, "infrastructure");
    let ops = member(doc, "operations");
    let dev = member(doc, "development");
    let biz = member(doc, "business_impact");
    CostMetrics {
        infrastructure: InfrastructureCosts {
            cloud_compute_usd: quantity(infra, "cloud_compute_usd"),
            storage_usd: quantity(infra, "storage_usd"),
            network_egress_usd: quantity(infra, "network_egress_usd"),
            cost_per_million_ops: quantity(infra, "cost_per_million_ops"),
        },
        operations: OperationalCosts {
            mttr_minutes: quantity(ops, "mttr_minutes"),
            incidents_per_month: quantity(ops, "incidents_per_month"),
            overhead_percentage: quantity(ops, "overhead_percentage"),
            monitoring_usd: quantity(ops, "monitoring_usd"),
        },
        development: DevelopmentCosts {
            loc: count(dev, "loc"),
            cyclomatic_complexity: quantity(dev, "cyclomatic_complexity"),
            code_churn: quantity(dev, "code_churn"),
            onboarding_days: quantity(dev, "onboarding_days"),
        },
        business_impact: BusinessImpact {
            revenue_per_100ms_latency: quantity(biz, "revenue_per_100ms_latency"),
            csat_score: quantity(biz, "csat_score"),
            sla_compliance: quantity(biz, "sla_compliance"),
            competitive_advantage: quantity(biz, "competitive_advantage"),
        },
    }
}

/// Reads the cost figures out of the text of a JSON document. The text is
/// refused exactly when it is no JSON document; absent or ill-typed groups
/// and figures count as zero.
pub fn parse_cost_metrics(text: &str) -> (r: Result<CostMetrics, CrabScoreError>)
    ensures
        r is Ok <==> json_document(text@) is Some,
        r is Ok ==> reads_as(json_document(text@).unwrap(), r.unwrap()),
        r is Err ==> r.unwrap_err() is JsonError,
{
    match parse_json(text) {
        Ok(doc) => Ok(cost_metrics_from_json(&doc)),
        Err(e) => Err(CrabScoreError::JsonError(e)),
    }
}

/// A source of cost figures for a project.
pub trait CostProvider {
    /// The cost figures of the project rooted at `project_root`.
    fn collect(&self, project_root: &str) -> Result<CostMetrics, CrabScoreError>;
}

/// Cost figures that the user states in a JSON file.
pub struct StaticCostProvider {
    file_path: String,
    refresh_secs: u64,
}

impl StaticCostProvider {
    /// The path of the file, as a sequence of characters.
    pub closed spec fn path(&self) -> Seq<char> {
        self.file_path@
    }

    /// Seconds after which the figures are read again.
    pub closed spec fn refresh(&self) -> u64 {
        self.refresh_secs
    }

    /// A provider that takes its figures from the file at `file_path` and
    /// holds them for five minutes.
    pub fn new(file_path: &str) -> (p: Self)
        ensures
            p.path() == file_path@,
            p.refresh() == 300,
    {
        StaticCostProvider { file_path: file_path.to_owned(), refresh_secs: 300 }
    }

    /// The path of the file that holds the figures.
    pub fn file_path(&self) -> (s: &str)
        ensures
            s@ == self.path(),
    {
        self.file_path.as_str()
    }

    /// Seconds after which the figures are read again.
    pub fn refresh_secs(&self) -> (n: u64)
        ensures
            n == self.refresh(),
    {
        self.refresh_secs
    }

    /// The cost figures in `content`, the text of the provider's file.
    pub fn collect(&self, content: &str) -> (r: Result<CostMetrics, CrabScoreError>)
        ensures
            r is Ok <==> json_document(content@) is Some,
            r is Ok ==> reads_as(json_document(content@).unwrap(), r.unwrap()),
            r is Err ==> r.unwrap_err() is JsonError,
    {
        parse_cost_metrics(content)
    }
}

} // verus!
