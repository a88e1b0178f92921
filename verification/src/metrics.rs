//! The evaluation figures that the service attaches to a trained chatbot.
//!
//! Every record is read from a JSON object. Members the record does not know
//! are passed over, and the optional ones may be left out or be `null`.

use crate::entries::{distinct_names, entries_map, enumerates, lemma_entries_of_keys};
use crate::errors::ApiError;
use crate::fields::{
    failed_with, invalid, invalid_field, members_field, members_of, missing_field, number_field,
    optional, optional_of, optional_text_field, read_members, read_members_field,
    read_number_field, read_optional_text_field, read_usize_field, required, unsigned_field,
    Members,
};
use crate::json::{find_member, json_model, member_names, object_members, Json, JsonNumber};
use crate::numeral::Numeral;
use serde_json::Value;
use vstd::pervasive::unreached;
use vstd::prelude::*;

verus! {

/// How well the classifier does on one category.
#[derive(Debug, PartialEq)]
pub struct ClassificationMetrics {
    pub precision: Numeral,
    pub recall: Numeral,
    pub support: usize,
    pub f1_score: Numeral,
}

/// What a [`ClassificationMetrics`] holds.
pub struct ClassificationMetricsView {
    pub precision: JsonNumber,
    pub recall: JsonNumber,
    pub support: nat,
    pub f1_score: JsonNumber,
}

impl View for ClassificationMetrics {
    type V = ClassificationMetricsView;

    open spec fn view(&self) -> ClassificationMetricsView {
        ClassificationMetricsView {
            precision: self.precision@,
            recall: self.recall@,
            support: self.support as nat,
            f1_score: self.f1_score@,
        }
    }
}

/// The figures of one category as the document `value` gives them; `key`
/// names the place of the document in reports of a wrong kind.
pub open spec fn classification_metrics_of(value: Json, key: Seq<char>) -> Result<
    ClassificationMetricsView,
    Seq<char>,
> {
    match members_of(value, key) {
        Err(message) => Err(message),
        Ok(members) => {
            let precision = number_field(members, "precision"@);
            let recall = number_field(members, "recall"@);
            let support = unsigned_field(members, "support"@, usize::MAX as int);
            let f1_score = number_field(members, "f1-score"@);
            if precision is Err {
                Err(precision->Err_0)
            } else if recall is Err {
                Err(recall->Err_0)
            } else if support is Err {
                Err(support->Err_0)
            } else if f1_score is Err {
                Err(f1_score->Err_0)
            } else {
                Ok(
                    ClassificationMetricsView {
                        precision: precision->Ok_0,
                        recall: recall->Ok_0,
                        support: support->Ok_0,
                        f1_score: f1_score->Ok_0,
                    },
                )
            }
        },
    }
}

impl ClassificationMetrics {
    /// Reads the figures of one category.
    pub fn from_json(value: &Value, key: &str) -> (outcome: Result<ClassificationMetrics, ApiError>)
        ensures
            match classification_metrics_of(json_model(*value), key@) {
                Ok(figures) => outcome matches Ok(read) && read@ == figures,
                Err(message) => failed_with(outcome, message),
            },
    {
        let members = read_members(value, key)?;
        let precision = read_number_field(members, "precision")?;
        let recall = read_number_field(members, "recall")?;
        let support = read_usize_field(members, "support")?;
        let f1_score = read_number_field(members, "f1-score")?;
        Ok(ClassificationMetrics { precision, recall, support, f1_score })
    }
}

/// The views of a list of named categories.
pub open spec fn category_entries(list: Seq<(String, ClassificationMetrics)>) -> Seq<
    (Seq<char>, ClassificationMetricsView),
> {
    list.map_values(|entry: (String, ClassificationMetrics)| (entry.0@, entry.1@))
}

/// The classifier's report: its overall accuracy, and its figures for each
/// category under the category's name.
#[derive(Debug, PartialEq)]
pub struct ClassificationReport {
    pub accuracy: Numeral,
    pub categories: Vec<(String, ClassificationMetrics)>,
}

/// What a [`ClassificationReport`] holds.
pub struct ClassificationReportView {
    pub accuracy: JsonNumber,
    pub categories: Map<Seq<char>, ClassificationMetricsView>,
}

impl View for ClassificationReport {
    type V = ClassificationReportView;

    open spec fn view(&self) -> ClassificationReportView {
        ClassificationReportView {
            accuracy: self.accuracy@,
            categories: entries_map(category_entries(self.categories@)),
        }
    }
}

/// The members of a report that stand for categories: all but the accuracy.
pub open spec fn category_members(members: Members) -> Members {
    members.remove("accuracy"@)
}

/// The categories of a report. One member that is no category's figures
/// spoils the whole report.
pub open spec fn categories_of(members: Members, key: Seq<char>) -> Result<
    Map<Seq<char>, ClassificationMetricsView>,
    Seq<char>,
> {
    let listed = category_members(members);
    if forall|name: Seq<char>|
        listed.contains_key(name) ==> classification_metrics_of(#[trigger] listed[name], key) is Ok {
        Ok(listed.map_values(|value: Json| classification_metrics_of(value, key)->Ok_0))
    } else {
        Err(invalid_field(key))
    }
}

/// The report as the document `value` gives it.
pub open spec fn classification_report_of(value: Json, key: Seq<char>) -> Result<
    ClassificationReportView,
    Seq<char>,
> {
    match members_of(value, key) {
        Err(message) => Err(message),
        Ok(members) => {
            let accuracy = number_field(members, "accuracy"@);
            let categories = categories_of(members, key);
            if accuracy is Err {
                Err(accuracy->Err_0)
            } else if categories is Err {
                Err(categories->Err_0)
            } else {
                Ok(
                    ClassificationReportView {
                        accuracy: accuracy->Ok_0,
                        categories: categories->Ok_0,
                    },
                )
            }
        },
    }
}

/// The keys of `members` other than `"accuracy"`, each once.
fn category_names(members: &serde_json::Map<String, Value>) -> (names: Vec<String>)
    ensures
        enumerates(names@, category_members(object_members(*members))),
{
    let all = member_names(members);
    let accuracy = "accuracy".to_owned();
    let ghost listed = category_members(object_members(*members));
    let mut names: Vec<String> = Vec::new();
    // Where each kept name stood in `all`, and where each name of `all` went.
    let ghost mut origin: Seq<int> = Seq::empty();
    let ghost mut slot: Seq<int> = Seq::empty();
    let mut i: usize = 0;
    while i < all.len()
        invariant
            i <= all.len(),
            accuracy@ == "accuracy"@,
            origin.len() == names@.len(),
            slot.len() == i,
            forall|j: int|
                0 <= j < names@.len() ==> 0 <= #[trigger] origin[j] < i && names@[j]@
                    == all@[origin[j]]@ && names@[j]@ != "accuracy"@,
            forall|j: int, k: int|
                0 <= j < k < names@.len() ==> #[trigger] origin[j] < #[trigger] origin[k],
            forall|k: int|
                0 <= k < i && all@[k]@ != "accuracy"@ ==> 0 <= #[trigger] slot[k] < names@.len()
                    && origin[slot[k]] == k,
        decreases all.len() - i,
    {
        if all[i] != accuracy {
            proof {
                slot = slot.push(names@.len() as int);
                origin = origin.push(i as int);
            }
            names.push(all[i].clone());
        } else {
            proof {
                slot = slot.push(-1);
            }
        }
        i += 1;
    }
    proof {
        assert forall|j: int, k: int| 0 <= j < k < names@.len() implies names@[j]@
            != names@[k]@ by {
            assert(origin[j] < origin[k]);
            assert(all@[origin[j]]@ != all@[origin[k]]@);
        }
        assert forall|j: int| 0 <= j < names@.len() implies listed.contains_key(
            #[trigger] names@[j]@,
        ) by {
            assert(object_members(*members).contains_key(all@[origin[j]]@));
        }
        assert forall|key: Seq<char>| listed.contains_key(key) implies exists|j: int|
            0 <= j < names@.len() && #[trigger] names@[j]@ == key by {
            let k = choose|k: int| 0 <= k < all@.len() && #[trigger] all@[k]@ == key;
            assert(origin[slot[k]] == k);
            assert(names@[slot[k]]@ == key);
        }
    }
    names
}

/// Reads the categories of a report.
fn read_categories(members: &serde_json::Map<String, Value>, key: &str) -> (outcome: Result<
    Vec<(String, ClassificationMetrics)>,
    ApiError,
>)
    ensures
        match categories_of(object_members(*members), key@) {
            Ok(categories) => outcome matches Ok(read) && distinct_names(category_entries(read@))
                && entries_map(category_entries(read@)) == categories,
            Err(message) => failed_with(outcome, message),
        },
{
    let names = category_names(members);
    let ghost listed = category_members(object_members(*members));
    let ghost image = |value: Json| classification_metrics_of(value, key@)->Ok_0;
    let mut read: Vec<(String, ClassificationMetrics)> = Vec::new();
    let mut i: usize = 0;
    while i < names.len()
        invariant
            i <= names.len(),
            read@.len() == i,
            listed == category_members(object_members(*members)),
            enumerates(names@, listed),
            forall|j: int|
                0 <= j < i ==> (#[trigger] read@[j]).0@ == names@[j]@ && classification_metrics_of(
                    listed[names@[j]@],
                    key@,
                ) == Ok::<ClassificationMetricsView, Seq<char>>(read@[j].1@),
        decreases names.len() - i,
    {
        assert(listed.contains_key(names@[i as int]@));
        match find_member(members, names[i].as_str()) {
            Some(value) => match ClassificationMetrics::from_json(value, key) {
                Ok(figures) => {
                    read.push((names[i].clone(), figures));
                },
                Err(_) => {
                    assert(classification_metrics_of(listed[names@[i as int]@], key@) is Err);
                    return Err(invalid(key));
                },
            },
            None => {
                return unreached();
            },
        }
        i += 1;
    }
    proof {
        let entries = category_entries(read@);
        assert forall|name: Seq<char>| listed.contains_key(name) implies classification_metrics_of(
            #[trigger] listed[name],
            key@,
        ) is Ok by {
            let j = choose|j: int| 0 <= j < names@.len() && #[trigger] names@[j]@ == name;
            assert(read@[j].0@ == names@[j]@);
        }
        assert forall|j: int| 0 <= j < entries.len() implies (#[trigger] entries[j]).0
            == names@[j]@ && entries[j].1 == image(listed[names@[j]@]) by {
            assert(read@[j].0@ == names@[j]@);
        }
        lemma_entries_of_keys(names@, listed, image, entries);
    }
    Ok(read)
}

impl ClassificationReport {
    /// Whether no category is listed twice.
    pub open spec fn well_formed(&self) -> bool {
        distinct_names(category_entries(self.categories@))
    }

    /// Reads the classifier's report.
    pub fn from_json(value: &Value, key: &str) -> (outcome: Result<ClassificationReport, ApiError>)
        ensures
            match classification_report_of(json_model(*value), key@) {
                Ok(report) => outcome matches Ok(read) && read@ == report && read.well_formed(),
                Err(message) => failed_with(outcome, message),
            },
    {
        let members = read_members(value, key)?;
        let accuracy = read_number_field(members, "accuracy")?;
        let categories = read_categories(members, key)?;
        Ok(ClassificationReport { accuracy, categories })
    }
}

/// Figures that sum the model up in three numbers.
#[derive(Debug, PartialEq)]
pub struct ModelMetrics {
    pub accuracy: Numeral,
    pub error_rate: Numeral,
    pub recall: Numeral,
}

/// What a [`ModelMetrics`] holds.
pub struct ModelMetricsView {
    pub accuracy: JsonNumber,
    pub error_rate: JsonNumber,
    pub recall: JsonNumber,
}

impl View for ModelMetrics {
    type V = ModelMetricsView;

    open spec fn view(&self) -> ModelMetricsView {
        ModelMetricsView {
            accuracy: self.accuracy@,
            error_rate: self.error_rate@,
            recall: self.recall@,
        }
    }
}

/// The summary figures as the members of an object give them.
pub open spec fn model_metrics_of(members: Members) -> Result<ModelMetricsView, Seq<char>> {
    let accuracy = number_field(members, "accuracy"@);
    let error_rate = number_field(members, "error_rate"@);
    let recall = number_field(members, "recall"@);
    if accuracy is Err {
        Err(accuracy->Err_0)
    } else if error_rate is Err {
        Err(error_rate->Err_0)
    } else if recall is Err {
        Err(recall->Err_0)
    } else {
        Ok(
            ModelMetricsView {
                accuracy: accuracy->Ok_0,
                error_rate: error_rate->Ok_0,
                recall: recall->Ok_0,
            },
        )
    }
}

impl ModelMetrics {
    /// Reads the summary figures from the members of an object.
    pub fn from_members(members: &serde_json::Map<String, Value>) -> (outcome: Result<
        ModelMetrics,
        ApiError,
    >)
        ensures
            match model_metrics_of(object_members(*members)) {
                Ok(figures) => outcome matches Ok(read) && read@ == figures,
                Err(message) => failed_with(outcome, message),
            },
    {
        let accuracy = read_number_field(members, "accuracy")?;
        let error_rate = read_number_field(members, "error_rate")?;
        let recall = read_number_field(members, "recall")?;
        Ok(ModelMetrics { accuracy, error_rate, recall })
    }
}

/// Everything the service measured when it trained a model.
#[derive(Debug, PartialEq)]
pub struct Metrics {
    pub classification_report: ClassificationReport,
    pub model_metrics: ModelMetrics,
}

/// What a [`Metrics`] holds.
pub struct MetricsView {
    pub classification_report: ClassificationReportView,
    pub model_metrics: ModelMetricsView,
}

impl View for Metrics {
    type V = MetricsView;

    open spec fn view(&self) -> MetricsView {
        MetricsView {
            classification_report: self.classification_report@,
            model_metrics: self.model_metrics@,
        }
    }
}

/// The classifier's report among the members of an object.
pub open spec fn classification_report_field(members: Members) -> Result<
    ClassificationReportView,
    Seq<char>,
> {
    if members.contains_key("classification_report"@) {
        classification_report_of(members["classification_report"@], "classification_report"@)
    } else {
        Err(missing_field("classification_report"@))
    }
}

/// The summary figures among the members of an object.
pub open spec fn model_metrics_field(members: Members) -> Result<ModelMetricsView, Seq<char>> {
    match members_field(members, "model_metrics"@) {
        Ok(inner) => model_metrics_of(inner),
        Err(message) => Err(message),
    }
}

/// The measurements as the document `value` gives them.
pub open spec fn metrics_of(value: Json, key: Seq<char>) -> Result<MetricsView, Seq<char>> {
    match members_of(value, key) {
        Err(message) => Err(message),
        Ok(members) => {
            let report = classification_report_field(members);
            let figures = model_metrics_field(members);
            if report is Err {
                Err(report->Err_0)
            } else if figures is Err {
                Err(figures->Err_0)
            } else {
                Ok(
                    MetricsView {
                        classification_report: report->Ok_0,
                        model_metrics: figures->Ok_0,
                    },
                )
            }
        },
    }
}

impl Metrics {
    /// Whether the report lists no category twice.
    pub open spec fn well_formed(&self) -> bool {
        self.classification_report.well_formed()
    }

    /// Reads the measurements of a trained model.
    pub fn from_json(value: &Value, key: &str) -> (outcome: Result<Metrics, ApiError>)
        ensures
            match metrics_of(json_model(*value), key@) {
                Ok(metrics) => outcome matches Ok(read) && read@ == metrics && read.well_formed(),
                Err(message) => failed_with(outcome, message),
            },
    {
        let members = read_members(value, key)?;
        let report = required(members, "classification_report")?;
        let classification_report = ClassificationReport::from_json(
            report,
            "classification_report",
        )?;
        let figures = read_members_field(members, "model_metrics")?;
        let model_metrics = ModelMetrics::from_members(figures)?;
        Ok(Metrics { classification_report, model_metrics })
    }
}

/// What the service reports about the model it trained for a chatbot.
#[derive(Debug, PartialEq)]
pub struct EvaluationMetrics {
    pub metrics: Option<Metrics>,
    pub model_type: Option<String>,
    pub status: Option<String>,
}

/// What an [`EvaluationMetrics`] holds.
pub struct EvaluationMetricsView {
    pub metrics: Option<MetricsView>,
    pub model_type: Option<Seq<char>>,
    pub status: Option<Seq<char>>,
}

/// The view of an optional text.
pub open spec fn optional_text_view(text: Option<String>) -> Option<Seq<char>> {
    match text {
        Some(text) => Some(text@),
        None => None,
    }
}

impl View for EvaluationMetrics {
    type V = EvaluationMetricsView;

    open spec fn view(&self) -> EvaluationMetricsView {
        EvaluationMetricsView {
            metrics: match self.metrics {
                Some(metrics) => Some(metrics@),
                None => None,
            },
            model_type: optional_text_view(self.model_type),
            status: optional_text_view(self.status),
        }
    }
}

/// The measurements among the members of an object, where they are there.
pub open spec fn optional_metrics_field(members: Members) -> Result<Option<MetricsView>, Seq<char>> {
    match optional_of(members, "metrics"@) {
        Some(value) => match metrics_of(value, "metrics"@) {
            Ok(metrics) => Ok(Some(metrics)),
            Err(message) => Err(message),
        },
        None => Ok(None),
    }
}

/// The evaluation as the document `value` gives it.
pub open spec fn evaluation_metrics_of(value: Json, key: Seq<char>) -> Result<
    EvaluationMetricsView,
    Seq<char>,
> {
    match members_of(value, key) {
        Err(message) => Err(message),
        Ok(members) => {
            let metrics = optional_metrics_field(members);
            let model_type = optional_text_field(members, "model_type"@);
            let status = optional_text_field(members, "status"@);
            if metrics is Err {
                Err(metrics->Err_0)
            } else if model_type is Err {
                Err(model_type->Err_0)
            } else if status is Err {
                Err(status->Err_0)
            } else {
                Ok(
                    EvaluationMetricsView {
                        metrics: metrics->Ok_0,
                        model_type: model_type->Ok_0,
                        status: status->Ok_0,
                    },
                )
            }
        },
    }
}

impl EvaluationMetrics {
    /// Whether the measurements, where there are any, list no category
    /// twice.
    pub open spec fn well_formed(&self) -> bool {
        self.metrics matches Some(metrics) ==> metrics.well_formed()
    }

    /// Reads the evaluation of a chatbot's model.
    pub fn from_json(value: &Value, key: &str) -> (outcome: Result<EvaluationMetrics, ApiError>)
        ensures
            match evaluation_metrics_of(json_model(*value), key@) {
                Ok(evaluation) => outcome matches Ok(read) && read@ == evaluation
                    && read.well_formed(),
                Err(message) => failed_with(outcome, message),
            },
    {
        let members = read_members(value, key)?;
        let metrics = match optional(members, "metrics") {
            Some(inner) => Some(Metrics::from_json(inner, "metrics")?),
            None => None,
        };
        let model_type = read_optional_text_field(members, "model_type")?;
        let status = read_optional_text_field(members, "status")?;
        Ok(EvaluationMetrics { metrics, model_type, status })
    }
}

} // verus!
