//! The service's reply: its schema, and a parser from JSON text.
//!
//! Parsing is lenient: unknown members are ignored, and an optional member
//! that is absent or `null` reads as `None`. A required member that is absent,
//! `null` or of the wrong type, or an optional member of the wrong type, makes
//! the whole reply invalid.

use crate::error::{ErrorKind, HoundifyError};
use crate::json::{
    as_i64_spec, decode_json, json_decoded, json_error_text, number_model, object_get, object_model, value_model,
    JsonModel, NumberModel, ObjectModel,
};
use vstd::prelude::*;
use vstd::string::*;

verus! {

// ---------------------------------------------------------------------------
// Reading members, as mathematical functions of the JSON object.
// ---------------------------------------------------------------------------

/// The member `key` of an object; an absent member reads as `null`.
pub open spec fn member(o: ObjectModel, key: Seq<char>) -> JsonModel {
    if o.contains_key(key) {
        o[key]
    } else {
        JsonModel::Null
    }
}

/// What an optional exec value is seen as.
pub open spec fn opt_view<T: View>(o: Option<T>) -> Option<T::V> {
    match o {
        Some(x) => Some(x@),
        None => None,
    }
}

/// A required string.
pub open spec fn str_of(v: JsonModel) -> Option<Seq<char>> {
    match v {
        JsonModel::Str(s) => Some(s),
        _ => None,
    }
}

/// A required number.
pub open spec fn number_of(v: JsonModel) -> Option<NumberModel> {
    match v {
        JsonModel::Number(n) => Some(n),
        _ => None,
    }
}

/// An optional string: `Some(None)` for `null`, `None` for a value of
/// another type.
pub open spec fn opt_str_of(v: JsonModel) -> Option<Option<Seq<char>>> {
    match v {
        JsonModel::Null => Some(None),
        JsonModel::Str(s) => Some(Some(s)),
        _ => None,
    }
}

/// An optional `i64`.
pub open spec fn opt_i64_of(v: JsonModel) -> Option<Option<i64>> {
    match v {
        JsonModel::Null => Some(None),
        _ => match as_i64_spec(v) {
            Some(i) => Some(Some(i)),
            None => None,
        },
    }
}

/// An optional number, integer or float.
pub open spec fn opt_number_of(v: JsonModel) -> Option<Option<NumberModel>> {
    match v {
        JsonModel::Null => Some(None),
        JsonModel::Number(n) => Some(Some(n)),
        _ => None,
    }
}

/// An optional object.
pub open spec fn opt_object_of(v: JsonModel) -> Option<Option<ObjectModel>> {
    match v {
        JsonModel::Null => Some(None),
        JsonModel::Object(o) => Some(Some(o)),
        _ => None,
    }
}

/// An optional array of booleans.
pub open spec fn opt_bools_of(v: JsonModel) -> Option<Option<Seq<bool>>> {
    match v {
        JsonModel::Null => Some(None),
        JsonModel::Array(items) => if forall|i: int| 0 <= i < items.len() ==> #[trigger] items[i] is Bool {
            Some(Some(items.map_values(|x: JsonModel| x->Bool_0)))
        } else {
            None
        },
        _ => None,
    }
}

/// An optional array of objects.
pub open spec fn opt_objects_of(v: JsonModel) -> Option<Option<Seq<ObjectModel>>> {
    match v {
        JsonModel::Null => Some(None),
        JsonModel::Array(items) => if forall|i: int| 0 <= i < items.len() ==> #[trigger] items[i] is Object {
            Some(Some(items.map_values(|x: JsonModel| x->Object_0)))
        } else {
            None
        },
        _ => None,
    }
}

// ---------------------------------------------------------------------------
// The schema.
// ---------------------------------------------------------------------------

/// The credits that one domain cost.
#[derive(Debug)]
pub struct DomainUsage {
    /// The title of a domain that the query used.
    pub domain: String,
    /// The unique id of that domain.
    pub domain_unique_id: String,
    /// How many credits the use of the domain cost.
    pub credits_used: serde_json::Number,
}

pub struct DomainUsageView {
    pub domain: Seq<char>,
    pub domain_unique_id: Seq<char>,
    pub credits_used: NumberModel,
}

impl View for DomainUsage {
    type V = DomainUsageView;

    open spec fn view(&self) -> DomainUsageView {
        DomainUsageView {
            domain: self.domain@,
            domain_unique_id: self.domain_unique_id@,
            credits_used: number_model(self.credits_used),
        }
    }
}

/// How the server that answered was built.
#[derive(Debug)]
pub struct BuildInfo {
    pub user: Option<String>,
    pub date: Option<String>,
    pub machine: Option<String>,
    pub svn_revision: Option<String>,
    pub svn_branch: Option<String>,
    pub build_number: Option<String>,
    pub kind: Option<String>,
    pub variant: Option<String>,
}

pub struct BuildInfoView {
    pub user: Option<Seq<char>>,
    pub date: Option<Seq<char>>,
    pub machine: Option<Seq<char>>,
    pub svn_revision: Option<Seq<char>>,
    pub svn_branch: Option<Seq<char>>,
    pub build_number: Option<Seq<char>>,
    pub kind: Option<Seq<char>>,
    pub variant: Option<Seq<char>>,
}

impl View for BuildInfo {
    type V = BuildInfoView;

    open spec fn view(&self) -> BuildInfoView {
        BuildInfoView {
            user: opt_view(self.user),
            date: opt_view(self.date),
            machine: opt_view(self.machine),
            svn_revision: opt_view(self.svn_revision),
            svn_branch: opt_view(self.svn_branch),
            build_number: opt_view(self.build_number),
            kind: opt_view(self.kind),
            variant: opt_view(self.variant),
        }
    }
}

/// One interpretation of the query, for the user to choose among.
#[derive(Debug)]
pub struct DisambiguationChoice {
    /// The transcription that led to the corresponding result.
    pub transcription: String,
    /// How confident the server is that this interpretation is right.
    pub confidence_score: i64,
    /// The transcription formatted for reading.
    pub formatted_transcription: String,
    /// The transcription as the server corrected it, if it did.
    pub fixed_transcription: Option<String>,
}

pub struct DisambiguationChoiceView {
    pub transcription: Seq<char>,
    pub confidence_score: i64,
    pub formatted_transcription: Seq<char>,
    pub fixed_transcription: Option<Seq<char>>,
}

impl View for DisambiguationChoice {
    type V = DisambiguationChoiceView;

    open spec fn view(&self) -> DisambiguationChoiceView {
        DisambiguationChoiceView {
            transcription: self.transcription@,
            confidence_score: self.confidence_score,
            formatted_transcription: self.formatted_transcription@,
            fixed_transcription: opt_view(self.fixed_transcription),
        }
    }
}

/// Which of the results the server suggests showing.
#[derive(Debug)]
pub struct Disambiguation {
    /// How many of the results to show the user.
    pub num_to_show: i64,
    /// Information on the corresponding result.
    pub choice_data: DisambiguationChoice,
}

pub struct DisambiguationView {
    pub num_to_show: i64,
    pub choice_data: DisambiguationChoiceView,
}

impl View for Disambiguation {
    type V = DisambiguationView;

    open spec fn view(&self) -> DisambiguationView {
        DisambiguationView { num_to_show: self.num_to_show, choice_data: self.choice_data@ }
    }
}

/// The reply to a query. `status` is `"OK"` or `"Error"`; an `"Error"`
/// reply is still a valid reply, whose `error_message` says what went wrong.
#[derive(Debug)]
pub struct HoundServerResponse {
    pub format: String,
    pub format_version: String,
    pub status: String,
    pub error_message: Option<String>,
    pub num_to_return: Option<i64>,
    pub all_results: Option<Vec<serde_json::Map<String, serde_json::Value>>>,
    pub disambiguation: Option<serde_json::Map<String, serde_json::Value>>,
    pub results_are_final: Option<Vec<bool>>,
    pub domain_usage: Option<Vec<DomainUsage>>,
    pub build_info: Option<BuildInfo>,
    pub query_id: String,
    pub server_generated_id: Option<String>,
    /// Seconds of audio input.
    pub audio_length: Option<serde_json::Number>,
    /// Seconds of real time spent on the speech.
    pub real_speech_time: Option<serde_json::Number>,
    /// Seconds of CPU time spent on the speech.
    pub cpu_speech_time: Option<serde_json::Number>,
    /// Seconds of real time spent on the query.
    pub real_time: Option<serde_json::Number>,
    /// Seconds of CPU time spent on the query.
    pub cpu_time: Option<serde_json::Number>,
    pub local_or_remote: Option<String>,
    pub local_or_remote_reason: Option<String>,
}

pub struct ResponseView {
    pub format: Seq<char>,
    pub format_version: Seq<char>,
    pub status: Seq<char>,
    pub error_message: Option<Seq<char>>,
    pub num_to_return: Option<i64>,
    pub all_results: Option<Seq<ObjectModel>>,
    pub disambiguation: Option<ObjectModel>,
    pub results_are_final: Option<Seq<bool>>,
    pub domain_usage: Option<Seq<DomainUsageView>>,
    pub build_info: Option<BuildInfoView>,
    pub query_id: Seq<char>,
    pub server_generated_id: Option<Seq<char>>,
    pub audio_length: Option<NumberModel>,
    pub real_speech_time: Option<NumberModel>,
    pub cpu_speech_time: Option<NumberModel>,
    pub real_time: Option<NumberModel>,
    pub cpu_time: Option<NumberModel>,
    pub local_or_remote: Option<Seq<char>>,
    pub local_or_remote_reason: Option<Seq<char>>,
}

pub open spec fn opt_number_view(o: Option<serde_json::Number>) -> Option<NumberModel> {
    match o {
        Some(n) => Some(number_model(n)),
        None => None,
    }
}

pub open spec fn opt_object_view(o: Option<serde_json::Map<String, serde_json::Value>>) -> Option<ObjectModel> {
    match o {
        Some(m) => Some(object_model(m)),
        None => None,
    }
}

pub open spec fn opt_objects_view(o: Option<Vec<serde_json::Map<String, serde_json::Value>>>) -> Option<Seq<ObjectModel>> {
    match o {
        Some(v) => Some(v@.map_values(|m: serde_json::Map<String, serde_json::Value>| object_model(m))),
        None => None,
    }
}

pub open spec fn opt_usages_view(o: Option<Vec<DomainUsage>>) -> Option<Seq<DomainUsageView>> {
    match o {
        Some(v) => Some(v@.map_values(|d: DomainUsage| d@)),
        None => None,
    }
}

impl View for HoundServerResponse {
    type V = ResponseView;

    open spec fn view(&self) -> ResponseView {
        ResponseView {
            format: self.format@,
            format_version: self.format_version@,
            status: self.status@,
            error_message: opt_view(self.error_message),
            num_to_return: self.num_to_return,
            all_results: opt_objects_view(self.all_results),
            disambiguation: opt_object_view(self.disambiguation),
            results_are_final: match self.results_are_final {
                Some(v) => Some(v@),
                None => None,
            },
            domain_usage: opt_usages_view(self.domain_usage),
            build_info: opt_view(self.build_info),
            query_id: self.query_id@,
            server_generated_id: opt_view(self.server_generated_id),
            audio_length: opt_number_view(self.audio_length),
            real_speech_time: opt_number_view(self.real_speech_time),
            cpu_speech_time: opt_number_view(self.cpu_speech_time),
            real_time: opt_number_view(self.real_time),
            cpu_time: opt_number_view(self.cpu_time),
            local_or_remote: opt_view(self.local_or_remote),
            local_or_remote_reason: opt_view(self.local_or_remote_reason),
        }
    }
}

// ---------------------------------------------------------------------------
// The schema, as functions from JSON to views.
// ---------------------------------------------------------------------------

pub open spec fn domain_usage_of(v: JsonModel) -> Option<DomainUsageView> {
    match v {
        JsonModel::Object(o) => {
            let domain = str_of(member(o, "Domain"@));
            let domain_unique_id = str_of(member(o, "DomainUniqueID"@));
            let credits_used = number_of(member(o, "CreditsUsed"@));
            if domain is Some && domain_unique_id is Some && credits_used is Some {
                Some(
                    DomainUsageView {
                        domain: domain->0,
                        domain_unique_id: domain_unique_id->0,
                        credits_used: credits_used->0,
                    },
                )
            } else {
                None
            }
        },
        _ => None,
    }
}

/// An optional array of domain usages.
pub open spec fn opt_usages_of(v: JsonModel) -> Option<Option<Seq<DomainUsageView>>> {
    match v {
        JsonModel::Null => Some(None),
        JsonModel::Array(items) => if forall|i: int| 0 <= i < items.len() ==> (#[trigger] domain_usage_of(items[i])) is Some {
            Some(Some(items.map_values(|x: JsonModel| domain_usage_of(x)->0)))
        } else {
            None
        },
        _ => None,
    }
}

pub open spec fn build_info_of(o: ObjectModel) -> Option<BuildInfoView> {
    let user = opt_str_of(member(o, "User"@));
    let date = opt_str_of(member(o, "Date"@));
    let machine = opt_str_of(member(o, "Machine"@));
    let svn_revision = opt_str_of(member(o, "SVNRevision"@));
    let svn_branch = opt_str_of(member(o, "SVNBranch"@));
    let build_number = opt_str_of(member(o, "BuildNumber"@));
    let kind = opt_str_of(member(o, "Kind"@));
    let variant = opt_str_of(member(o, "Variant"@));
    if user is Some && date is Some && machine is Some && svn_revision is Some && svn_branch is Some
        && build_number is Some && kind is Some && variant is Some {
        Some(
            BuildInfoView {
                user: user->0,
                date: date->0,
                machine: machine->0,
                svn_revision: svn_revision->0,
                svn_branch: svn_branch->0,
                build_number: build_number->0,
                kind: kind->0,
                variant: variant->0,
            },
        )
    } else {
        None
    }
}

/// An optional build-info object.
pub open spec fn opt_build_info_of(v: JsonModel) -> Option<Option<BuildInfoView>> {
    match v {
        JsonModel::Null => Some(None),
        JsonModel::Object(o) => match build_info_of(o) {
            Some(b) => Some(Some(b)),
            None => None,
        },
        _ => None,
    }
}

pub open spec fn disambiguation_choice_of(o: ObjectModel) -> Option<DisambiguationChoiceView> {
    let transcription = str_of(member(o, "Transcription"@));
    let confidence_score = as_i64_spec(member(o, "ConfidenceScore"@));
    let formatted_transcription = str_of(member(o, "FormattedTranscription"@));
    let fixed_transcription = opt_str_of(member(o, "FixedTranscription"@));
    if transcription is Some && confidence_score is Some && formatted_transcription is Some
        && fixed_transcription is Some {
        Some(
            DisambiguationChoiceView {
                transcription: transcription->0,
                confidence_score: confidence_score->0,
                formatted_transcription: formatted_transcription->0,
                fixed_transcription: fixed_transcription->0,
            },
        )
    } else {
        None
    }
}

pub open spec fn disambiguation_of(o: ObjectModel) -> Option<DisambiguationView> {
    let num_to_show = as_i64_spec(member(o, "NumToShow"@));
    let choice_data = match member(o, "ChoiceData"@) {
        JsonModel::Object(c) => disambiguation_choice_of(c),
        _ => None,
    };
    if num_to_show is Some && choice_data is Some {
        Some(DisambiguationView { num_to_show: num_to_show->0, choice_data: choice_data->0 })
    } else {
        None
    }
}

/// The reply that a JSON object describes, or `None` where it does not fit
/// the schema.
pub open spec fn response_of(o: ObjectModel) -> Option<ResponseView> {
    let format = str_of(member(o, "Format"@));
    let format_version = str_of(member(o, "FormatVersion"@));
    let status = str_of(member(o, "Status"@));
    let error_message = opt_str_of(member(o, "ErrorMessage"@));
    let num_to_return = opt_i64_of(member(o, "NumToReturn"@));
    let all_results = opt_objects_of(member(o, "AllResults"@));
    let disambiguation = opt_object_of(member(o, "Disambiguation"@));
    let results_are_final = opt_bools_of(member(o, "ResultsAreFinal"@));
    let domain_usage = opt_usages_of(member(o, "DomainUsage"@));
    let build_info = opt_build_info_of(member(o, "BuildInfo"@));
    let query_id = str_of(member(o, "QueryID"@));
    let server_generated_id = opt_str_of(member(o, "ServerGeneratedId"@));
    let audio_length = opt_number_of(member(o, "AudioLength"@));
    let real_speech_time = opt_number_of(member(o, "RealSpeechTime"@));
    let cpu_speech_time = opt_number_of(member(o, "CpuSpeechTime"@));
    let real_time = opt_number_of(member(o, "RealTime"@));
    let cpu_time = opt_number_of(member(o, "CpuTime"@));
    let local_or_remote = opt_str_of(member(o, "LocalOrRemote"@));
    let local_or_remote_reason = opt_str_of(member(o, "LocalOrRemoteReason"@));
    if format is Some && format_version is Some && status is Some && error_message is Some
        && num_to_return is Some && all_results is Some && disambiguation is Some
        && results_are_final is Some && domain_usage is Some && build_info is Some && query_id is Some
        && server_generated_id is Some && audio_length is Some && real_speech_time is Some
        && cpu_speech_time is Some && real_time is Some && cpu_time is Some && local_or_remote is Some
        && local_or_remote_reason is Some {
        Some(
            ResponseView {
                format: format->0,
                format_version: format_version->0,
                status: status->0,
                error_message: error_message->0,
                num_to_return: num_to_return->0,
                all_results: all_results->0,
                disambiguation: disambiguation->0,
                results_are_final: results_are_final->0,
                domain_usage: domain_usage->0,
                build_info: build_info->0,
                query_id: query_id->0,
                server_generated_id: server_generated_id->0,
                audio_length: audio_length->0,
                real_speech_time: real_speech_time->0,
                cpu_speech_time: cpu_speech_time->0,
                real_time: real_time->0,
                cpu_time: cpu_time->0,
                local_or_remote: local_or_remote->0,
                local_or_remote_reason: local_or_remote_reason->0,
            },
        )
    } else {
        None
    }
}

/// The reply that a body of JSON text describes, or `None` where the text is
/// not JSON, not an object, or does not fit the schema.
pub open spec fn parsed_response(body: Seq<char>) -> Option<ResponseView> {
    match json_decoded(body) {
        Some(JsonModel::Object(o)) => response_of(o),
        _ => None,
    }
}

// ---------------------------------------------------------------------------
// Reading members.
// ---------------------------------------------------------------------------

/// What an optional reference to a value holds; nothing reads as `null`.
pub open spec fn model_or_null(v: Option<&serde_json::Value>) -> JsonModel {
    match v {
        Some(x) => value_model(*x),
        None => JsonModel::Null,
    }
}

pub open spec fn opt_bools_view(o: Option<Vec<bool>>) -> Option<Seq<bool>> {
    match o {
        Some(v) => Some(v@),
        None => None,
    }
}

fn get_member<'a>(o: &'a serde_json::Map<String, serde_json::Value>, key: &str) -> (r: Option<&'a serde_json::Value>)
    ensures
        model_or_null(r) == member(object_model(*o), key@),
{
    object_get(o, key)
}

fn read_str(v: Option<&serde_json::Value>) -> (r: Option<String>)
    ensures
        opt_view(r) == str_of(model_or_null(v)),
{
    match v {
        Some(x) => match x.as_str() {
            Some(s) => Some(s.to_owned()),
            None => None,
        },
        None => None,
    }
}

fn read_i64(v: Option<&serde_json::Value>) -> (r: Option<i64>)
    ensures
        r == as_i64_spec(model_or_null(v)),
{
    match v {
        Some(x) => x.as_i64(),
        None => None,
    }
}

fn read_number(v: Option<&serde_json::Value>) -> (r: Option<serde_json::Number>)
    ensures
        opt_number_view(r) == number_of(model_or_null(v)),
{
    match v {
        Some(x) => match x.as_number() {
            Some(n) => Some(n.clone()),
            None => None,
        },
        None => None,
    }
}

fn read_opt_str(v: Option<&serde_json::Value>) -> (r: Option<Option<String>>)
    ensures
        match r {
            Some(x) => opt_str_of(model_or_null(v)) == Some(opt_view(x)),
            None => opt_str_of(model_or_null(v)) is None,
        },
{
    match v {
        None => Some(None),
        Some(x) => if x.is_null() {
            Some(None)
        } else {
            match x.as_str() {
                Some(s) => Some(Some(s.to_owned())),
                None => None,
            }
        },
    }
}

fn read_opt_i64(v: Option<&serde_json::Value>) -> (r: Option<Option<i64>>)
    ensures
        r == opt_i64_of(model_or_null(v)),
{
    match v {
        None => Some(None),
        Some(x) => if x.is_null() {
            Some(None)
        } else {
            match x.as_i64() {
                Some(i) => Some(Some(i)),
                None => None,
            }
        },
    }
}

fn read_opt_number(v: Option<&serde_json::Value>) -> (r: Option<Option<serde_json::Number>>)
    ensures
        match r {
            Some(x) => opt_number_of(model_or_null(v)) == Some(opt_number_view(x)),
            None => opt_number_of(model_or_null(v)) is None,
        },
{
    match v {
        None => Some(None),
        Some(x) => if x.is_null() {
            Some(None)
        } else {
            match x.as_number() {
                Some(n) => Some(Some(n.clone())),
                None => None,
            }
        },
    }
}

fn read_opt_object(v: Option<&serde_json::Value>) -> (r: Option<Option<serde_json::Map<String, serde_json::Value>>>)
    ensures
        match r {
            Some(x) => opt_object_of(model_or_null(v)) == Some(opt_object_view(x)),
            None => opt_object_of(model_or_null(v)) is None,
        },
{
    match v {
        None => Some(None),
        Some(x) => if x.is_null() {
            Some(None)
        } else {
            match x.as_object() {
                Some(m) => Some(Some(m.clone())),
                None => None,
            }
        },
    }
}

fn read_opt_bools(v: Option<&serde_json::Value>) -> (r: Option<Option<Vec<bool>>>)
    ensures
        match r {
            Some(x) => opt_bools_of(model_or_null(v)) == Some(opt_bools_view(x)),
            None => opt_bools_of(model_or_null(v)) is None,
        },
{
    let x = match v {
        None => {
            return Some(None);
        },
        Some(x) => x,
    };
    if x.is_null() {
        return Some(None);
    }
    let items = match x.as_array() {
        Some(a) => a,
        None => {
            return None;
        },
    };
    let ghost model = value_model(*x)->Array_0;
    let mut out: Vec<bool> = Vec::new();
    let mut i: usize = 0;
    while i < items.len()
        invariant
            model_or_null(v) == JsonModel::Array(model),
            value_model(*x) == JsonModel::Array(model),
            items@.len() == model.len(),
            forall|j: int| 0 <= j < model.len() ==> value_model(#[trigger] items@[j]) == model[j],
            i <= items@.len(),
            out@.len() == i,
            forall|j: int| 0 <= j < i ==> #[trigger] model[j] == JsonModel::Bool(out@[j]),
        decreases items@.len() - i,
    {
        match items[i].as_bool() {
            Some(b) => out.push(b),
            None => {
                assert(!(model[i as int] is Bool));
                return None;
            },
        }
        i = i + 1;
    }
    assert(forall|j: int| 0 <= j < model.len() ==> #[trigger] model[j] is Bool);
    assert(out@ =~= model.map_values(|y: JsonModel| y->Bool_0));
    Some(Some(out))
}

fn read_opt_objects(v: Option<&serde_json::Value>) -> (r: Option<Option<Vec<serde_json::Map<String, serde_json::Value>>>>)
    ensures
        match r {
            Some(x) => opt_objects_of(model_or_null(v)) == Some(opt_objects_view(x)),
            None => opt_objects_of(model_or_null(v)) is None,
        },
{
    let x = match v {
        None => {
            return Some(None);
        },
        Some(x) => x,
    };
    if x.is_null() {
        return Some(None);
    }
    let items = match x.as_array() {
        Some(a) => a,
        None => {
            return None;
        },
    };
    let ghost model = value_model(*x)->Array_0;
    let mut out: Vec<serde_json::Map<String, serde_json::Value>> = Vec::new();
    let mut i: usize = 0;
    while i < items.len()
        invariant
            model_or_null(v) == JsonModel::Array(model),
            value_model(*x) == JsonModel::Array(model),
            items@.len() == model.len(),
            forall|j: int| 0 <= j < model.len() ==> value_model(#[trigger] items@[j]) == model[j],
            i <= items@.len(),
            out@.len() == i,
            forall|j: int| 0 <= j < i ==> #[trigger] model[j] == JsonModel::Object(object_model(out@[j])),
        decreases items@.len() - i,
    {
        match items[i].as_object() {
            Some(m) => out.push(m.clone()),
            None => {
                assert(!(model[i as int] is Object));
                return None;
            },
        }
        i = i + 1;
    }
    assert(forall|j: int| 0 <= j < model.len() ==> #[trigger] model[j] is Object);
    assert(out@.map_values(|m: serde_json::Map<String, serde_json::Value>| object_model(m)) =~= model.map_values(
        |y: JsonModel| y->Object_0,
    ));
    Some(Some(out))
}

// ---------------------------------------------------------------------------
// Reading the schema's objects.
// ---------------------------------------------------------------------------

fn domain_usage_from(v: &serde_json::Value) -> (r: Option<DomainUsage>)
    ensures
        opt_view(r) == domain_usage_of(value_model(*v)),
{
    let o = match v.as_object() {
        Some(o) => o,
        None => {
            return None;
        },
    };
    let domain = match read_str(get_member(o, "Domain")) {
        Some(s) => s,
        None => {
            return None;
        },
    };
    let domain_unique_id = match read_str(get_member(o, "DomainUniqueID")) {
        Some(s) => s,
        None => {
            return None;
        },
    };
    let credits_used = match read_number(get_member(o, "CreditsUsed")) {
        Some(n) => n,
        None => {
            return None;
        },
    };
    Some(DomainUsage { domain, domain_unique_id, credits_used })
}

fn read_opt_usages(v: Option<&serde_json::Value>) -> (r: Option<Option<Vec<DomainUsage>>>)
    ensures
        match r {
            Some(x) => opt_usages_of(model_or_null(v)) == Some(opt_usages_view(x)),
            None => opt_usages_of(model_or_null(v)) is None,
        },
{
    let x = match v {
        None => {
            return Some(None);
        },
        Some(x) => x,
    };
    if x.is_null() {
        return Some(None);
    }
    let items = match x.as_array() {
        Some(a) => a,
        None => {
            return None;
        },
    };
    let ghost model = value_model(*x)->Array_0;
    let mut out: Vec<DomainUsage> = Vec::new();
    let mut i: usize = 0;
    while i < items.len()
        invariant
            model_or_null(v) == JsonModel::Array(model),
            items@.len() == model.len(),
            forall|j: int| 0 <= j < model.len() ==> value_model(#[trigger] items@[j]) == model[j],
            i <= items@.len(),
            out@.len() == i,
            forall|j: int| 0 <= j < i ==> #[trigger] domain_usage_of(model[j]) == Some(out@[j]@),
        decreases items@.len() - i,
    {
        match domain_usage_from(&items[i]) {
            Some(d) => out.push(d),
            None => {
                assert(domain_usage_of(model[i as int]) is None);
                return None;
            },
        }
        i = i + 1;
    }
    assert(forall|j: int| 0 <= j < model.len() ==> (#[trigger] domain_usage_of(model[j])) is Some);
    assert(out@.map_values(|d: DomainUsage| d@) =~= model.map_values(|y: JsonModel| domain_usage_of(y)->0));
    Some(Some(out))
}

fn build_info_from(o: &serde_json::Map<String, serde_json::Value>) -> (r: Option<BuildInfo>)
    ensures
        opt_view(r) == build_info_of(object_model(*o)),
{
    let user = match read_opt_str(get_member(o, "User")) {
        Some(s) => s,
        None => {
            return None;
        },
    };
    let date = match read_opt_str(get_member(o, "Date")) {
        Some(s) => s,
        None => {
            return None;
        },
    };
    let machine = match read_opt_str(get_member(o, "Machine")) {
        Some(s) => s,
        None => {
            return None;
        },
    };
    let svn_revision = match read_opt_str(get_member(o, "SVNRevision")) {
        Some(s) => s,
        None => {
            return None;
        },
    };
    let svn_branch = match read_opt_str(get_member(o, "SVNBranch")) {
        Some(s) => s,
        None => {
            return None;
        },
    };
    let build_number = match read_opt_str(get_member(o, "BuildNumber")) {
        Some(s) => s,
        None => {
            return None;
        },
    };
    let kind = match read_opt_str(get_member(o, "Kind")) {
        Some(s) => s,
        None => {
            return None;
        },
    };
    let variant = match read_opt_str(get_member(o, "Variant")) {
        Some(s) => s,
        None => {
            return None;
        },
    };
    Some(BuildInfo { user, date, machine, svn_revision, svn_branch, build_number, kind, variant })
}

fn read_opt_build_info(v: Option<&serde_json::Value>) -> (r: Option<Option<BuildInfo>>)
    ensures
        match r {
            Some(x) => opt_build_info_of(model_or_null(v)) == Some(opt_view(x)),
            None => opt_build_info_of(model_or_null(v)) is None,
        },
{
    match v {
        None => Some(None),
        Some(x) => if x.is_null() {
            Some(None)
        } else {
            match x.as_object() {
                Some(o) => match build_info_from(o) {
                    Some(b) => Some(Some(b)),
                    None => None,
                },
                None => None,
            }
        },
    }
}

impl DisambiguationChoice {
    /// Reads a choice from a JSON object, or `None` where the object does not
    /// fit the schema.
    pub fn from_object(o: &serde_json::Map<String, serde_json::Value>) -> (r: Option<DisambiguationChoice>)
        ensures
            opt_view(r) == disambiguation_choice_of(object_model(*o)),
    {
        let transcription = match read_str(get_member(o, "Transcription")) {
            Some(s) => s,
            None => {
                return None;
            },
        };
        let confidence_score = match read_i64(get_member(o, "ConfidenceScore")) {
            Some(i) => i,
            None => {
                return None;
            },
        };
        let formatted_transcription = match read_str(get_member(o, "FormattedTranscription")) {
            Some(s) => s,
            None => {
                return None;
            },
        };
        let fixed_transcription = match read_opt_str(get_member(o, "FixedTranscription")) {
            Some(s) => s,
            None => {
                return None;
            },
        };
        Some(DisambiguationChoice { transcription, confidence_score, formatted_transcription, fixed_transcription })
    }
}

impl Disambiguation {
    /// Reads a disambiguation hint from a JSON object, such as the
    /// `disambiguation` member of a reply, or `None` where the object does not
    /// fit the schema.
    pub fn from_object(o: &serde_json::Map<String, serde_json::Value>) -> (r: Option<Disambiguation>)
        ensures
            opt_view(r) == disambiguation_of(object_model(*o)),
    {
        let num_to_show = match read_i64(get_member(o, "NumToShow")) {
            Some(i) => i,
            None => {
                return None;
            },
        };
        let choice = match get_member(o, "ChoiceData") {
            Some(c) => c,
            None => {
                return None;
            },
        };
        let choice_object = match choice.as_object() {
            Some(c) => c,
            None => {
                return None;
            },
        };
        let choice_data = match DisambiguationChoice::from_object(choice_object) {
            Some(c) => c,
            None => {
                return None;
            },
        };
        Some(Disambiguation { num_to_show, choice_data })
    }
}

fn member_error(key: &str) -> (r: HoundifyError)
    ensures
        r.kind == ErrorKind::Parse,
{
    let mut message = "invalid response: the member `".to_owned();
    message.append(key);
    message.append("` is missing or has the wrong type");
    HoundifyError::new(ErrorKind::Parse, message)
}

impl HoundServerResponse {
    /// Reads a reply from a JSON object. Fails with `Parse` exactly where the
    /// object does not fit the schema.
    pub fn from_object(o: &serde_json::Map<String, serde_json::Value>) -> (r: Result<HoundServerResponse, HoundifyError>)
        ensures
            match response_of(object_model(*o)) {
                Some(view) => r matches Ok(resp) && resp@ == view,
                None => r matches Err(e) && e.kind == ErrorKind::Parse,
            },
    {
        let format = match read_str(get_member(o, "Format")) {
            Some(x) => x,
            None => {
                return Err(member_error("Format"));
            },
        };
        let format_version = match read_str(get_member(o, "FormatVersion")) {
            Some(x) => x,
            None => {
                return Err(member_error("FormatVersion"));
            },
        };
        let status = match read_str(get_member(o, "Status")) {
            Some(x) => x,
            None => {
                return Err(member_error("Status"));
            },
        };
        let error_message = match read_opt_str(get_member(o, "ErrorMessage")) {
            Some(x) => x,
            None => {
                return Err(member_error("ErrorMessage"));
            },
        };
        let num_to_return = match read_opt_i64(get_member(o, "NumToReturn")) {
            Some(x) => x,
            None => {
                return Err(member_error("NumToReturn"));
            },
        };
        let all_results = match read_opt_objects(get_member(o, "AllResults")) {
            Some(x) => x,
            None => {
                return Err(member_error("AllResults"));
            },
        };
        let disambiguation = match read_opt_object(get_member(o, "Disambiguation")) {
            Some(x) => x,
            None => {
                return Err(member_error("Disambiguation"));
            },
        };
        let results_are_final = match read_opt_bools(get_member(o, "ResultsAreFinal")) {
            Some(x) => x,
            None => {
                return Err(member_error("ResultsAreFinal"));
            },
        };
        let domain_usage = match read_opt_usages(get_member(o, "DomainUsage")) {
            Some(x) => x,
            None => {
                return Err(member_error("DomainUsage"));
            },
        };
        let build_info = match read_opt_build_info(get_member(o, "BuildInfo")) {
            Some(x) => x,
            None => {
                return Err(member_error("BuildInfo"));
            },
        };
        let query_id = match read_str(get_member(o, "QueryID")) {
            Some(x) => x,
            None => {
                return Err(member_error("QueryID"));
            },
        };
        let server_generated_id = match read_opt_str(get_member(o, "ServerGeneratedId")) {
            Some(x) => x,
            None => {
                return Err(member_error("ServerGeneratedId"));
            },
        };
        let audio_length = match read_opt_number(get_member(o, "AudioLength")) {
            Some(x) => x,
            None => {
                return Err(member_error("AudioLength"));
            },
        };
        let real_speech_time = match read_opt_number(get_member(o, "RealSpeechTime")) {
            Some(x) => x,
            None => {
                return Err(member_error("RealSpeechTime"));
            },
        };
        let cpu_speech_time = match read_opt_number(get_member(o, "CpuSpeechTime")) {
            Some(x) => x,
            None => {
                return Err(member_error("CpuSpeechTime"));
            },
        };
        let real_time = match read_opt_number(get_member(o, "RealTime")) {
            Some(x) => x,
            None => {
                return Err(member_error("RealTime"));
            },
        };
        let cpu_time = match read_opt_number(get_member(o, "CpuTime")) {
            Some(x) => x,
            None => {
                return Err(member_error("CpuTime"));
            },
        };
        let local_or_remote = match read_opt_str(get_member(o, "LocalOrRemote")) {
            Some(x) => x,
            None => {
                return Err(member_error("LocalOrRemote"));
            },
        };
        let local_or_remote_reason = match read_opt_str(get_member(o, "LocalOrRemoteReason")) {
            Some(x) => x,
            None => {
                return Err(member_error("LocalOrRemoteReason"));
            },
        };
        Ok(HoundServerResponse {
            format,
            format_version,
            status,
            error_message,
            num_to_return,
            all_results,
            disambiguation,
            results_are_final,
            domain_usage,
            build_info,
            query_id,
            server_generated_id,
            audio_length,
            real_speech_time,
            cpu_speech_time,
            real_time,
            cpu_time,
            local_or_remote,
            local_or_remote_reason,
        })
    }
}

/// Parses a reply body. Fails with `Parse` exactly where the body is not
/// JSON, is not a JSON object, or does not fit the schema.
pub fn parse_response(body: &str) -> (r: Result<HoundServerResponse, HoundifyError>)
    ensures
        match parsed_response(body@) {
            Some(view) => r matches Ok(resp) && resp@ == view,
            None => r matches Err(e) && e.kind == ErrorKind::Parse,
        },
{
    let doc = match decode_json(body) {
        Ok(doc) => doc,
        Err(e) => {
            return Err(HoundifyError::new(ErrorKind::Parse, json_error_text(&e)));
        },
    };
    match doc.as_object() {
        Some(o) => HoundServerResponse::from_object(o),
        None => Err(HoundifyError::new(ErrorKind::Parse, "invalid response: not a JSON object".to_owned())),
    }
}

// ---------------------------------------------------------------------------
// Laws.
// ---------------------------------------------------------------------------

/// A reply keeps the number of its results: give any object that fits the
/// schema an array of N result objects under `AllResults` and an array of N
/// booleans under `ResultsAreFinal`, and it still fits the schema, and its
/// reply has exactly those N results and N flags.
pub proof fn lemma_result_count_preserved(o: ObjectModel, results: Seq<ObjectModel>, finals: Seq<bool>)
    requires
        response_of(o) is Some,
        results.len() == finals.len(),
    ensures
        ({
            let with_results = o.insert(
                "AllResults"@,
                JsonModel::Array(results.map_values(|m: ObjectModel| JsonModel::Object(m))),
            ).insert("ResultsAreFinal"@, JsonModel::Array(finals.map_values(|b: bool| JsonModel::Bool(b))));
            &&& response_of(with_results) matches Some(v)
            &&& v.all_results == Some(results)
            &&& v.results_are_final == Some(finals)
            &&& results.len() == finals.len()
        }),
{
    reveal_strlit("Format");
    reveal_strlit("FormatVersion");
    reveal_strlit("Status");
    reveal_strlit("ErrorMessage");
    reveal_strlit("NumToReturn");
    reveal_strlit("Disambiguation");
    reveal_strlit("DomainUsage");
    reveal_strlit("BuildInfo");
    reveal_strlit("QueryID");
    reveal_strlit("ServerGeneratedId");
    reveal_strlit("AudioLength");
    reveal_strlit("RealSpeechTime");
    reveal_strlit("CpuSpeechTime");
    reveal_strlit("RealTime");
    reveal_strlit("CpuTime");
    reveal_strlit("LocalOrRemote");
    reveal_strlit("LocalOrRemoteReason");
    reveal_strlit("AllResults");
    reveal_strlit("ResultsAreFinal");
    let result_items = results.map_values(|m: ObjectModel| JsonModel::Object(m));
    let final_items = finals.map_values(|b: bool| JsonModel::Bool(b));
    let with_results = o.insert("AllResults"@, JsonModel::Array(result_items)).insert(
        "ResultsAreFinal"@,
        JsonModel::Array(final_items),
    );
    assert("AllResults"@.len() != "ResultsAreFinal"@.len());
    assert("Format"@.len() != "AllResults"@.len() && "Format"@.len() != "ResultsAreFinal"@.len());
    assert("FormatVersion"@.len() != "AllResults"@.len() && "FormatVersion"@.len() != "ResultsAreFinal"@.len());
    assert("Status"@.len() != "AllResults"@.len() && "Status"@.len() != "ResultsAreFinal"@.len());
    assert("ErrorMessage"@.len() != "AllResults"@.len() && "ErrorMessage"@.len() != "ResultsAreFinal"@.len());
    assert("NumToReturn"@.len() != "AllResults"@.len() && "NumToReturn"@.len() != "ResultsAreFinal"@.len());
    assert("Disambiguation"@.len() != "AllResults"@.len() && "Disambiguation"@.len() != "ResultsAreFinal"@.len());
    assert("DomainUsage"@.len() != "AllResults"@.len() && "DomainUsage"@.len() != "ResultsAreFinal"@.len());
    assert("BuildInfo"@.len() != "AllResults"@.len() && "BuildInfo"@.len() != "ResultsAreFinal"@.len());
    assert("QueryID"@.len() != "AllResults"@.len() && "QueryID"@.len() != "ResultsAreFinal"@.len());
    assert("ServerGeneratedId"@.len() != "AllResults"@.len() && "ServerGeneratedId"@.len() != "ResultsAreFinal"@.len());
    assert("AudioLength"@.len() != "AllResults"@.len() && "AudioLength"@.len() != "ResultsAreFinal"@.len());
    assert("RealSpeechTime"@.len() != "AllResults"@.len() && "RealSpeechTime"@.len() != "ResultsAreFinal"@.len());
    assert("CpuSpeechTime"@.len() != "AllResults"@.len() && "CpuSpeechTime"@.len() != "ResultsAreFinal"@.len());
    assert("RealTime"@.len() != "AllResults"@.len() && "RealTime"@.len() != "ResultsAreFinal"@.len());
    assert("CpuTime"@.len() != "AllResults"@.len() && "CpuTime"@.len() != "ResultsAreFinal"@.len());
    assert("LocalOrRemote"@.len() != "AllResults"@.len() && "LocalOrRemote"@.len() != "ResultsAreFinal"@.len());
    assert("LocalOrRemoteReason"@.len() != "AllResults"@.len() && "LocalOrRemoteReason"@.len() != "ResultsAreFinal"@.len());
    assert(member(with_results, "AllResults"@) == JsonModel::Array(result_items));
    assert(member(with_results, "ResultsAreFinal"@) == JsonModel::Array(final_items));
    assert(result_items.map_values(|x: JsonModel| x->Object_0) =~= results);
    assert(final_items.map_values(|x: JsonModel| x->Bool_0) =~= finals);
    assert(forall|i: int| 0 <= i < result_items.len() ==> #[trigger] result_items[i] is Object);
    assert(forall|i: int| 0 <= i < final_items.len() ==> #[trigger] final_items[i] is Bool);
}

/// A reply without `QueryID` does not fit the schema.
pub proof fn lemma_missing_query_id_rejected(o: ObjectModel)
    requires
        !o.contains_key("QueryID"@),
    ensures
        response_of(o) is None,
{
}

} // verus!
