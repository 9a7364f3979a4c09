//! The analysis that a language model adds to reports: what is asked of it,
//! and what is kept of its answers.
use vstd::prelude::*;
use vstd::string::*;
use crate::models::{
    ConditionInference, PriceEstimate, RiskInfo, Suitability, VehicleReport,
};
use crate::text::{decimal, decimal_chars, int_chars, int_text, string_of};

verus! {

/// The analysis of one vehicle.
#[derive(Clone, Debug)]
pub struct AiEnrichment {
    pub risk: RiskInfo,
    pub price_estimate: PriceEstimate,
    pub condition_inference: ConditionInference,
    pub suitability: Suitability,
    pub ai_summary: String,
}

/// The comparison of several vehicles.
#[derive(Clone, Debug)]
pub struct ComparisonResult {
    pub comparison: Vec<ComparisonItem>,
    pub best_pick: BestPick,
    pub ai_summary: String,
}

#[derive(Clone, Debug)]
pub struct ComparisonItem {
    pub plate: String,
    pub rank: i32,
    pub score: i32,
    pub verdict: String,
}

#[derive(Clone, Debug)]
pub struct BestPick {
    pub plate: String,
    pub reason: String,
}

/// Whether the model can be asked at all: only with an API key.
pub fn ai_enabled(api_key: &str) -> (r: bool)
    ensures
        r == (api_key@.len() > 0),
{
    !api_key.is_empty()
}

/// The question about one vehicle.
pub open spec fn evaluation_prompt_text(
    locale: Seq<char>,
    vehicle_json: Seq<char>,
    listings_json: Seq<char>,
) -> Seq<char> {
    "Analyze this vehicle and generate a deep investigative report.\n\nLocale: "@ + locale
        + "\n\nVehicle Data:\n"@ + vehicle_json + "\n\nListing History:\n"@ + listings_json
}

pub fn evaluation_prompt(locale: &str, vehicle_json: &str, listings_json: &str) -> (r: String)
    ensures
        r@ == evaluation_prompt_text(locale@, vehicle_json@, listings_json@),
{
    let mut r = String::from_str(
        "Analyze this vehicle and generate a deep investigative report.\n\nLocale: ",
    );
    r.append(locale);
    r.append("\n\nVehicle Data:\n");
    r.append(vehicle_json);
    r.append("\n\nListing History:\n");
    r.append(listings_json);
    r
}

/// What an answer gives: the analysis it holds, or, when it holds none that
/// can be read, an empty analysis whose summary is the answer's text.
pub fn enrichment_from_reply(parsed: Option<AiEnrichment>, content: String) -> (r: AiEnrichment)
    ensures
        match parsed {
            Some(e) => r == e,
            None => r.risk.is_empty() && r.price_estimate.is_empty()
                && r.condition_inference.is_empty() && r.suitability.is_empty() && r.ai_summary
                == content,
        },
{
    match parsed {
        Some(e) => e,
        None => AiEnrichment {
            risk: RiskInfo::default(),
            price_estimate: PriceEstimate::default(),
            condition_inference: ConditionInference::default(),
            suitability: Suitability::default(),
            ai_summary: content,
        },
    }
}

impl VehicleReport {
    /// `self` is `before` with the analysis of `e` in place of its own.
    pub open spec fn enriched_from(self, before: VehicleReport, e: AiEnrichment) -> bool {
        &&& self.same_facts(before)
        &&& self.cached == before.cached
        &&& self.generated_at == before.generated_at
        &&& self.risk == e.risk
        &&& self.price_estimate == e.price_estimate
        &&& self.condition_inference == e.condition_inference
        &&& self.suitability == e.suitability
        &&& self.ai_summary == e.ai_summary
    }
}

/// A report with an analysis applied carries the model's risk, price,
/// condition, suitability and summary, and keeps the report's plate,
/// sections from the rows, cache mark and time stamp; so two analyses
/// applied to one report give reports that differ at most in the analysis.
pub proof fn lemma_enrichment_takes_the_analysis(
    r: VehicleReport,
    before: VehicleReport,
    e: AiEnrichment,
)
    requires
        r.enriched_from(before, e),
    ensures
        r.risk == e.risk,
        r.price_estimate == e.price_estimate,
        r.condition_inference == e.condition_inference,
        r.suitability == e.suitability,
        r.ai_summary == e.ai_summary,
        r.plate == before.plate,
        r.basic == before.basic,
        r.ownership == before.ownership,
        r.inspection == before.inspection,
        r.recalls == before.recalls,
        r.tax == before.tax,
        r.cached == before.cached,
        r.generated_at == before.generated_at,
{
}

/// Puts an analysis into a report; the sections from the rows stay as they are.
pub fn apply_enrichment(report: VehicleReport, e: AiEnrichment) -> (r: VehicleReport)
    ensures
        r.enriched_from(report, e),
        r.risk == e.risk,
        r.price_estimate == e.price_estimate,
        r.condition_inference == e.condition_inference,
        r.suitability == e.suitability,
        r.ai_summary == e.ai_summary,
        r.basic == report.basic,
        r.tax == report.tax,
{
    VehicleReport {
        risk: e.risk,
        price_estimate: e.price_estimate,
        condition_inference: e.condition_inference,
        suitability: e.suitability,
        ai_summary: e.ai_summary,
        ..report
    }
}

/// The part of the comparison question about the vehicle at `index`.
pub open spec fn comparison_part(
    index: nat,
    plate: Seq<char>,
    vehicle_json: Seq<char>,
    listing_json: Seq<char>,
) -> Seq<char> {
    "--- Vehicle "@ + decimal(index + 1) + " ("@ + plate + ") ---\n"@ + vehicle_json
        + "\n\nListing History:\n"@ + listing_json
}

/// The listing history given for the vehicle at `i`: its own, or an empty
/// JSON list when there is none.
pub open spec fn listing_json_at(listing_jsons: Seq<String>, i: int) -> Seq<char> {
    if i < listing_jsons.len() {
        listing_jsons[i]@
    } else {
        "[]"@
    }
}

/// The parts of the vehicles `0..n`, joined by blank lines.
pub open spec fn comparison_parts(
    plates: Seq<String>,
    vehicle_jsons: Seq<String>,
    listing_jsons: Seq<String>,
    n: nat,
) -> Seq<char>
    decreases n,
{
    if n == 0 {
        Seq::empty()
    } else {
        let part = comparison_part(
            (n - 1) as nat,
            plates[n - 1]@,
            vehicle_jsons[n - 1]@,
            listing_json_at(listing_jsons, n - 1),
        );
        if n == 1 {
            part
        } else {
            comparison_parts(plates, vehicle_jsons, listing_jsons, (n - 1) as nat) + "\n\n"@
                + part
        }
    }
}

/// The question about several vehicles.
pub open spec fn comparison_prompt_text(
    plates: Seq<String>,
    vehicle_jsons: Seq<String>,
    listing_jsons: Seq<String>,
    locale: Seq<char>,
) -> Seq<char> {
    "Compare these "@ + decimal(plates.len()) + " vehicles and recommend the best purchase.\n\nLocale: "@
        + locale + "\n\n"@ + comparison_parts(plates, vehicle_jsons, listing_jsons, plates.len())
}

/// The comparison question for the vehicles with these plates, their reports
/// and listing histories in JSON (a vehicle without a history gets `[]`).
pub fn comparison_prompt(
    plates: &Vec<String>,
    vehicle_jsons: &Vec<String>,
    listing_jsons: &Vec<String>,
    locale: &str,
) -> (r: String)
    requires
        vehicle_jsons.len() == plates.len(),
    ensures
        r@ == comparison_prompt_text(plates@, vehicle_jsons@, listing_jsons@, locale@),
{
    let mut parts = String::new();
    let mut i: usize = 0;
    while i < plates.len()
        invariant
            i <= plates.len(),
            vehicle_jsons.len() == plates.len(),
            parts@ == comparison_parts(plates@, vehicle_jsons@, listing_jsons@, i as nat),
        decreases plates.len() - i,
    {
        if i > 0 {
            parts.append("\n\n");
        }
        parts.append("--- Vehicle ");
        let number = string_of(&decimal_chars(i as u64 + 1));
        parts.append(number.as_str());
        parts.append(" (");
        parts.append(plates[i].as_str());
        parts.append(") ---\n");
        parts.append(vehicle_jsons[i].as_str());
        parts.append("\n\nListing History:\n");
        if i < listing_jsons.len() {
            parts.append(listing_jsons[i].as_str());
        } else {
            parts.append("[]");
        }
        i = i + 1;
        proof {
            assert(parts@ =~= comparison_parts(plates@, vehicle_jsons@, listing_jsons@, i as nat));
        }
    }
    let mut r = String::from_str("Compare these ");
    let count = string_of(&decimal_chars(plates.len() as u64));
    r.append(count.as_str());
    r.append(" vehicles and recommend the best purchase.\n\nLocale: ");
    r.append(locale);
    r.append("\n\n");
    r.append(parts.as_str());
    r
}

/// What a comparison answer gives: the comparison it holds, or, when it holds
/// none that can be read, an empty comparison whose summary is the answer's text.
pub fn comparison_from_reply(parsed: Option<ComparisonResult>, content: String) -> (r:
    ComparisonResult)
    ensures
        match parsed {
            Some(c) => r == c,
            None => r.comparison@.len() == 0 && r.best_pick.plate@.len() == 0
                && r.best_pick.reason@.len() == 0 && r.ai_summary == content,
        },
{
    match parsed {
        Some(c) => c,
        None => ComparisonResult {
            comparison: Vec::new(),
            best_pick: BestPick { plate: String::new(), reason: String::new() },
            ai_summary: content,
        },
    }
}

/// The text of the first choice of a chat answer, or empty when there is none.
pub fn reply_content(first_choice: Option<String>) -> (r: String)
    ensures
        r@ == match first_choice {
            Some(c) => c@,
            None => Seq::empty(),
        },
{
    match first_choice {
        Some(c) => c,
        None => String::new(),
    }
}

/// Address of the chat endpoint under `base_url`.
pub fn chat_url(base_url: &str) -> (r: String)
    ensures
        r@ == base_url@ + "/chat/completions"@,
{
    let mut r = String::from_str(base_url);
    r.append("/chat/completions");
    r
}

/// The message of a chat answer with an error status.
pub fn api_error_message(status: &str, body: &str) -> (r: String)
    ensures
        r@ == "AI API error "@ + status@ + ": "@ + body@,
{
    let mut r = String::from_str("AI API error ");
    r.append(status);
    r.append(": ");
    r.append(body);
    r
}

/// How a comparison without the model judges a vehicle: make, model and year.
pub open spec fn fallback_verdict(report: VehicleReport) -> Seq<char> {
    report.basic.make@ + " "@ + report.basic.model@ + " "@ + int_text(report.basic.year as int)
}

pub open spec fn fallback_reason() -> Seq<char> {
    "AI analysis unavailable — configure AI_API_KEY for recommendations"@
}

pub open spec fn fallback_summary() -> Seq<char> {
    "AI comparison unavailable. Configure AI_API_KEY for detailed analysis."@
}

impl ComparisonResult {
    /// The comparison made without the model: the vehicles ranked in the
    /// order given, each scored 0; the first one picked.
    pub open spec fn is_fallback_for(self, reports: Seq<VehicleReport>) -> bool {
        &&& self.comparison@.len() == reports.len()
        &&& forall|i: int|
            0 <= i < reports.len() ==> {
                &&& (#[trigger] self.comparison@[i]).plate == reports[i].plate
                &&& self.comparison@[i].rank == i + 1
                &&& self.comparison@[i].score == 0
                &&& self.comparison@[i].verdict@ == fallback_verdict(reports[i])
            }
        &&& self.best_pick.plate@ == if reports.len() > 0 {
            reports[0].plate@
        } else {
            Seq::empty()
        }
        &&& self.best_pick.reason@ == fallback_reason()
        &&& self.ai_summary@ == fallback_summary()
    }
}

/// The comparison of these reports when the model cannot be asked.
pub fn fallback_comparison(reports: &Vec<VehicleReport>) -> (r: ComparisonResult)
    requires
        reports.len() < i32::MAX,
    ensures
        r.is_fallback_for(reports@),
{
    let mut items: Vec<ComparisonItem> = Vec::new();
    let mut i: usize = 0;
    while i < reports.len()
        invariant
            i <= reports.len() < i32::MAX,
            items@.len() == i,
            forall|k: int|
                0 <= k < i ==> {
                    &&& (#[trigger] items@[k]).plate == reports@[k].plate
                    &&& items@[k].rank == k + 1
                    &&& items@[k].score == 0
                    &&& items@[k].verdict@ == fallback_verdict(reports@[k])
                },
        decreases reports.len() - i,
    {
        let r = &reports[i];
        let mut verdict = r.basic.make.clone();
        verdict.append(" ");
        verdict.append(r.basic.model.as_str());
        verdict.append(" ");
        let year = string_of(&int_chars(r.basic.year as i64));
        verdict.append(year.as_str());
        items.push(
            ComparisonItem {
                plate: r.plate.clone(),
                rank: (i + 1) as i32,
                score: 0,
                verdict,
            },
        );
        i = i + 1;
    }
    let plate = if reports.len() > 0 {
        reports[0].plate.clone()
    } else {
        String::new()
    };
    ComparisonResult {
        comparison: items,
        best_pick: BestPick {
            plate,
            reason: String::from_str(
                "AI analysis unavailable — configure AI_API_KEY for recommendations",
            ),
        },
        ai_summary: String::from_str(
            "AI comparison unavailable. Configure AI_API_KEY for detailed analysis.",
        ),
    }
}

} // verus!
