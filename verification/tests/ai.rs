use cardeal::ai::{
    ai_enabled, api_error_message, apply_enrichment, chat_url, comparison_from_reply,
    comparison_prompt, enrichment_from_reply, evaluation_prompt, reply_content, AiEnrichment,
    BestPick, ComparisonItem, ComparisonResult,
};
use cardeal::models::{ConditionInference, PriceEstimate, RiskInfo, Suitability};

#[test]
fn the_model_needs_a_key() {
    assert!(!ai_enabled(""));
    assert!(ai_enabled("sk-1"));
}

#[test]
fn the_evaluation_prompt_names_locale_and_data() {
    assert_eq!(
        evaluation_prompt("sv", "{}", "[]"),
        "Analyze this vehicle and generate a deep investigative report.\n\nLocale: sv\n\nVehicle Data:\n{}\n\nListing History:\n[]"
    );
}

#[test]
fn the_comparison_prompt_numbers_the_vehicles() {
    let p = comparison_prompt(
        &vec!["AAA111".to_string(), "BBB222".to_string()],
        &vec!["{\"a\":1}".to_string(), "{\"b\":2}".to_string()],
        &vec!["[1]".to_string()],
        "en",
    );
    assert_eq!(
        p,
        "Compare these 2 vehicles and recommend the best purchase.\n\nLocale: en\n\n--- Vehicle 1 (AAA111) ---\n{\"a\":1}\n\nListing History:\n[1]\n\n--- Vehicle 2 (BBB222) ---\n{\"b\":2}\n\nListing History:\n[]"
    );
}

#[test]
fn an_unreadable_answer_becomes_the_summary() {
    let e = enrichment_from_reply(None, "plain text".to_string());
    assert_eq!(e.ai_summary, "plain text");
    assert_eq!(e.risk.score, 0);
    assert_eq!(e.suitability.recommendation, "");
    let c = comparison_from_reply(None, "text".to_string());
    assert_eq!(c.comparison.len(), 0);
    assert_eq!(c.best_pick.plate, "");
    assert_eq!(c.ai_summary, "text");
    let given = ComparisonResult {
        comparison: vec![ComparisonItem { plate: "A".to_string(), rank: 1, score: 90, verdict: "buy".to_string() }],
        best_pick: BestPick { plate: "A".to_string(), reason: "cheap".to_string() },
        ai_summary: "s".to_string(),
    };
    assert_eq!(comparison_from_reply(Some(given), "x".to_string()).comparison[0].score, 90);
}

#[test]
fn enrichment_replaces_the_analysis_only() {
    let report = cardeal::services::build_report(
        &cardeal::models::VehicleRow {
            id: 1,
            plate: "P".to_string(),
            vin: None,
            make: None,
            model: None,
            variant: None,
            year: None,
            body_type: None,
            fuel_type: None,
            engine_code: None,
            engine_displacement_l: None,
            engine_power_hp: None,
            engine_torque_nm: None,
            gearbox_type: None,
            gearbox_gears: None,
            drivetrain_type: None,
            rear_diff_lock: false,
            center_diff_lock: false,
            is_4x4: false,
            length_mm: None,
            width_mm: None,
            height_m: None,
            clearance_mm: None,
            curb_weight_kg: None,
            gross_weight_kg: None,
            seats: None,
            color: None,
            imported: false,
            first_registration: None,
            country_origin: None,
            owner_count: None,
            mileage_latest: None,
            tax_per_year: Some(900),
            co2_emission: None,
            euro_standard: None,
        },
        &vec![],
        &vec![],
        &vec![],
    );
    let e = AiEnrichment {
        risk: RiskInfo { score: 80, level: "high".to_string(), factors: vec![], description: String::new() },
        price_estimate: PriceEstimate::default(),
        condition_inference: ConditionInference::default(),
        suitability: Suitability::default(),
        ai_summary: "avoid".to_string(),
    };
    let r = apply_enrichment(report, e);
    assert_eq!(r.risk.score, 80);
    assert_eq!(r.ai_summary, "avoid");
    assert_eq!(r.tax.annual_tax_sek, 900);
    assert_eq!(r.plate, "P");
}

#[test]
fn chat_helpers() {
    assert_eq!(chat_url("https://api.openai.com/v1"), "https://api.openai.com/v1/chat/completions");
    assert_eq!(reply_content(None), "");
    assert_eq!(reply_content(Some("hi".to_string())), "hi");
    assert_eq!(api_error_message("429 Too Many Requests", "slow down"), "AI API error 429 Too Many Requests: slow down");
}
