use cardeal::ai::AiEnrichment;
use cardeal::external::FetchResult;
use cardeal::models::{
    CalendarDate, ConditionInference, InspectionRow, ListingRow, OwnershipRow, PriceEstimate,
    RealBits, RecallRow, RiskInfo, Suitability, VehicleRow,
};
use cardeal::services::{
    basic_info_of, build_report, cache_key, free_report, normalize_plate, CacheLookup,
    CompareEvent, CompareStage, FreeEvent, FreeQuery, FreeStage, QueryEvent, QueryStage,
    ServiceError, VehicleComparison, VehicleQuery,
};

fn vehicle(plate: &str, vin: Option<&str>) -> VehicleRow {
    VehicleRow {
        id: 7,
        plate: plate.to_string(),
        vin: vin.map(|v| v.to_string()),
        make: Some("VOLVO".to_string()),
        model: Some("V70".to_string()),
        variant: None,
        year: Some(2012),
        body_type: None,
        fuel_type: Some("Diesel".to_string()),
        engine_code: None,
        engine_displacement_l: None,
        engine_power_hp: Some(163),
        engine_torque_nm: None,
        gearbox_type: None,
        gearbox_gears: None,
        drivetrain_type: None,
        rear_diff_lock: false,
        center_diff_lock: false,
        is_4x4: false,
        length_mm: None,
        width_mm: None,
        height_m: None,
        clearance_mm: None,
        curb_weight_kg: None,
        gross_weight_kg: None,
        seats: None,
        color: Some("Röd".to_string()),
        imported: false,
        first_registration: None,
        country_origin: None,
        owner_count: Some(3),
        mileage_latest: Some(21000),
        tax_per_year: Some(1800),
        co2_emission: Some(150),
        euro_standard: Some("Euro 5".to_string()),
    }
}

fn inspection(result: &str) -> InspectionRow {
    InspectionRow {
        id: 1,
        plate: "ABC123".to_string(),
        date: CalendarDate::from_ymd(2023, 6, 1),
        mileage_km: Some(20000),
        result: Some(result.to_string()),
        notes: None,
    }
}

fn recall(fix: bool) -> RecallRow {
    RecallRow { id: 1, vin: "VIN1".to_string(), source: None, description: None, severity: None, fix_available: fix }
}

fn listing() -> ListingRow {
    ListingRow {
        id: 1,
        plate: "ABC123".to_string(),
        source: Some("blocket".to_string()),
        seller_type: None,
        price_sek: Some(89000),
        mileage_km: None,
        listed_at: None,
        delisted_at: None,
        url: None,
        notes: None,
    }
}

#[test]
fn plates_are_upper_cased_and_trimmed() {
    assert_eq!(normalize_plate("  abc123 "), "ABC123");
    assert_eq!(normalize_plate("åäö 12"), "ÅÄÖ 12");
}

#[test]
fn reports_are_cached_per_plate() {
    assert_eq!(cache_key("ABC123"), "vehicle:ABC123");
    assert_ne!(cache_key("ABC123"), cache_key("ABC124"));
}

#[test]
fn a_built_report_states_the_rows_and_no_analysis() {
    let v = vehicle("ABC123", Some("VIN1"));
    let own = vec![OwnershipRow { id: 1, plate: "ABC123".to_string(), date: CalendarDate::from_ymd(2020, 1, 5), event: Some("Ägarbyte".to_string()) }];
    let r = build_report(&v, &own, &vec![inspection("Godkänd")], &vec![recall(false), recall(true)]);
    assert_eq!(r.plate, "ABC123");
    assert!(!r.cached);
    assert_eq!(r.generated_at, "");
    assert_eq!(r.basic.make, "VOLVO");
    assert_eq!(r.ownership.owner_count, 3);
    assert_eq!(r.ownership.history[0].date, "2020-01-05");
    assert_eq!(r.ownership.history[0].event, "Ägarbyte");
    assert_eq!(r.inspection.last_result.as_deref(), Some("Godkänd"));
    assert_eq!(r.recalls.total_recalls, 2);
    assert_eq!(r.recalls.open_recalls, 1);
    assert_eq!(r.tax.annual_tax_sek, 1800);
    assert_eq!(r.tax.co2_emission_g_km, 150);
    assert_eq!(r.tax.euro_standard, "Euro 5");
    assert_eq!(r.risk.score, 0);
    assert_eq!(r.ai_summary, "");
}

#[test]
fn the_free_report_shows_the_newest_inspection() {
    let f = free_report(vehicle("ABC123", None), &vec![inspection("Godkänd"), inspection("Underkänd")], 2);
    assert_eq!(f.plate, "ABC123");
    assert_eq!(f.make, "VOLVO");
    assert_eq!(f.year, 2012);
    assert_eq!(f.last_inspection_result.as_deref(), Some("Godkänd"));
    assert_eq!(f.last_inspection_date.as_deref(), Some("2023-06-01"));
    assert_eq!(f.recall_count, 2);
    assert_eq!(f.annual_tax_sek, 1800);
    assert_eq!(
        f.unlock_message,
        "🔒 Unlock the full report for AI analysis, risk score, price estimate, negotiation strategy, and expert recommendation."
    );
    let g = free_report(vehicle("ABC123", None), &vec![], 0);
    assert_eq!(g.last_inspection_result, None);
    assert_eq!(g.last_inspection_date, None);
}

fn fresh_report() -> cardeal::models::VehicleReport {
    build_report(&vehicle("ABC123", None), &vec![], &vec![], &vec![])
}

#[test]
fn a_cached_report_is_answered_at_once() {
    let q = VehicleQuery::start("abc123 ", "sv");
    assert_eq!(q.plate(), "ABC123");
    assert_eq!(q.locale(), "sv");
    assert!(matches!(q.stage(), QueryStage::ReadCache));
    let q = q.step(QueryEvent::Cache(CacheLookup::Report(fresh_report())));
    let r = q.into_result().unwrap();
    assert!(r.cached);
    assert_eq!(r.plate, "ABC123");
}

#[test]
fn a_stored_report_is_cached_and_answered() {
    let q = VehicleQuery::start("abc123", "en");
    let q = q.step(QueryEvent::Cache(CacheLookup::Unreadable));
    assert!(matches!(q.stage(), QueryStage::ReadStoredReport));
    let q = q.step(QueryEvent::StoredReport(Some(fresh_report())));
    match q.stage() {
        QueryStage::CacheStored { report } => assert!(report.cached),
        _ => panic!("expected the cache write"),
    }
    let q = q.step(QueryEvent::CacheWritten);
    assert!(q.into_result().unwrap().cached);
}

fn enrichment() -> AiEnrichment {
    AiEnrichment {
        risk: RiskInfo { score: 35, level: "medium".to_string(), factors: vec!["4 owners".to_string()], description: String::new() },
        price_estimate: PriceEstimate { min_sek: 80000, max_sek: 95000, median_sek: 88000, currency: "SEK".to_string(), source: "blocket".to_string() },
        condition_inference: ConditionInference { rating: "good".to_string(), confidence: RealBits { bits: 0.8f64.to_bits() }, indicators: vec![], description: String::new() },
        suitability: Suitability { score: 70, recommendation: "consider".to_string(), pros: vec![], cons: vec![] },
        ai_summary: "## 1. TIMELINE".to_string(),
    }
}

#[test]
fn an_unknown_vehicle_is_fetched_built_analysed_stamped_saved_and_cached() {
    let q = VehicleQuery::start("abc123", "en");
    let q = q.step(QueryEvent::Cache(CacheLookup::Miss));
    let q = q.step(QueryEvent::StoredReport(None));
    assert!(matches!(q.stage(), QueryStage::FindVehicle));
    let q = q.step(QueryEvent::Vehicle(Ok(None)));
    assert!(matches!(q.stage(), QueryStage::FetchVehicle));
    let fetched = FetchResult { source: "biluppgifter.se".to_string(), plate: "ABC123".to_string(), found: true, stolen: false };
    let q = q.step(QueryEvent::Fetched(Ok(fetched)));
    assert!(matches!(q.stage(), QueryStage::FindFetchedVehicle));
    let q = q.step(QueryEvent::Vehicle(Ok(Some(vehicle("ABC123", Some("VIN1"))))));
    assert!(matches!(q.stage(), QueryStage::LoadInspections { .. }));
    let q = q.step(QueryEvent::Inspections(Ok(vec![inspection("Godkänd")])));
    let q = q.step(QueryEvent::Ownership(Err("timeout".to_string())));
    match q.stage() {
        QueryStage::LoadRecalls { vin, ownership, .. } => {
            assert_eq!(vin, "VIN1");
            assert_eq!(ownership.len(), 0);
        }
        _ => panic!("expected the recalls"),
    }
    let q = q.step(QueryEvent::Recalls(Ok(vec![recall(false)])));
    let q = q.step(QueryEvent::Listings(Ok(vec![listing()])));
    match q.stage() {
        QueryStage::Analyse { report, listings } => {
            assert_eq!(listings.len(), 1);
            assert_eq!(report.recalls.open_recalls, 1);
            assert!(!report.cached);
        }
        _ => panic!("expected the analysis"),
    }
    let q = q.step(QueryEvent::Analysis(Ok(Some(enrichment()))));
    let q = q.step(QueryEvent::Clock("2024-05-01T10:00:00+00:00".to_string()));
    let q = q.step(QueryEvent::Saved(Err("db down".to_string())));
    assert!(matches!(q.stage(), QueryStage::CacheBuilt { .. }));
    let q = q.step(QueryEvent::CacheWritten);
    let r = q.into_result().unwrap();
    assert!(!r.cached);
    assert_eq!(r.generated_at, "2024-05-01T10:00:00+00:00");
    assert_eq!(r.risk.score, 35);
    assert_eq!(r.price_estimate.median_sek, 88000);
    assert_eq!(r.ai_summary, "## 1. TIMELINE");
    assert_eq!(r.basic.make, "VOLVO");
    assert_eq!(r.inspection.total_inspections, 1);
}

#[test]
fn a_failed_analysis_keeps_the_basic_report() {
    let q = VehicleQuery::start("abc123", "en");
    let q = q.step(QueryEvent::Cache(CacheLookup::Failed("refused".to_string())));
    let q = q.step(QueryEvent::StoredReport(None));
    let q = q.step(QueryEvent::Vehicle(Ok(Some(vehicle("ABC123", None)))));
    let q = q.step(QueryEvent::Inspections(Ok(vec![])));
    let q = q.step(QueryEvent::Ownership(Ok(vec![])));
    assert!(matches!(q.stage(), QueryStage::LoadListings { .. }));
    let q = q.step(QueryEvent::Listings(Err("x".to_string())));
    let q = q.step(QueryEvent::Analysis(Err("AI API error 500".to_string())));
    let q = q.step(QueryEvent::Clock("t".to_string()));
    let q = q.step(QueryEvent::Saved(Ok(())));
    let q = q.step(QueryEvent::CacheWritten);
    let r = q.into_result().unwrap();
    assert_eq!(r.risk.score, 0);
    assert_eq!(r.ai_summary, "");
    assert_eq!(r.generated_at, "t");
}

#[test]
fn query_errors_are_answered() {
    let q = VehicleQuery::start("abc123", "en");
    let q = q.step(QueryEvent::Cache(CacheLookup::Miss));
    let q = q.step(QueryEvent::StoredReport(None));
    let q = q.step(QueryEvent::Vehicle(Ok(None)));
    let q = q.step(QueryEvent::Fetched(Ok(FetchResult { source: String::new(), plate: "ABC123".to_string(), found: true, stolen: true })));
    let q = q.step(QueryEvent::Vehicle(Ok(None)));
    match q.into_result() {
        Err(e) => assert_eq!(e.message(), "Vehicle ABC123 not found after external fetch"),
        Ok(_) => panic!("expected an error"),
    }
    let q = VehicleQuery::start("abc123", "en");
    let q = q.step(QueryEvent::Cache(CacheLookup::Miss));
    let q = q.step(QueryEvent::StoredReport(None));
    let q = q.step(QueryEvent::Vehicle(Err("connection reset".to_string())));
    match q.into_result() {
        Err(e) => assert_eq!(e.message(), "connection reset"),
        Ok(_) => panic!("expected an error"),
    }
}

#[test]
fn the_free_query_counts_recalls_of_the_vin() {
    let q = FreeQuery::start(" abc123");
    assert_eq!(q.plate(), "ABC123");
    let q = q.step(FreeEvent::Vehicle(Ok(Some(vehicle("ABC123", Some("VIN1"))))));
    let q = q.step(FreeEvent::Inspections(Ok(vec![inspection("Godkänd")])));
    assert!(matches!(q.stage(), FreeStage::CountRecalls { .. }));
    let q = q.step(FreeEvent::Recalls(Ok(4)));
    let f = q.into_result().unwrap();
    assert_eq!(f.recall_count, 4);
    assert_eq!(f.last_inspection_result.as_deref(), Some("Godkänd"));
    let q = FreeQuery::start("abc123");
    let q = q.step(FreeEvent::Vehicle(Ok(Some(vehicle("ABC123", Some("VIN1"))))));
    let q = q.step(FreeEvent::Inspections(Err("x".to_string())));
    let q = q.step(FreeEvent::Recalls(Err("x".to_string())));
    assert_eq!(q.into_result().unwrap().recall_count, 0);
}

#[test]
fn the_free_query_reports_a_vehicle_still_unknown() {
    let q = FreeQuery::start("abc123");
    let q = q.step(FreeEvent::Vehicle(Ok(None)));
    let q = q.step(FreeEvent::Fetched(Ok(FetchResult { source: String::new(), plate: "ABC123".to_string(), found: true, stolen: false })));
    let q = q.step(FreeEvent::Vehicle(Ok(None)));
    match q.into_result() {
        Err(e) => assert_eq!(e.message(), "Vehicle not found: ABC123"),
        Ok(_) => panic!("expected an error"),
    }
    let q = FreeQuery::start("abc123");
    let q = q.step(FreeEvent::Vehicle(Ok(None)));
    let q = q.step(FreeEvent::Fetched(Err(ServiceError::Io("x".to_string()))));
    assert!(matches!(q.stage(), FreeStage::Done(Err(ServiceError::Io(_)))));
    let q = FreeQuery::start("abc123");
    let q = q.step(FreeEvent::Vehicle(Ok(Some(vehicle("ABC123", None)))));
    let q = q.step(FreeEvent::Inspections(Ok(vec![])));
    assert_eq!(q.into_result().unwrap().recall_count, 0);
}

#[test]
fn a_comparison_takes_two_to_five_plates() {
    for n in [0usize, 1, 6] {
        let plates = vec!["ABC123".to_string(); n];
        let c = VehicleComparison::start(plates, "en");
        match c.into_result() {
            Err(e) => assert_eq!(e.message(), "Provide 2-5 plates for comparison"),
            Ok(_) => panic!("expected an error"),
        }
    }
    let c = VehicleComparison::start(vec!["a".to_string(), "b".to_string()], "en");
    assert!(matches!(c.stage(), CompareStage::QueryVehicle { index: 0 }));
}

fn report_of(plate: &str, make: &str, year: i32) -> cardeal::models::VehicleReport {
    let mut v = vehicle(plate, None);
    v.make = Some(make.to_string());
    v.year = Some(year);
    build_report(&v, &vec![], &vec![], &vec![])
}

#[test]
fn a_comparison_without_the_model_ranks_in_order() {
    let c = VehicleComparison::start(vec!["abc123".to_string(), "xyz9".to_string()], "sv");
    let c = c.step(CompareEvent::Report(Ok(report_of("ABC123", "VOLVO", 2012))));
    match c.stage() {
        CompareStage::LoadListings { index, plate } => {
            assert_eq!(*index, 0);
            assert_eq!(plate, "ABC123");
        }
        _ => panic!("expected the listings"),
    }
    let c = c.step(CompareEvent::Listings(Ok(vec![listing()])));
    let c = c.step(CompareEvent::Report(Ok(report_of("XYZ9", "SAAB", -5))));
    let c = c.step(CompareEvent::Listings(Err("x".to_string())));
    assert!(matches!(c.stage(), CompareStage::Compare));
    assert_eq!(c.reports().len(), 2);
    assert_eq!(c.listings()[0].len(), 1);
    assert_eq!(c.listings()[1].len(), 0);
    let c = c.step(CompareEvent::Compared(Ok(None)));
    let r = c.into_result().unwrap();
    assert_eq!(r.comparison.len(), 2);
    assert_eq!(r.comparison[0].rank, 1);
    assert_eq!(r.comparison[1].rank, 2);
    assert_eq!(r.comparison[0].score, 0);
    assert_eq!(r.comparison[0].verdict, "VOLVO V70 2012");
    assert_eq!(r.comparison[1].verdict, "SAAB V70 -5");
    assert_eq!(r.best_pick.plate, "ABC123");
    assert_eq!(r.best_pick.reason, "AI analysis unavailable — configure AI_API_KEY for recommendations");
    assert_eq!(r.ai_summary, "AI comparison unavailable. Configure AI_API_KEY for detailed analysis.");
}

#[test]
fn a_comparison_stops_at_the_first_failed_report() {
    let c = VehicleComparison::start(vec!["a".to_string(), "b".to_string()], "en");
    let c = c.step(CompareEvent::Report(Err(ServiceError::NotFound { plate: "A".to_string() })));
    assert!(matches!(c.stage(), CompareStage::Done(Err(ServiceError::NotFound { .. }))));
}

#[test]
fn basic_info_of_a_missing_vehicle_names_the_plate() {
    match basic_info_of("abc123", None) {
        Err(e) => assert_eq!(e.message(), "Vehicle not found: abc123"),
        Ok(_) => panic!("expected an error"),
    }
    assert_eq!(basic_info_of("abc123", Some(vehicle("ABC123", None))).unwrap().model, "V70");
}

#[test]
fn error_answers_carry_code_and_message() {
    let r = cardeal::models::ErrorResponse::from_error("comparison_failed", &ServiceError::PlateCount);
    assert_eq!(r.error, "comparison_failed");
    assert_eq!(r.message, "Provide 2-5 plates for comparison");
}

#[test]
fn a_normalized_plate_queries_the_same_plate() {
    for p in ["  abc 123\t", "ABC123", "x", "", "  "] {
        let once = normalize_plate(p);
        assert_eq!(normalize_plate(&once), once);
        assert_eq!(VehicleQuery::start(p, "en").plate(), VehicleQuery::start(&once, "en").plate());
        assert_eq!(FreeQuery::start(p).plate(), FreeQuery::start(&once).plate());
    }
}
