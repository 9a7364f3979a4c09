use cardeal::external::{
    bearer, biluppgifter_storage, parse_json_object, read_api_answer, biluppgifter_url, parse_json_response,
    parse_transportstyrelsen_html, read_api_body, read_form_answer, read_form_page,
    to_uppercase, transportstyrelsen_storage, vehicle_of_response, ApiOutcome,
    BiluppgifterInspection, BiluppgifterInspectionItem, BiluppgifterRecall,
    BiluppgifterResponse, BiluppgifterTheft, BiluppgifterVehicle, DataSource, Displacement,
    EnginePower, FetchError, FetchEvent, FetchStage, FormAnswer, JsonObject, JsonScalar,
    TransportstyrelsenData, VehicleFetch,
};
use cardeal::models::RealBits;
use cardeal::services::ServiceError;

const PAGE: &str = "<html><body><h1>Fordonsuppgifter</h1><table>\
<tr><td>Fabrikat</td><td> VOLVO </td></tr>\
<tr><td>Handelsbenämning</td><td>V70 2.4</td></tr>\
<tr><td>Årsmodell</td><td>2012</td></tr>\
<tr><td>Drivmedel</td><td>-</td></tr><tr><td>Fuel</td><td>Diesel</td></tr>\
<tr><td>Motoreffekt</td><td>120 kW</td></tr>\
<tr><td>Slagvolym</td><td>2 400 cm3</td></tr>\
<tr><td>Antal ägare</td><td>3 st</td></tr>\
<tr><td>Miljöklass</td><td>Euro 5</td></tr>\
<tr><td>Mätarställning</td><td>123 456 km</td></tr>\
<tr><td>Besiktningsdatum</td><td>2023-05-04</td></tr>\
<tr><td>Besiktningsresultat</td><td>Godkänd</td></tr>\
<tr><td>Färg</td><td>Svart</td></tr>\
</table></body></html>";

fn blank_data() -> TransportstyrelsenData {
    TransportstyrelsenData {
        make: None,
        model: None,
        year: None,
        fuel_type: None,
        color: None,
        curb_weight_kg: None,
        gross_weight_kg: None,
        owner_count: None,
        co2_emission: None,
        euro_standard: None,
        tax_per_year: None,
        engine_power: None,
        engine_displacement: None,
        first_registration: None,
        inspection_result: None,
        inspection_date: None,
        inspection_mileage: None,
        inspection_notes: None,
    }
}

#[test]
fn page_fields_are_read_by_their_labels() {
    let d = parse_transportstyrelsen_html(PAGE, "ABC123").unwrap();
    assert_eq!(d.make.as_deref(), Some("VOLVO"));
    assert_eq!(d.model.as_deref(), Some("V70 2.4"));
    assert_eq!(d.year, Some(2012));
    assert_eq!(d.fuel_type.as_deref(), Some("Diesel"));
    assert_eq!(d.engine_power, Some(EnginePower::Kilowatts(120)));
    assert_eq!(d.engine_displacement, Some(Displacement::CubicCentimetres(24003)));
    assert_eq!(d.owner_count, Some(3));
    assert_eq!(d.euro_standard.as_deref(), Some("Euro 5"));
    assert_eq!(d.inspection_mileage, Some(123456));
    assert_eq!(d.inspection_date.as_deref(), Some("2023-05-04"));
    assert_eq!(d.inspection_result.as_deref(), Some("Godkänd"));
    assert_eq!(d.tax_per_year, None);
    assert_eq!(d.first_registration, None);
}

#[test]
fn a_value_after_a_colon_is_read_when_the_tag_gives_none() {
    let e = parse_transportstyrelsen_html("Make: Saab <", "X").unwrap();
    assert_eq!(e.make.as_deref(), Some("Saab"));
    // After "Färg" the next '>' closes "</p>" and leads to no value, so the
    // text after the colon is taken.
    let d = parse_transportstyrelsen_html("<p>Model</p><p>Amazon</p><p>Färg: Svart <</p></body>", "X").unwrap();
    assert_eq!(d.color.as_deref(), Some("Svart"));
    // A label whose own value is a dash takes the colon's value too.
    let d = parse_transportstyrelsen_html("<p>Model</p><p>-</p><p>Färg: Svart <</p></body>", "X").unwrap();
    assert_eq!(d.model.as_deref(), Some("Svart"));
}

#[test]
fn a_nested_tag_gives_no_value_and_the_colon_is_tried() {
    // The text after the first tag is empty here, so the value comes from
    // the first colon that follows the label.
    let html = "<td>Fabrikat</td><td> <strong>VOLVO</strong></td><p>Färg: Svart <</p>";
    let d = parse_transportstyrelsen_html(html, "X").unwrap();
    assert_eq!(d.make.as_deref(), Some("Svart"));
}

#[test]
fn dash_and_empty_values_fall_through_to_the_next_label() {
    let html = "<dl><dt>Fabrikat</dt><dd>-</dd><dt>Make</dt><dd>  </dd><dt>Tillverkare</dt><dd>SCANIA</dd></dl>";
    let d = parse_transportstyrelsen_html(html, "X").unwrap();
    assert_eq!(d.make.as_deref(), Some("SCANIA"));
    assert_eq!(d.model, None);
}

#[test]
fn a_page_without_make_or_model_is_refused() {
    let r = parse_transportstyrelsen_html("<p>Årsmodell</p><p>2001</p>", "X");
    match r {
        Err(e) => {
            assert!(matches!(e, FetchError::Unparsable));
            assert_eq!(e.message(), "Could not parse vehicle data from Transportstyrelsen response");
        }
        Ok(_) => panic!("expected an error"),
    }
}

#[test]
fn numbers_keep_digits_and_dashes_only() {
    let d = parse_transportstyrelsen_html("<b>Model</b><i>X</i><b>CO2</b><i>-1 2 g/km</i><b>Totalvikt</b><i>1-5</i>", "X").unwrap();
    assert_eq!(d.co2_emission, Some(-12));
    assert_eq!(d.gross_weight_kg, None);
}

#[test]
fn form_pages_that_say_no_vehicle_are_not_found() {
    let short = "<html>Fabrikat<td>VOLVO</td></html>";
    match read_form_page(short, "ABC123") {
        Err(FetchError::NotFound { plate }) => assert_eq!(plate, "ABC123"),
        _ => panic!("expected not found"),
    }
    let long = format!("{}<p>Inga uppgifter</p>", PAGE);
    assert!(matches!(read_form_page(&long, "ABC123"), Err(FetchError::NotFound { .. })));
    let missing = format!("{}<p>Fordonet hittades inte</p>", PAGE);
    assert!(matches!(read_form_page(&missing, "ABC123"), Err(FetchError::NotFound { .. })));
    let e = FetchError::NotFound { plate: "ABC123".to_string() };
    assert_eq!(e.message(), "No vehicle found for plate ABC123 on Transportstyrelsen");
    let ok = read_form_page(PAGE, "ABC123").unwrap();
    assert_eq!(ok.make.as_deref(), Some("VOLVO"));
}

#[test]
fn form_errors_name_the_status() {
    let a = FormAnswer { success: false, status: "503 Service Unavailable".to_string(), body: String::new() };
    match read_form_answer(&a, "X") {
        Err(e) => assert_eq!(
            e.message(),
            "Transportstyrelsen returned status 503 Service Unavailable. The public lookup may be temporarily unavailable. Configure BILUPPGIFTER_API_KEY for reliable access."
        ),
        Ok(_) => panic!("expected an error"),
    }
}

fn obj(members: Vec<(&str, JsonScalar)>) -> JsonObject {
    JsonObject { members: members.into_iter().map(|(k, v)| (k.to_string(), v)).collect() }
}

fn text(s: &str) -> JsonScalar {
    JsonScalar::Text(s.to_string())
}

fn integer(n: i64) -> JsonScalar {
    JsonScalar::Number { integer: Some(n), number: RealBits { bits: (n as f64).to_bits() } }
}

#[test]
fn api_answers_are_read_by_english_then_swedish_names() {
    let o = obj(vec![
        ("fabrikat", text("VOLVO")),
        ("model", text("XC60")),
        ("handelsbenamning", text("ignored")),
        ("modelYear", text("2018")),
        ("arsmodell", integer(2018)),
        ("numberOfOwners", integer(2)),
        ("co2", integer(4294967297)),
        ("enginePower", integer(190)),
        ("engineDisplacement", JsonScalar::Number { integer: None, number: RealBits { bits: 1.969f64.to_bits() } }),
        ("inspectionOdometer", JsonScalar::Other),
    ]);
    let d = parse_json_response(&o, "ABC123");
    assert_eq!(d.make.as_deref(), Some("VOLVO"));
    assert_eq!(d.model.as_deref(), Some("XC60"));
    assert_eq!(d.year, Some(2018));
    assert_eq!(d.owner_count, Some(2));
    assert_eq!(d.co2_emission, Some(1));
    assert_eq!(d.engine_power, Some(EnginePower::Horsepower(190)));
    assert_eq!(d.engine_displacement, Some(Displacement::Litres(RealBits { bits: 1.969f64.to_bits() })));
    assert_eq!(d.inspection_mileage, None);
    assert_eq!(d.color, None);
}

#[test]
fn an_api_body_is_read_as_json_when_it_is_json() {
    let o = obj(vec![("make", text("SAAB"))]);
    let d = read_api_body("{\"make\":\"SAAB\"}", &Some(o), "X").unwrap();
    assert_eq!(d.make.as_deref(), Some("SAAB"));
    let d = read_api_body(PAGE, &None, "X").unwrap();
    assert_eq!(d.make.as_deref(), Some("VOLVO"));
    assert!(read_api_body("<p>nothing</p>", &None, "X").is_err());
}

fn bil_vehicle() -> BiluppgifterVehicle {
    BiluppgifterVehicle {
        reg_no: Some("ABC123".to_string()),
        vin: Some("VIN9".to_string()),
        make: Some("VOLVO".to_string()),
        model: Some("V70".to_string()),
        model_name: None,
        model_year: Some(2012),
        color: None,
        vehicle_type: None,
        body_type: None,
        fuel: Some("Bensin".to_string()),
        fuel_type: None,
        engine_power: Some(100),
        engine_displacement: Some(1998),
        gearbox: None,
        number_of_gears: None,
        drivetrain: None,
        four_wheel_drive: None,
        seats: None,
        curb_weight: None,
        gross_weight: None,
        length: None,
        width: None,
        height: Some(1490),
        co2: None,
        euro_class: None,
        imported: Some(true),
        first_registration_date: Some("2012-04-01".to_string()),
        country_of_origin: None,
        number_of_owners: Some(2),
        annual_tax: Some(1500),
        status: None,
        inspection: Some(BiluppgifterInspection {
            latest_inspection: None,
            result: None,
            valid_until: None,
            odometer: Some(15000),
        }),
        inspections: Some(vec![BiluppgifterInspectionItem {
            date: Some("2023-01-01".to_string()),
            result: Some("Godkänd".to_string()),
            odometer: Some(15000),
            notes: None,
        }]),
        recalls: Some(vec![BiluppgifterRecall { description: Some("Brake".to_string()), severity: None, fix_available: None }]),
        theft: Some(BiluppgifterTheft { stolen: Some(true), date: None }),
    }
}

#[test]
fn biluppgifter_data_becomes_rows_to_store() {
    let plan = biluppgifter_storage("ABC123", &bil_vehicle());
    assert_eq!(plan.source, DataSource::Biluppgifter);
    assert_eq!(plan.vehicle.model.as_deref(), Some("V70"));
    assert_eq!(plan.vehicle.fuel_type.as_deref(), Some("Bensin"));
    assert_eq!(plan.vehicle.engine_power, Some(EnginePower::Kilowatts(100)));
    assert_eq!(plan.vehicle.engine_displacement, Some(Displacement::CubicCentimetres(1998)));
    assert_eq!(plan.vehicle.height_mm, Some(1490));
    assert_eq!(plan.vehicle.mileage_latest, Some(15000));
    assert!(!plan.vehicle.is_4x4);
    assert!(plan.vehicle.imported);
    assert_eq!(plan.inspections.len(), 1);
    assert_eq!(plan.inspections[0].plate, "ABC123");
    assert_eq!(plan.recalls.len(), 1);
    assert_eq!(plan.recalls[0].source, "biluppgifter.se");
    assert!(!plan.recalls[0].fix_available);
    assert_eq!(plan.outcome.source, "biluppgifter.se");
    assert!(plan.outcome.found);
    assert!(plan.outcome.stolen);
}

#[test]
fn recalls_without_a_vin_are_not_stored() {
    let mut v = bil_vehicle();
    v.vin = None;
    v.model_name = Some("V70 II".to_string());
    v.theft = None;
    let plan = biluppgifter_storage("ABC123", &v);
    assert_eq!(plan.recalls.len(), 0);
    assert_eq!(plan.vehicle.model.as_deref(), Some("V70 II"));
    assert!(!plan.outcome.stolen);
}

#[test]
fn an_inspection_needs_result_and_date() {
    let mut d = blank_data();
    d.make = Some("VOLVO".to_string());
    d.inspection_result = Some("Godkänd".to_string());
    let plan = transportstyrelsen_storage("ABC123", &d);
    assert_eq!(plan.inspections.len(), 0);
    d.inspection_date = Some("2023-05-04".to_string());
    let plan = transportstyrelsen_storage("ABC123", &d);
    assert_eq!(plan.inspections.len(), 1);
    assert_eq!(plan.source, DataSource::Transportstyrelsen);
    assert_eq!(plan.outcome.source, "transportstyrelsen.se");
    assert!(!plan.outcome.stolen);
    assert_eq!(plan.vehicle.vin, None);
}

#[test]
fn biluppgifter_answers_and_addresses() {
    let r = vehicle_of_response(BiluppgifterResponse { data: None }, "ABC123");
    match r {
        Err(e) => assert_eq!(e.message(), "No vehicle data returned for plate ABC123"),
        Ok(_) => panic!("expected an error"),
    }
    assert!(vehicle_of_response(BiluppgifterResponse { data: Some(bil_vehicle()) }, "ABC123").is_ok());
    assert_eq!(biluppgifter_url("https://api.biluppgifter.se/api/v1", "ABC123"), "https://api.biluppgifter.se/api/v1/vehicle/regno/ABC123");
    assert_eq!(bearer("k"), "Bearer k");
    let e = FetchError::ApiStatus { status: "401 Unauthorized".to_string(), body: "no".to_string() };
    assert_eq!(e.message(), "Biluppgifter API error 401 Unauthorized: no");
}

#[test]
fn fetch_tries_biluppgifter_only_with_a_key() {
    let f = VehicleFetch::start("abc123", "");
    assert!(matches!(f.stage(), FetchStage::RegistryApi));
    assert_eq!(f.plate(), "ABC123");
    let f = VehicleFetch::start("abc123", "key");
    assert!(matches!(f.stage(), FetchStage::Biluppgifter));
}

#[test]
fn fetch_falls_back_to_the_registry_and_stores() {
    let f = VehicleFetch::start("abc123", "key");
    let f = f.step(FetchEvent::Biluppgifter(None));
    assert!(matches!(f.stage(), FetchStage::RegistryApi));
    let f = f.step(FetchEvent::RegistryApi(ApiOutcome::Failed));
    assert!(matches!(f.stage(), FetchStage::RegistryForm));
    let f = f.step(FetchEvent::RegistryForm(Ok(FormAnswer { success: true, status: "200 OK".to_string(), body: PAGE.to_string() })));
    match f.stage() {
        FetchStage::Storing(plan) => {
            assert_eq!(plan.vehicle.make.as_deref(), Some("VOLVO"));
            assert_eq!(plan.vehicle.plate, "ABC123");
        }
        _ => panic!("expected storing"),
    }
    let f = f.step(FetchEvent::Stored(Ok(())));
    let r = f.into_result().unwrap();
    assert_eq!(r.plate, "ABC123");
    assert_eq!(r.source, "transportstyrelsen.se");
    assert!(r.found);
}

#[test]
fn fetch_stores_biluppgifter_data() {
    let f = VehicleFetch::start("abc123", "key");
    let f = f.step(FetchEvent::Biluppgifter(Some(bil_vehicle())));
    assert!(matches!(f.stage(), FetchStage::Storing(_)));
    let f = f.step(FetchEvent::Stored(Err("disk full".to_string())));
    match f.into_result() {
        Err(ServiceError::Io(m)) => assert_eq!(m, "disk full"),
        _ => panic!("expected the storage error"),
    }
}

#[test]
fn fetch_gives_up_when_every_source_fails() {
    let f = VehicleFetch::start("abc123", "");
    let f = f.step(FetchEvent::RegistryApi(ApiOutcome::Failed));
    let f = f.step(FetchEvent::RegistryForm(Err("timeout".to_string())));
    match f.into_result() {
        Err(e) => assert_eq!(
            e.message(),
            "Could not fetch vehicle data for plate ABC123. Configure BILUPPGIFTER_API_KEY for reliable access, or check the plate number."
        ),
        Ok(_) => panic!("expected an error"),
    }
    let f = VehicleFetch::start("abc123", "");
    let f = f.step(FetchEvent::RegistryApi(ApiOutcome::Body { body: "<p>x</p>".to_string() }));
    assert!(matches!(f.stage(), FetchStage::Done(Err(ServiceError::Fetch(FetchError::AllSourcesFailed { .. })))));
    let f = VehicleFetch::start("abc123", "");
    let f = f.step(FetchEvent::RegistryApi(ApiOutcome::Unreadable));
    assert!(matches!(f.stage(), FetchStage::Done(Err(_))));
}

#[test]
fn uppercase_is_unicode_uppercase() {
    assert_eq!(to_uppercase("abc123åäö"), "ABC123ÅÄÖ");
    assert_eq!(to_uppercase("straße"), "STRASSE");
}

#[test]
fn a_json_answer_is_read_as_json() {
    let d = read_api_answer("{\"model\": \"XC60\", \"make\": \"VOLVO\", \"co2\": 150, \"make\": \"SAAB\"}", "X").unwrap();
    assert_eq!(d.make.as_deref(), Some("SAAB"));
    assert_eq!(d.model.as_deref(), Some("XC60"));
    assert_eq!(d.co2_emission, Some(150));
    let d = read_api_answer("[1, 2]", "X").unwrap();
    assert_eq!(d.make, None);
    let d = read_api_answer(PAGE, "X").unwrap();
    assert_eq!(d.make.as_deref(), Some("VOLVO"));
    assert!(read_api_answer("<p>nothing</p>", "X").is_err());
}

#[test]
fn json_members_come_sorted_with_the_last_repeat() {
    let o = parse_json_object("{\"b\": 1.5, \"a\": \"x\", \"b\": 2, \"c\": null}").unwrap();
    let keys: Vec<&str> = o.members.iter().map(|(k, _)| k.as_str()).collect();
    assert_eq!(keys, vec!["a", "b", "c"]);
    assert!(matches!(&o.members[1].1, JsonScalar::Number { integer: Some(2), .. }));
    assert!(matches!(&o.members[2].1, JsonScalar::Other));
    assert!(parse_json_object("not json").is_none());
    assert_eq!(parse_json_object("7").unwrap().members.len(), 0);
}

#[test]
fn fetch_reads_a_json_api_answer() {
    let f = VehicleFetch::start("abc123", "");
    let f = f.step(FetchEvent::RegistryApi(ApiOutcome::Body { body: "{\"make\": \"VOLVO\"}".to_string() }));
    match f.stage() {
        FetchStage::Storing(plan) => assert_eq!(plan.vehicle.make.as_deref(), Some("VOLVO")),
        _ => panic!("expected storing"),
    }
}
