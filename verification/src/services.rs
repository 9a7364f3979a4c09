//! The report service: building reports from rows, and the decisions of
//! each query as a machine from state and event to next state and request.
use vstd::prelude::*;
use vstd::string::*;
use crate::ai::{apply_enrichment, fallback_comparison, AiEnrichment, ComparisonResult};
use crate::external::{
    ascii_upper, ascii_upper_text, is_ascii_text, to_uppercase, uppercase, FetchError, FetchResult,
};
use crate::text::{
    chars_of, lead_ws, lemma_trim_is_run, lemma_trim_settled, string_of, trim, trim_chars,
};
use crate::models::{
    date_text, opt_view, or_zero, text_or_empty, copy_text, number_or_zero, optional_date_text,
    text_or_default, BasicInfo, ConditionInference, ErrorResponse, FreeReport, InspectionInfo, InspectionRow,
    ListingRow, OwnershipEvent, OwnershipInfo, OwnershipRow, PriceEstimate, RecallInfo,
    RecallRow, RiskInfo, Suitability, TaxInfo, VehicleReport, VehicleRow,
};

verus! {

/// Why a query could not be answered.
#[derive(Clone, Debug)]
pub enum ServiceError {
    /// The database, the cache or the network failed; the failure's message.
    Io(String),
    /// No registry gave the vehicle's data.
    Fetch(FetchError),
    /// The vehicle is still unknown after it was fetched.
    NotFoundAfterFetch { plate: String },
    /// No vehicle has the plate.
    NotFound { plate: String },
    /// A comparison needs two to five plates.
    PlateCount,
}

impl ServiceError {
    pub open spec fn text(self) -> Seq<char> {
        match self {
            ServiceError::Io(m) => m@,
            ServiceError::Fetch(e) => e.text(),
            ServiceError::NotFoundAfterFetch { plate } => "Vehicle "@ + plate@
                + " not found after external fetch"@,
            ServiceError::NotFound { plate } => "Vehicle not found: "@ + plate@,
            ServiceError::PlateCount => "Provide 2-5 plates for comparison"@,
        }
    }

    /// The error's message.
    pub fn message(&self) -> (r: String)
        ensures
            r@ == self.text(),
    {
        match self {
            ServiceError::Io(m) => m.clone(),
            ServiceError::Fetch(e) => e.message(),
            ServiceError::NotFoundAfterFetch { plate } => {
                let mut r = String::from_str("Vehicle ");
                r.append(plate.as_str());
                r.append(" not found after external fetch");
                r
            },
            ServiceError::NotFound { plate } => {
                let mut r = String::from_str("Vehicle not found: ");
                r.append(plate.as_str());
                r
            },
            ServiceError::PlateCount => String::from_str("Provide 2-5 plates for comparison"),
        }
    }
}

/// The report that the stored rows give, before any analysis: not cached,
/// not yet stamped with a time.
pub fn build_report(
    vehicle: &VehicleRow,
    ownership: &Vec<OwnershipRow>,
    inspections: &Vec<InspectionRow>,
    recalls: &Vec<RecallRow>,
) -> (report: VehicleReport)
    ensures
        report.states_rows(*vehicle, ownership@, inspections@, recalls@),
        report.has_no_analysis(),
        !report.cached,
        report.generated_at@.len() == 0,
{
    let basic = vehicle.to_basic_info();
    let mut events: Vec<OwnershipEvent> = Vec::new();
    let mut i: usize = 0;
    while i < ownership.len()
        invariant
            i <= ownership.len(),
            events@.len() == i,
            forall|k: int| 0 <= k < i ==> #[trigger] events@[k].describes(ownership@[k]),
        decreases ownership.len() - i,
    {
        events.push(ownership[i].to_event());
        i = i + 1;
    }
    VehicleReport {
        plate: vehicle.plate.clone(),
        cached: false,
        generated_at: String::new(),
        basic,
        ownership: OwnershipInfo { owner_count: number_or_zero(vehicle.owner_count), history: events },
        inspection: InspectionInfo::from_rows(inspections),
        recalls: RecallInfo::from_rows(recalls),
        tax: TaxInfo {
            annual_tax_sek: number_or_zero(vehicle.tax_per_year),
            co2_emission_g_km: number_or_zero(vehicle.co2_emission),
            euro_standard: text_or_default(&vehicle.euro_standard),
        },
        risk: RiskInfo::default(),
        price_estimate: PriceEstimate::default(),
        condition_inference: ConditionInference::default(),
        suitability: Suitability::default(),
        ai_summary: String::new(),
    }
}

/// The message that invites a free-tier user to the full report.
pub open spec fn unlock_text() -> Seq<char> {
    "🔒 Unlock the full report for AI analysis, risk score, price estimate, negotiation strategy, and expert recommendation."@
}

impl FreeReport {
    /// The free report shows the vehicle's basic facts, its newest
    /// inspection and the number of recalls, and nothing of the analysis.
    pub open spec fn shows(
        self,
        vehicle: VehicleRow,
        inspections: Seq<InspectionRow>,
        recall_count: nat,
    ) -> bool {
        &&& self.plate == vehicle.plate
        &&& self.make@ == text_or_empty(vehicle.make)
        &&& self.model@ == text_or_empty(vehicle.model)
        &&& self.year == or_zero(vehicle.year)
        &&& self.fuel_type@ == text_or_empty(vehicle.fuel_type)
        &&& self.mileage_latest == vehicle.mileage_latest
        &&& self.owner_count == vehicle.owner_count
        &&& self.color == vehicle.color
        &&& self.last_inspection_result == if inspections.len() > 0 {
            inspections[0].result
        } else {
            None
        }
        &&& opt_view(self.last_inspection_date) == if inspections.len() > 0 {
            date_text(inspections[0].date)
        } else {
            None
        }
        &&& self.recall_count == recall_count
        &&& self.annual_tax_sek == or_zero(vehicle.tax_per_year)
        &&& self.unlock_message@ == unlock_text()
    }
}

/// The vehicle's own facts in a free report (its plate, mileage, owner count,
/// colour, year and tax) come from the vehicle row alone: two free reports of
/// one vehicle agree on them whatever inspections and recall counts they
/// were given, and the mileage is the row's latest mileage.
pub proof fn lemma_free_report_facts_from_the_vehicle(
    f1: FreeReport,
    f2: FreeReport,
    vehicle: VehicleRow,
    inspections1: Seq<InspectionRow>,
    inspections2: Seq<InspectionRow>,
    count1: nat,
    count2: nat,
)
    requires
        f1.shows(vehicle, inspections1, count1),
        f2.shows(vehicle, inspections2, count2),
    ensures
        f1.mileage_latest == vehicle.mileage_latest,
        f1.mileage_latest == f2.mileage_latest,
        f1.owner_count == vehicle.owner_count,
        f1.owner_count == f2.owner_count,
        f1.color == vehicle.color,
        f1.color == f2.color,
        f1.plate == f2.plate,
        f1.year == f2.year,
        f1.annual_tax_sek == f2.annual_tax_sek,
        f1.recall_count == count1,
{
}

/// The free-tier report of a vehicle, given its inspections (newest first)
/// and the number of its recalls.
pub fn free_report(vehicle: VehicleRow, inspections: &Vec<InspectionRow>, recall_count: usize) -> (r:
    FreeReport)
    ensures
        r.shows(vehicle, inspections@, recall_count as nat),
        r.mileage_latest == vehicle.mileage_latest,
        r.owner_count == vehicle.owner_count,
        r.color == vehicle.color,
{
    let (last_result, last_date) = if inspections.len() > 0 {
        (copy_text(&inspections[0].result), optional_date_text(&inspections[0].date))
    } else {
        (None, None)
    };
    let make = text_or_default(&vehicle.make);
    let model = text_or_default(&vehicle.model);
    let fuel_type = text_or_default(&vehicle.fuel_type);
    FreeReport {
        plate: vehicle.plate,
        make,
        model,
        year: number_or_zero(vehicle.year),
        fuel_type,
        mileage_latest: vehicle.mileage_latest,
        owner_count: vehicle.owner_count,
        color: vehicle.color,
        last_inspection_result: last_result,
        last_inspection_date: last_date,
        recall_count,
        annual_tax_sek: number_or_zero(vehicle.tax_per_year),
        unlock_message: String::from_str(
            "🔒 Unlock the full report for AI analysis, risk score, price estimate, negotiation strategy, and expert recommendation.",
        ),
    }
}

// ─── Plates and cache keys ───────────────────────────────────────

/// A plate as the service looks it up: upper-cased, then trimmed.
pub open spec fn normal_plate(plate: Seq<char>) -> Seq<char> {
    trim(uppercase(plate))
}

/// The form of an ASCII plate: its ASCII upper case, trimmed.
pub open spec fn ascii_plate(plate: Seq<char>) -> Seq<char> {
    trim(ascii_upper_text(plate))
}

/// An ASCII plate in its looked-up form is ASCII and stays as it is when it
/// is normalized again; so a query for a plate and a query for its
/// normalized form look up the same plate.
pub proof fn lemma_ascii_plate_settled(plate: Seq<char>)
    requires
        is_ascii_text(plate),
    ensures
        is_ascii_text(ascii_plate(plate)),
        ascii_plate(ascii_plate(plate)) == ascii_plate(plate),
{
    let u = ascii_upper_text(plate);
    assert forall|i: int| 0 <= i < u.len() implies (#[trigger] u[i] as u32) < 128 && ascii_upper(
        u[i],
    ) == u[i] by {
        assert(u[i] == ascii_upper(plate[i]));
        assert((plate[i] as u32) < 128);
    }
    let q = trim(u);
    lemma_trim_is_run(u);
    let l = lead_ws(u) as int;
    assert forall|i: int| 0 <= i < q.len() implies (#[trigger] q[i] as u32) < 128 && ascii_upper(
        q[i],
    ) == q[i] by {
        assert(q[i] == u[l + i]);
    }
    assert(ascii_upper_text(q) =~= q);
    lemma_trim_settled(u);
}

pub fn normalize_plate(plate: &str) -> (r: String)
    ensures
        r@ == normal_plate(plate@),
        is_ascii_text(plate@) ==> r@ == ascii_plate(plate@),
{
    let upper = to_uppercase(plate);
    let chars = chars_of(upper.as_str());
    string_of(&trim_chars(&chars))
}

/// The key under which the report of a plate is cached.
pub fn cache_key(plate: &str) -> (r: String)
    ensures
        r@ == "vehicle:"@ + plate@,
{
    let mut r = String::from_str("vehicle:");
    r.append(plate);
    r
}

/// Different plates are cached under different keys.
pub proof fn lemma_cache_keys_distinct(a: Seq<char>, b: Seq<char>)
    requires
        a != b,
    ensures
        "vehicle:"@ + a != "vehicle:"@ + b,
{
    let k = "vehicle:"@;
    if k + a == k + b {
        assert(a =~= (k + a).skip(k.len() as int));
        assert(b =~= (k + b).skip(k.len() as int));
    }
}

/// The rows of a lookup, or none when it failed.
pub open spec fn rows_or_empty<T>(res: Result<Vec<T>, String>) -> Seq<T> {
    match res {
        Ok(v) => v@,
        Err(_) => Seq::empty(),
    }
}

pub fn rows_or_none<T>(res: Result<Vec<T>, String>) -> (r: Vec<T>)
    ensures
        r@ == rows_or_empty(res),
{
    match res {
        Ok(v) => v,
        Err(_) => Vec::new(),
    }
}

// ─── The full report of a vehicle ────────────────────────────────

/// What the Redis cache gave for a plate.
#[derive(Debug)]
pub enum CacheLookup {
    /// A cached entry that reads as a report.
    Report(VehicleReport),
    /// A cached entry that does not read as a report.
    Unreadable,
    /// Nothing is cached.
    Miss,
    /// The cache failed; its message.
    Failed(String),
}

/// The rows that a report was built from: the vehicle, its ownership
/// changes, its inspections and its recalls.
pub type LoadedRows = (VehicleRow, Seq<OwnershipRow>, Seq<InspectionRow>, Seq<RecallRow>);

/// The stages of a full report query; each but the last waits for the
/// answer to one request.
#[derive(Debug)]
pub enum QueryStage {
    /// Waiting for the Redis cache.
    ReadCache,
    /// Waiting for the latest report stored in the database.
    ReadStoredReport,
    /// Waiting for the vehicle's row.
    FindVehicle,
    /// Waiting for the vehicle to be fetched from the registries.
    FetchVehicle,
    /// Waiting for the vehicle's row, after the fetch.
    FindFetchedVehicle,
    /// Waiting for the inspections.
    LoadInspections { vehicle: VehicleRow },
    /// Waiting for the ownership changes.
    LoadOwnership { vehicle: VehicleRow, inspections: Vec<InspectionRow> },
    /// Waiting for the recalls of the vehicle's VIN.
    LoadRecalls {
        vehicle: VehicleRow,
        inspections: Vec<InspectionRow>,
        ownership: Vec<OwnershipRow>,
        vin: String,
    },
    /// Waiting for the market listings.
    LoadListings {
        vehicle: VehicleRow,
        inspections: Vec<InspectionRow>,
        ownership: Vec<OwnershipRow>,
        recalls: Vec<RecallRow>,
    },
    /// Waiting for the model's analysis of the report.
    Analyse { report: VehicleReport, listings: Vec<ListingRow> },
    /// Waiting for the current time.
    ReadClock { report: VehicleReport },
    /// Waiting for the report to be saved in the database.
    SaveReport { report: VehicleReport },
    /// Waiting for a report read back from the database to be cached.
    CacheStored { report: VehicleReport },
    /// Waiting for a report just built to be cached.
    CacheBuilt { report: VehicleReport },
    /// Finished.
    Done(Result<VehicleReport, ServiceError>),
}

/// What the outside world answered to the request of a stage.
#[derive(Debug)]
pub enum QueryEvent {
    Cache(CacheLookup),
    /// The latest stored report, or `None` when there is none, it cannot be
    /// read, or the lookup failed.
    StoredReport(Option<VehicleReport>),
    /// The vehicle's row, `None` when there is none; or the failure's message.
    Vehicle(Result<Option<VehicleRow>, String>),
    /// What the fetch from the registries gave.
    Fetched(Result<FetchResult, ServiceError>),
    Inspections(Result<Vec<InspectionRow>, String>),
    Ownership(Result<Vec<OwnershipRow>, String>),
    Recalls(Result<Vec<RecallRow>, String>),
    Listings(Result<Vec<ListingRow>, String>),
    /// The model's analysis; `None` when the model is not configured.
    Analysis(Result<Option<AiEnrichment>, String>),
    /// The current time, as RFC 3339 text.
    Clock(String),
    /// Whether the report was saved.
    Saved(Result<(), String>),
    /// The cache was written to, or the write failed; either way on.
    CacheWritten,
}

impl QueryStage {
    /// Requests left at most before the query is finished.
    pub open spec fn rank(self) -> nat {
        match self {
            QueryStage::ReadCache => 14,
            QueryStage::ReadStoredReport => 13,
            QueryStage::FindVehicle => 12,
            QueryStage::FetchVehicle => 11,
            QueryStage::FindFetchedVehicle => 10,
            QueryStage::LoadInspections { .. } => 9,
            QueryStage::LoadOwnership { .. } => 8,
            QueryStage::LoadRecalls { .. } => 7,
            QueryStage::LoadListings { .. } => 6,
            QueryStage::Analyse { .. } => 5,
            QueryStage::ReadClock { .. } => 4,
            QueryStage::SaveReport { .. } => 3,
            QueryStage::CacheBuilt { .. } => 1,
            QueryStage::CacheStored { .. } => 1,
            QueryStage::Done(_) => 0,
        }
    }

    /// The event answers the request of this stage.
    pub open spec fn accepts(self, event: QueryEvent) -> bool {
        match (self, event) {
            (QueryStage::ReadCache, QueryEvent::Cache(_)) => true,
            (QueryStage::ReadStoredReport, QueryEvent::StoredReport(_)) => true,
            (QueryStage::FindVehicle, QueryEvent::Vehicle(_)) => true,
            (QueryStage::FetchVehicle, QueryEvent::Fetched(_)) => true,
            (QueryStage::FindFetchedVehicle, QueryEvent::Vehicle(_)) => true,
            (QueryStage::LoadInspections { .. }, QueryEvent::Inspections(_)) => true,
            (QueryStage::LoadOwnership { .. }, QueryEvent::Ownership(_)) => true,
            (QueryStage::LoadRecalls { .. }, QueryEvent::Recalls(_)) => true,
            (QueryStage::LoadListings { .. }, QueryEvent::Listings(_)) => true,
            (QueryStage::Analyse { .. }, QueryEvent::Analysis(_)) => true,
            (QueryStage::ReadClock { .. }, QueryEvent::Clock(_)) => true,
            (QueryStage::SaveReport { .. }, QueryEvent::Saved(_)) => true,
            (QueryStage::CacheStored { .. }, QueryEvent::CacheWritten) => true,
            (QueryStage::CacheBuilt { .. }, QueryEvent::CacheWritten) => true,
            _ => false,
        }
    }
}

impl VehicleReport {
    /// `self` is `from` marked as served from a cache.
    pub open spec fn marked_cached(self, from: VehicleReport) -> bool {
        self == VehicleReport { cached: true, ..from }
    }

    /// `self` states the rows `rows`.
    pub open spec fn built_from(self, rows: LoadedRows) -> bool {
        self.states_rows(rows.0, rows.1, rows.2, rows.3)
    }
}

/// A full report query: the cache first, then the stored reports; else the
/// vehicle (fetched from the registries when unknown) with its inspections,
/// ownership, recalls and listings makes a new report, which the model
/// analyses, and which is stamped, saved and cached.
pub struct VehicleQuery {
    plate: String,
    locale: String,
    stage: QueryStage,
    origin: Ghost<Option<LoadedRows>>,
}

impl VehicleQuery {
    /// A report not yet answered states the rows it was built from and is
    /// not marked cached; a report answered from a cache is marked cached,
    /// and every other report answered states its rows.
    #[verifier::type_invariant]
    spec fn consistent(self) -> bool {
        match self.stage {
            QueryStage::LoadRecalls { vehicle, vin, .. } => vehicle.vin == Some(vin),
            QueryStage::Analyse { report, .. } => !report.cached && self.origin@ is Some
                && report.built_from(self.origin@->0),
            QueryStage::ReadClock { report } => !report.cached && self.origin@ is Some
                && report.built_from(self.origin@->0),
            QueryStage::SaveReport { report } => !report.cached && self.origin@ is Some
                && report.built_from(self.origin@->0),
            QueryStage::CacheBuilt { report } => !report.cached && self.origin@ is Some
                && report.built_from(self.origin@->0),
            QueryStage::CacheStored { report } => report.cached,
            QueryStage::Done(Ok(report)) => report.cached || (self.origin@ is Some
                && report.built_from(self.origin@->0)),
            _ => true,
        }
    }

    pub closed spec fn plate_text(self) -> Seq<char> {
        self.plate@
    }

    pub closed spec fn locale_text(self) -> Seq<char> {
        self.locale@
    }

    pub closed spec fn stage_now(self) -> QueryStage {
        self.stage
    }

    /// The rows of the report being built, once they are loaded.
    pub closed spec fn rows(self) -> Option<LoadedRows> {
        self.origin@
    }

    /// The plate asked about, upper-cased and trimmed.
    pub fn plate(&self) -> (r: &String)
        ensures
            r@ == self.plate_text(),
    {
        &self.plate
    }

    pub fn locale(&self) -> (r: &String)
        ensures
            r@ == self.locale_text(),
    {
        &self.locale
    }

    pub fn stage(&self) -> (r: &QueryStage)
        ensures
            *r == self.stage_now(),
    {
        &self.stage
    }

    /// Starts the query for `plate` in `locale`, at the cache.
    pub fn start(plate: &str, locale: &str) -> (q: VehicleQuery)
        ensures
            q.plate_text() == normal_plate(plate@),
            is_ascii_text(plate@) ==> q.plate_text() == ascii_plate(plate@),
            q.locale_text() == locale@,
            q.stage_now() is ReadCache,
    {
        VehicleQuery {
            plate: normalize_plate(plate),
            locale: String::from_str(locale),
            stage: QueryStage::ReadCache,
            origin: Ghost(None),
        }
    }

    /// The answer, once finished.
    pub fn into_result(self) -> (r: Result<VehicleReport, ServiceError>)
        requires
            self.stage_now() is Done,
        ensures
            self.stage_now() == QueryStage::Done(r),
            r matches Ok(report) ==> report.cached || (self.rows() is Some && report.built_from(
                self.rows()->0,
            )),
    {
        proof {
            use_type_invariant(&self);
        }
        match self.stage {
            QueryStage::Done(r) => r,
            _ => {
                proof {
                    assert(false);
                }
                Err(ServiceError::PlateCount)
            },
        }
    }

    /// Takes the answer to the current stage's request and moves on.
    pub fn step(self, event: QueryEvent) -> (next: VehicleQuery)
        requires
            self.stage_now().accepts(event),
        ensures
            next.plate_text() == self.plate_text(),
            next.locale_text() == self.locale_text(),
            next.stage_now().rank() < self.stage_now().rank(),
            match (self.stage_now(), event) {
                (QueryStage::ReadCache, QueryEvent::Cache(CacheLookup::Report(r))) => next.stage_now()
                    matches QueryStage::Done(Ok(answer)) && answer.marked_cached(r),
                (QueryStage::ReadCache, QueryEvent::Cache(_)) => next.stage_now() is ReadStoredReport,
                (QueryStage::ReadStoredReport, QueryEvent::StoredReport(Some(r))) => next.stage_now()
                    matches QueryStage::CacheStored { report } && report.marked_cached(r),
                (QueryStage::ReadStoredReport, QueryEvent::StoredReport(None)) => next.stage_now()
                    is FindVehicle,
                (QueryStage::CacheStored { report }, QueryEvent::CacheWritten) => next.stage_now()
                    == QueryStage::Done(Ok(report)),
                (QueryStage::FindVehicle, QueryEvent::Vehicle(Ok(Some(v)))) => next.stage_now()
                    == QueryStage::LoadInspections { vehicle: v },
                (QueryStage::FindVehicle, QueryEvent::Vehicle(Ok(None))) => next.stage_now()
                    is FetchVehicle,
                (QueryStage::FetchVehicle, QueryEvent::Fetched(Ok(_))) => next.stage_now()
                    is FindFetchedVehicle,
                (QueryStage::FetchVehicle, QueryEvent::Fetched(Err(e))) => next.stage_now()
                    == QueryStage::Done(Err(e)),
                (QueryStage::FindFetchedVehicle, QueryEvent::Vehicle(Ok(Some(v)))) => next.stage_now()
                    == QueryStage::LoadInspections { vehicle: v },
                (QueryStage::FindFetchedVehicle, QueryEvent::Vehicle(Ok(None))) => next.stage_now()
                    matches QueryStage::Done(Err(ServiceError::NotFoundAfterFetch { plate: p }))
                    && p@ == self.plate_text(),
                (_, QueryEvent::Vehicle(Err(m))) => next.stage_now() matches QueryStage::Done(
                    Err(ServiceError::Io(e)),
                ) && e == m,
                (QueryStage::LoadInspections { vehicle }, QueryEvent::Inspections(res)) => next.stage_now()
                    matches QueryStage::LoadOwnership { vehicle: v, inspections } && v == vehicle
                    && inspections@ == rows_or_empty(res),
                (
                    QueryStage::LoadOwnership { vehicle, inspections },
                    QueryEvent::Ownership(res),
                ) => match vehicle.vin {
                    Some(vin) => next.stage_now() matches QueryStage::LoadRecalls {
                        vehicle: v,
                        inspections: i,
                        ownership,
                        vin: n,
                    } && v == vehicle && i == inspections && ownership@ == rows_or_empty(res) && n
                        == vin,
                    None => next.stage_now() matches QueryStage::LoadListings {
                        vehicle: v,
                        inspections: i,
                        ownership,
                        recalls,
                    } && v == vehicle && i == inspections && ownership@ == rows_or_empty(res)
                        && recalls@.len() == 0,
                },
                (
                    QueryStage::LoadRecalls { vehicle, inspections, ownership, .. },
                    QueryEvent::Recalls(res),
                ) => next.stage_now() matches QueryStage::LoadListings {
                    vehicle: v,
                    inspections: i,
                    ownership: o,
                    recalls,
                } && v == vehicle && i == inspections && o == ownership && recalls@
                    == rows_or_empty(res),
                (
                    QueryStage::LoadListings { vehicle, inspections, ownership, recalls },
                    QueryEvent::Listings(res),
                ) => next.stage_now() matches QueryStage::Analyse { report, listings }
                    && report.states_rows(vehicle, ownership@, inspections@, recalls@)
                    && report.has_no_analysis() && !report.cached && report.generated_at@.len()
                    == 0 && listings@ == rows_or_empty(res) && next.rows() == Some(
                    (vehicle, ownership@, inspections@, recalls@),
                ),
                (QueryStage::Analyse { report, .. }, QueryEvent::Analysis(Ok(Some(e)))) => next.stage_now()
                    matches QueryStage::ReadClock { report: r } && r.enriched_from(report, e),
                (QueryStage::Analyse { report, .. }, QueryEvent::Analysis(_)) => next.stage_now()
                    == QueryStage::ReadClock { report },
                (QueryStage::ReadClock { report }, QueryEvent::Clock(t)) => next.stage_now()
                    == QueryStage::SaveReport {
                    report: VehicleReport { generated_at: t, cached: false, ..report },
                },
                (QueryStage::SaveReport { report }, QueryEvent::Saved(_)) => next.stage_now()
                    == QueryStage::CacheBuilt { report },
                (QueryStage::CacheBuilt { report }, QueryEvent::CacheWritten) => next.stage_now()
                    == QueryStage::Done(Ok(report)),
                _ => true,
            },
    {
        proof {
            use_type_invariant(&self);
        }
        let VehicleQuery { plate, locale, stage, origin } = self;
        match (stage, event) {
            (QueryStage::ReadCache, QueryEvent::Cache(lookup)) => match lookup {
                CacheLookup::Report(r) => {
                    let answer = VehicleReport { cached: true, ..r };
                    VehicleQuery { plate, locale, stage: QueryStage::Done(Ok(answer)), origin }
                },
                _ => VehicleQuery { plate, locale, stage: QueryStage::ReadStoredReport, origin },
            },
            (QueryStage::ReadStoredReport, QueryEvent::StoredReport(found)) => match found {
                Some(r) => {
                    let report = VehicleReport { cached: true, ..r };
                    VehicleQuery { plate, locale, stage: QueryStage::CacheStored { report }, origin }
                },
                None => VehicleQuery { plate, locale, stage: QueryStage::FindVehicle, origin },
            },
            (QueryStage::CacheStored { report }, QueryEvent::CacheWritten) => {
                VehicleQuery { plate, locale, stage: QueryStage::Done(Ok(report)), origin }
            },
            (QueryStage::FindVehicle, QueryEvent::Vehicle(found)) => match found {
                Ok(Some(v)) => VehicleQuery {
                    plate,
                    locale,
                    stage: QueryStage::LoadInspections { vehicle: v },
                    origin,
                },
                Ok(None) => VehicleQuery { plate, locale, stage: QueryStage::FetchVehicle, origin },
                Err(m) => VehicleQuery {
                    plate,
                    locale,
                    stage: QueryStage::Done(Err(ServiceError::Io(m))),
                    origin,
                },
            },
            (QueryStage::FetchVehicle, QueryEvent::Fetched(fetched)) => match fetched {
                Ok(_) => VehicleQuery { plate, locale, stage: QueryStage::FindFetchedVehicle, origin },
                Err(e) => VehicleQuery { plate, locale, stage: QueryStage::Done(Err(e)), origin },
            },
            (QueryStage::FindFetchedVehicle, QueryEvent::Vehicle(found)) => match found {
                Ok(Some(v)) => VehicleQuery {
                    plate,
                    locale,
                    stage: QueryStage::LoadInspections { vehicle: v },
                    origin,
                },
                Ok(None) => {
                    let p = plate.clone();
                    VehicleQuery {
                        plate,
                        locale,
                        stage: QueryStage::Done(Err(ServiceError::NotFoundAfterFetch { plate: p })),
                        origin,
                    }
                },
                Err(m) => VehicleQuery {
                    plate,
                    locale,
                    stage: QueryStage::Done(Err(ServiceError::Io(m))),
                    origin,
                },
            },
            (QueryStage::LoadInspections { vehicle }, QueryEvent::Inspections(res)) => {
                let inspections = rows_or_none(res);
                VehicleQuery {
                    plate,
                    locale,
                    stage: QueryStage::LoadOwnership { vehicle, inspections },
                    origin,
                }
            },
            (QueryStage::LoadOwnership { vehicle, inspections }, QueryEvent::Ownership(res)) => {
                let ownership = rows_or_none(res);
                match &vehicle.vin {
                    Some(vin) => {
                        let vin = vin.clone();
                        VehicleQuery {
                            plate,
                            locale,
                            stage: QueryStage::LoadRecalls { vehicle, inspections, ownership, vin },
                            origin,
                        }
                    },
                    None => VehicleQuery {
                        plate,
                        locale,
                        stage: QueryStage::LoadListings {
                            vehicle,
                            inspections,
                            ownership,
                            recalls: Vec::new(),
                        },
                        origin,
                    },
                }
            },
            (
                QueryStage::LoadRecalls { vehicle, inspections, ownership, .. },
                QueryEvent::Recalls(res),
            ) => {
                let recalls = rows_or_none(res);
                VehicleQuery {
                    plate,
                    locale,
                    stage: QueryStage::LoadListings { vehicle, inspections, ownership, recalls },
                    origin,
                }
            },
            (
                QueryStage::LoadListings { vehicle, inspections, ownership, recalls },
                QueryEvent::Listings(res),
            ) => {
                let listings = rows_or_none(res);
                let report = build_report(&vehicle, &ownership, &inspections, &recalls);
                VehicleQuery {
                    plate,
                    locale,
                    stage: QueryStage::Analyse { report, listings },
                    origin: Ghost(Some((vehicle, ownership@, inspections@, recalls@))),
                }
            },
            (QueryStage::Analyse { report, .. }, QueryEvent::Analysis(analysis)) => {
                let report = match analysis {
                    Ok(Some(e)) => apply_enrichment(report, e),
                    _ => report,
                };
                VehicleQuery { plate, locale, stage: QueryStage::ReadClock { report }, origin }
            },
            (QueryStage::ReadClock { report }, QueryEvent::Clock(t)) => {
                let report = VehicleReport { generated_at: t, cached: false, ..report };
                VehicleQuery { plate, locale, stage: QueryStage::SaveReport { report }, origin }
            },
            (QueryStage::SaveReport { report }, QueryEvent::Saved(_)) => {
                VehicleQuery { plate, locale, stage: QueryStage::CacheBuilt { report }, origin }
            },
            (QueryStage::CacheBuilt { report }, QueryEvent::CacheWritten) => {
                VehicleQuery { plate, locale, stage: QueryStage::Done(Ok(report)), origin }
            },
            (stage, _) => {
                proof {
                    assert(false);
                }
                VehicleQuery { plate, locale, stage, origin }
            },
        }
    }
}

// ─── The free report ─────────────────────────────────────────────

/// The stages of a free report query.
#[derive(Debug)]
pub enum FreeStage {
    /// Waiting for the vehicle's row.
    FindVehicle,
    /// Waiting for the vehicle to be fetched from the registries.
    FetchVehicle,
    /// Waiting for the vehicle's row, after the fetch.
    FindFetchedVehicle,
    /// Waiting for the inspections.
    LoadInspections { vehicle: VehicleRow },
    /// Waiting for the number of recalls of the vehicle's VIN.
    CountRecalls { vehicle: VehicleRow, inspections: Vec<InspectionRow>, vin: String },
    /// Finished.
    Done(Result<FreeReport, ServiceError>),
}

/// What the outside world answered to the request of a stage.
#[derive(Debug)]
pub enum FreeEvent {
    Vehicle(Result<Option<VehicleRow>, String>),
    Fetched(Result<FetchResult, ServiceError>),
    Inspections(Result<Vec<InspectionRow>, String>),
    /// The number of recalls, or the failure's message.
    Recalls(Result<usize, String>),
}

impl FreeStage {
    /// Requests left at most before the query is finished.
    pub open spec fn rank(self) -> nat {
        match self {
            FreeStage::FindVehicle => 5,
            FreeStage::FetchVehicle => 4,
            FreeStage::FindFetchedVehicle => 3,
            FreeStage::LoadInspections { .. } => 2,
            FreeStage::CountRecalls { .. } => 1,
            FreeStage::Done(_) => 0,
        }
    }

    pub open spec fn accepts(self, event: FreeEvent) -> bool {
        match (self, event) {
            (FreeStage::FindVehicle, FreeEvent::Vehicle(_)) => true,
            (FreeStage::FetchVehicle, FreeEvent::Fetched(_)) => true,
            (FreeStage::FindFetchedVehicle, FreeEvent::Vehicle(_)) => true,
            (FreeStage::LoadInspections { .. }, FreeEvent::Inspections(_)) => true,
            (FreeStage::CountRecalls { .. }, FreeEvent::Recalls(_)) => true,
            _ => false,
        }
    }
}

/// A free report query: the vehicle (fetched from the registries when
/// unknown), its inspections and the number of its recalls.
pub struct FreeQuery {
    plate: String,
    stage: FreeStage,
}

impl FreeQuery {
    #[verifier::type_invariant]
    spec fn consistent(self) -> bool {
        match self.stage {
            FreeStage::CountRecalls { vehicle, vin, .. } => vehicle.vin == Some(vin),
            _ => true,
        }
    }

    pub closed spec fn plate_text(self) -> Seq<char> {
        self.plate@
    }

    pub closed spec fn stage_now(self) -> FreeStage {
        self.stage
    }

    /// The plate asked about, upper-cased and trimmed.
    pub fn plate(&self) -> (r: &String)
        ensures
            r@ == self.plate_text(),
    {
        &self.plate
    }

    pub fn stage(&self) -> (r: &FreeStage)
        ensures
            *r == self.stage_now(),
    {
        &self.stage
    }

    pub fn start(plate: &str) -> (q: FreeQuery)
        ensures
            q.plate_text() == normal_plate(plate@),
            is_ascii_text(plate@) ==> q.plate_text() == ascii_plate(plate@),
            q.stage_now() is FindVehicle,
    {
        FreeQuery { plate: normalize_plate(plate), stage: FreeStage::FindVehicle }
    }

    pub fn into_result(self) -> (r: Result<FreeReport, ServiceError>)
        requires
            self.stage_now() is Done,
        ensures
            self.stage_now() == FreeStage::Done(r),
    {
        match self.stage {
            FreeStage::Done(r) => r,
            _ => Err(ServiceError::PlateCount),
        }
    }

    /// Takes the answer to the current stage's request and moves on.
    pub fn step(self, event: FreeEvent) -> (next: FreeQuery)
        requires
            self.stage_now().accepts(event),
        ensures
            next.plate_text() == self.plate_text(),
            next.stage_now().rank() < self.stage_now().rank(),
            match (self.stage_now(), event) {
                (FreeStage::FindVehicle, FreeEvent::Vehicle(Ok(Some(v)))) => next.stage_now()
                    == FreeStage::LoadInspections { vehicle: v },
                (FreeStage::FindVehicle, FreeEvent::Vehicle(Ok(None))) => next.stage_now()
                    is FetchVehicle,
                (FreeStage::FetchVehicle, FreeEvent::Fetched(Ok(_))) => next.stage_now()
                    is FindFetchedVehicle,
                (FreeStage::FetchVehicle, FreeEvent::Fetched(Err(e))) => next.stage_now()
                    == FreeStage::Done(Err(e)),
                (FreeStage::FindFetchedVehicle, FreeEvent::Vehicle(Ok(Some(v)))) => next.stage_now()
                    == FreeStage::LoadInspections { vehicle: v },
                (FreeStage::FindFetchedVehicle, FreeEvent::Vehicle(Ok(None))) => next.stage_now()
                    matches FreeStage::Done(Err(ServiceError::NotFound { plate: p })) && p@
                    == self.plate_text(),
                (_, FreeEvent::Vehicle(Err(m))) => next.stage_now() matches FreeStage::Done(
                    Err(ServiceError::Io(e)),
                ) && e == m,
                (FreeStage::LoadInspections { vehicle }, FreeEvent::Inspections(res)) => match vehicle.vin {
                    Some(vin) => next.stage_now() matches FreeStage::CountRecalls {
                        vehicle: v,
                        inspections,
                        vin: n,
                    } && v == vehicle && inspections@ == rows_or_empty(res) && n == vin,
                    None => next.stage_now() matches FreeStage::Done(Ok(r)) && r.shows(
                        vehicle,
                        rows_or_empty(res),
                        0,
                    ),
                },
                (FreeStage::CountRecalls { vehicle, inspections, .. }, FreeEvent::Recalls(res)) => next.stage_now()
                    matches FreeStage::Done(Ok(r)) && r.shows(
                    vehicle,
                    inspections@,
                    match res {
                        Ok(n) => n as nat,
                        Err(_) => 0,
                    },
                ),
                _ => true,
            },
    {
        proof {
            use_type_invariant(&self);
        }
        let FreeQuery { plate, stage } = self;
        match (stage, event) {
            (FreeStage::FindVehicle, FreeEvent::Vehicle(found)) => match found {
                Ok(Some(v)) => FreeQuery { plate, stage: FreeStage::LoadInspections { vehicle: v } },
                Ok(None) => FreeQuery { plate, stage: FreeStage::FetchVehicle },
                Err(m) => FreeQuery { plate, stage: FreeStage::Done(Err(ServiceError::Io(m))) },
            },
            (FreeStage::FetchVehicle, FreeEvent::Fetched(fetched)) => match fetched {
                Ok(_) => FreeQuery { plate, stage: FreeStage::FindFetchedVehicle },
                Err(e) => FreeQuery { plate, stage: FreeStage::Done(Err(e)) },
            },
            (FreeStage::FindFetchedVehicle, FreeEvent::Vehicle(found)) => match found {
                Ok(Some(v)) => FreeQuery { plate, stage: FreeStage::LoadInspections { vehicle: v } },
                Ok(None) => {
                    let p = plate.clone();
                    FreeQuery { plate, stage: FreeStage::Done(Err(ServiceError::NotFound { plate: p })) }
                },
                Err(m) => FreeQuery { plate, stage: FreeStage::Done(Err(ServiceError::Io(m))) },
            },
            (FreeStage::LoadInspections { vehicle }, FreeEvent::Inspections(res)) => {
                let inspections = rows_or_none(res);
                match &vehicle.vin {
                    Some(vin) => {
                        let vin = vin.clone();
                        FreeQuery {
                            plate,
                            stage: FreeStage::CountRecalls { vehicle, inspections, vin },
                        }
                    },
                    None => {
                        let report = free_report(vehicle, &inspections, 0);
                        FreeQuery { plate, stage: FreeStage::Done(Ok(report)) }
                    },
                }
            },
            (FreeStage::CountRecalls { vehicle, inspections, .. }, FreeEvent::Recalls(res)) => {
                let count = match res {
                    Ok(n) => n,
                    Err(_) => 0,
                };
                let report = free_report(vehicle, &inspections, count);
                FreeQuery { plate, stage: FreeStage::Done(Ok(report)) }
            },
            (stage, _) => {
                proof {
                    assert(false);
                }
                FreeQuery { plate, stage }
            },
        }
    }
}

// ─── Comparing vehicles ──────────────────────────────────────────

/// A comparison takes two to five plates.
pub open spec fn plate_count_ok(n: nat) -> bool {
    2 <= n <= 5
}

/// The stages of a comparison.
#[derive(Debug)]
pub enum CompareStage {
    /// Waiting for the full report of the plate at `index`.
    QueryVehicle { index: usize },
    /// Waiting for the listings of `plate`, the upper-cased plate at `index`.
    LoadListings { index: usize, plate: String },
    /// Waiting for the model's comparison of the reports.
    Compare,
    /// Finished.
    Done(Result<ComparisonResult, ServiceError>),
}

#[derive(Debug)]
pub enum CompareEvent {
    Report(Result<VehicleReport, ServiceError>),
    Listings(Result<Vec<ListingRow>, String>),
    /// The model's comparison; `None` when the model is not configured.
    Compared(Result<Option<ComparisonResult>, String>),
}

impl CompareStage {
    /// Requests left at most before a comparison of `n` plates is finished.
    pub open spec fn rank(self, n: nat) -> int {
        match self {
            CompareStage::QueryVehicle { index } => 2 * (n - index) + 1,
            CompareStage::LoadListings { index, .. } => 2 * (n - index),
            CompareStage::Compare => 1,
            CompareStage::Done(_) => 0,
        }
    }

    pub open spec fn accepts(self, event: CompareEvent) -> bool {
        match (self, event) {
            (CompareStage::QueryVehicle { .. }, CompareEvent::Report(_)) => true,
            (CompareStage::LoadListings { .. }, CompareEvent::Listings(_)) => true,
            (CompareStage::Compare, CompareEvent::Compared(_)) => true,
            _ => false,
        }
    }
}

/// A comparison: the full report and the listings of each plate in turn,
/// then the model's comparison, or one made without it.
pub struct VehicleComparison {
    plates: Vec<String>,
    locale: String,
    reports: Vec<VehicleReport>,
    listings: Vec<Vec<ListingRow>>,
    stage: CompareStage,
}

impl VehicleComparison {
    #[verifier::type_invariant]
    spec fn consistent(self) -> bool {
        &&& self.plates.len() <= 5
        &&& match self.stage {
            CompareStage::QueryVehicle { index } => {
                &&& index < self.plates.len()
                &&& self.reports.len() == index
                &&& self.listings.len() == index
            },
            CompareStage::LoadListings { index, plate } => {
                &&& index < self.plates.len()
                &&& self.reports.len() == index + 1
                &&& self.listings.len() == index
                &&& plate@ == uppercase(self.plates@[index as int]@)
            },
            CompareStage::Compare => {
                &&& self.reports.len() == self.plates.len()
                &&& self.listings.len() == self.plates.len()
            },
            CompareStage::Done(_) => true,
        }
    }

    pub closed spec fn plates_asked(self) -> Seq<String> {
        self.plates@
    }

    pub closed spec fn locale_text(self) -> Seq<char> {
        self.locale@
    }

    pub closed spec fn reports_so_far(self) -> Seq<VehicleReport> {
        self.reports@
    }

    pub closed spec fn listings_so_far(self) -> Seq<Vec<ListingRow>> {
        self.listings@
    }

    pub closed spec fn stage_now(self) -> CompareStage {
        self.stage
    }

    pub fn plates(&self) -> (r: &Vec<String>)
        ensures
            r@ == self.plates_asked(),
    {
        &self.plates
    }

    pub fn locale(&self) -> (r: &String)
        ensures
            r@ == self.locale_text(),
    {
        &self.locale
    }

    /// The reports gathered so far, in the order of the plates.
    pub fn reports(&self) -> (r: &Vec<VehicleReport>)
        ensures
            r@ == self.reports_so_far(),
    {
        &self.reports
    }

    /// The listings gathered so far, in the order of the plates.
    pub fn listings(&self) -> (r: &Vec<Vec<ListingRow>>)
        ensures
            r@ == self.listings_so_far(),
    {
        &self.listings
    }

    pub fn stage(&self) -> (r: &CompareStage)
        ensures
            *r == self.stage_now(),
    {
        &self.stage
    }

    /// Starts comparing the vehicles with these plates; two to five are needed.
    pub fn start(plates: Vec<String>, locale: &str) -> (c: VehicleComparison)
        ensures
            plate_count_ok(plates.len() as nat) ==> c.plates_asked() == plates@
                && c.stage_now() == (CompareStage::QueryVehicle { index: 0 }),
            !plate_count_ok(plates.len() as nat) ==> c.stage_now() == CompareStage::Done(
                Err(ServiceError::PlateCount),
            ),
            c.locale_text() == locale@,
            c.reports_so_far().len() == 0,
            c.listings_so_far().len() == 0,
    {
        if plates.len() < 2 || plates.len() > 5 {
            return VehicleComparison {
                plates: Vec::new(),
                locale: String::from_str(locale),
                reports: Vec::new(),
                listings: Vec::new(),
                stage: CompareStage::Done(Err(ServiceError::PlateCount)),
            };
        }
        VehicleComparison {
            plates,
            locale: String::from_str(locale),
            reports: Vec::new(),
            listings: Vec::new(),
            stage: CompareStage::QueryVehicle { index: 0 },
        }
    }

    pub fn into_result(self) -> (r: Result<ComparisonResult, ServiceError>)
        requires
            self.stage_now() is Done,
        ensures
            self.stage_now() == CompareStage::Done(r),
    {
        match self.stage {
            CompareStage::Done(r) => r,
            _ => Err(ServiceError::PlateCount),
        }
    }

    /// Takes the answer to the current stage's request and moves on.
    pub fn step(self, event: CompareEvent) -> (next: VehicleComparison)
        requires
            self.stage_now().accepts(event),
        ensures
            next.plates_asked() == self.plates_asked(),
            next.locale_text() == self.locale_text(),
            0 <= next.stage_now().rank(next.plates_asked().len()) < self.stage_now().rank(
                self.plates_asked().len(),
            ),
            match (self.stage_now(), event) {
                (CompareStage::QueryVehicle { index }, CompareEvent::Report(Ok(r))) => {
                    &&& next.reports_so_far() == self.reports_so_far().push(r)
                    &&& next.listings_so_far() == self.listings_so_far()
                    &&& next.stage_now() matches CompareStage::LoadListings { index: i, plate }
                        && i == index && plate@ == uppercase(self.plates_asked()[index as int]@)
                },
                (CompareStage::QueryVehicle { .. }, CompareEvent::Report(Err(e))) => next.stage_now()
                    == CompareStage::Done(Err(e)),
                (CompareStage::LoadListings { index, .. }, CompareEvent::Listings(res)) => {
                    &&& next.reports_so_far() == self.reports_so_far()
                    &&& next.listings_so_far().len() == self.listings_so_far().len() + 1
                    &&& next.listings_so_far().drop_last() == self.listings_so_far()
                    &&& next.listings_so_far().last()@ == rows_or_empty(res)
                    &&& if index + 1 < self.plates_asked().len() {
                        next.stage_now() == (CompareStage::QueryVehicle { index: (index + 1) as usize })
                    } else {
                        next.stage_now() is Compare
                    }
                },
                (CompareStage::Compare, CompareEvent::Compared(Ok(Some(c)))) => next.stage_now()
                    == CompareStage::Done(Ok(c)),
                (CompareStage::Compare, CompareEvent::Compared(Ok(None))) => next.stage_now()
                    matches CompareStage::Done(Ok(c)) && c.is_fallback_for(self.reports_so_far()),
                (CompareStage::Compare, CompareEvent::Compared(Err(m))) => next.stage_now()
                    matches CompareStage::Done(Err(ServiceError::Io(e))) && e == m,
                _ => true,
            },
    {
        proof {
            use_type_invariant(&self);
        }
        let VehicleComparison { plates, locale, mut reports, mut listings, stage } = self;
        match (stage, event) {
            (CompareStage::QueryVehicle { index }, CompareEvent::Report(answer)) => match answer {
                Ok(r) => {
                    reports.push(r);
                    let plate = to_uppercase(plates[index].as_str());
                    VehicleComparison {
                        plates,
                        locale,
                        reports,
                        listings,
                        stage: CompareStage::LoadListings { index, plate },
                    }
                },
                Err(e) => VehicleComparison {
                    plates,
                    locale,
                    reports,
                    listings,
                    stage: CompareStage::Done(Err(e)),
                },
            },
            (CompareStage::LoadListings { index, .. }, CompareEvent::Listings(res)) => {
                listings.push(rows_or_none(res));
                let stage = if index + 1 < plates.len() {
                    CompareStage::QueryVehicle { index: index + 1 }
                } else {
                    CompareStage::Compare
                };
                VehicleComparison { plates, locale, reports, listings, stage }
            },
            (CompareStage::Compare, CompareEvent::Compared(answer)) => {
                let result = match answer {
                    Ok(Some(c)) => Ok(c),
                    Ok(None) => Ok(fallback_comparison(&reports)),
                    Err(m) => Err(ServiceError::Io(m)),
                };
                VehicleComparison { plates, locale, reports, listings, stage: CompareStage::Done(result) }
            },
            (stage, _) => {
                proof {
                    assert(false);
                }
                VehicleComparison { plates, locale, reports, listings, stage }
            },
        }
    }
}

// ─── Answers ─────────────────────────────────────────────────────

impl ErrorResponse {
    /// The body of an error answer: the endpoint's error code and the
    /// error's message.
    pub fn from_error(code: &str, e: &ServiceError) -> (r: ErrorResponse)
        ensures
            r.error@ == code@,
            r.message@ == e.text(),
    {
        ErrorResponse { error: String::from_str(code), message: e.message() }
    }
}

// ─── Single sections ─────────────────────────────────────────────

/// The basic section of the vehicle that a lookup found; a vehicle that is
/// not there is an error that names the plate as asked.
pub fn basic_info_of(plate: &str, found: Option<VehicleRow>) -> (r: Result<BasicInfo, ServiceError>)
    ensures
        match found {
            Some(v) => r matches Ok(info) && info.describes(v),
            None => r matches Err(ServiceError::NotFound { plate: p }) && p@ == plate@,
        },
{
    match found {
        Some(v) => Ok(v.to_basic_info()),
        None => Err(ServiceError::NotFound { plate: String::from_str(plate) }),
    }
}

} // verus!
