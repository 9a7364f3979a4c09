//! The data model: rows as the database holds them, the report sections the
//! service answers with, and the conversions between them.
use vstd::prelude::*;
use crate::text::{append_chars, decimal, decimal_chars, string_of, zero_pad, zero_pad_chars};
use vstd::string::*;

verus! {

// ─── Plain values ────────────────────────────────────────────────

/// A 64-bit IEEE-754 number, held by its bit pattern. The library never
/// computes with such numbers; it carries them from rows to reports.
#[derive(Clone, Copy, Debug, PartialEq, Eq, Structural)]
pub struct RealBits {
    pub bits: u64,
}

/// Smallest and largest year of a calendar date.
pub open spec fn year_in_range(y: int) -> bool {
    -262143 <= y <= 262142
}

pub open spec fn is_leap_year(y: int) -> bool {
    y % 4 == 0 && (y % 100 != 0 || y % 400 == 0)
}

pub open spec fn days_in_month(y: int, m: int) -> int {
    if m == 2 {
        if is_leap_year(y) {
            29
        } else {
            28
        }
    } else if m == 4 || m == 6 || m == 9 || m == 11 {
        30
    } else {
        31
    }
}

pub open spec fn is_valid_date(y: int, m: int, d: int) -> bool {
    year_in_range(y) && 1 <= m <= 12 && 1 <= d <= days_in_month(y, m)
}

/// A day of the proleptic Gregorian calendar.
#[derive(Clone, Copy, Debug)]
pub struct CalendarDate {
    year: i32,
    month: u32,
    day: u32,
}

impl CalendarDate {
    #[verifier::type_invariant]
    spec fn valid(self) -> bool {
        is_valid_date(self.year as int, self.month as int, self.day as int)
    }

    pub closed spec fn spec_year(self) -> int {
        self.year as int
    }

    pub closed spec fn spec_month(self) -> int {
        self.month as int
    }

    pub closed spec fn spec_day(self) -> int {
        self.day as int
    }

    /// The date with the given year, month and day, if there is one.
    pub fn from_ymd(year: i32, month: u32, day: u32) -> (r: Option<CalendarDate>)
        ensures
            match r {
                Some(d) => is_valid_date(year as int, month as int, day as int) && d.spec_year()
                    == year && d.spec_month() == month && d.spec_day() == day,
                None => !is_valid_date(year as int, month as int, day as int),
            },
    {
        if year < -262143 || year > 262142 || month < 1 || month > 12 || day < 1 {
            return None;
        }
        let leap = year % 4 == 0 && (year % 100 != 0 || year % 400 == 0);
        let dim: u32 = if month == 2 {
            if leap {
                29
            } else {
                28
            }
        } else if month == 4 || month == 6 || month == 9 || month == 11 {
            30
        } else {
            31
        };
        if day > dim {
            return None;
        }
        Some(CalendarDate { year, month, day })
    }

    pub fn year(&self) -> (r: i32)
        ensures
            r == self.spec_year(),
            year_in_range(r as int),
    {
        proof {
            use_type_invariant(self);
        }
        self.year
    }

    pub fn month(&self) -> (r: u32)
        ensures
            r == self.spec_month(),
            1 <= r <= 12,
    {
        proof {
            use_type_invariant(self);
        }
        self.month
    }

    pub fn day(&self) -> (r: u32)
        ensures
            r == self.spec_day(),
            1 <= r <= 31,
    {
        proof {
            use_type_invariant(self);
        }
        self.day
    }

    /// The date as `%Y-%m-%d`: the year with four digits, or with a sign and
    /// at least four digits outside 0 to 9999; month and day with two.
    pub open spec fn text(self) -> Seq<char> {
        year_text(self.spec_year()) + seq!['-'] + zero_pad(decimal(self.spec_month() as nat), 2)
            + seq!['-'] + zero_pad(decimal(self.spec_day() as nat), 2)
    }

    pub fn to_text(&self) -> (r: String)
        ensures
            r@ == self.text(),
    {
        let y = self.year();
        let m = self.month();
        let d = self.day();
        let mut out: Vec<char> = Vec::new();
        if 0 <= y && y <= 9999 {
            let digits = decimal_chars(y as u64);
            let padded = zero_pad_chars(&digits, 4);
            append_chars(&mut out, &padded);
        } else {
            let magnitude: u64 = if y < 0 {
                (-(y as i64)) as u64
            } else {
                y as u64
            };
            out.push(
                if y < 0 {
                    '-'
                } else {
                    '+'
                },
            );
            let digits = decimal_chars(magnitude);
            let padded = zero_pad_chars(&digits, 4);
            append_chars(&mut out, &padded);
        }
        out.push('-');
        let md = zero_pad_chars(&decimal_chars(m as u64), 2);
        append_chars(&mut out, &md);
        out.push('-');
        let dd = zero_pad_chars(&decimal_chars(d as u64), 2);
        append_chars(&mut out, &dd);
        proof {
            assert(out@ =~= self.text());
        }
        string_of(&out)
    }
}

/// The year part of a date's text.
pub open spec fn year_text(y: int) -> Seq<char> {
    if 0 <= y <= 9999 {
        zero_pad(decimal(y as nat), 4)
    } else if y < 0 {
        seq!['-'] + zero_pad(decimal((-y) as nat), 4)
    } else {
        seq!['+'] + zero_pad(decimal(y as nat), 4)
    }
}

/// The text of an optional date.
pub open spec fn date_text(d: Option<CalendarDate>) -> Option<Seq<char>> {
    match d {
        Some(d) => Some(d.text()),
        None => None,
    }
}

/// The view of an optional string.
pub open spec fn opt_view(s: Option<String>) -> Option<Seq<char>> {
    match s {
        Some(s) => Some(s@),
        None => None,
    }
}

/// What `unwrap_or_default` leaves of an optional string.
pub open spec fn text_or_empty(s: Option<String>) -> Seq<char> {
    match s {
        Some(s) => s@,
        None => Seq::empty(),
    }
}

pub open spec fn seq_text_or_empty(s: Option<Seq<char>>) -> Seq<char> {
    match s {
        Some(s) => s,
        None => Seq::empty(),
    }
}

/// What `unwrap_or(0)` leaves of an optional number.
pub open spec fn or_zero(n: Option<i32>) -> i32 {
    match n {
        Some(n) => n,
        None => 0,
    }
}

pub fn copy_text(s: &Option<String>) -> (r: Option<String>)
    ensures
        r == *s,
{
    match s {
        Some(t) => Some(t.clone()),
        None => None,
    }
}

pub fn text_or_default(s: &Option<String>) -> (r: String)
    ensures
        r@ == text_or_empty(*s),
{
    match s {
        Some(t) => t.clone(),
        None => String::new(),
    }
}

pub fn optional_date_text(d: &Option<CalendarDate>) -> (r: Option<String>)
    ensures
        opt_view(r) == date_text(*d),
{
    match d {
        Some(d) => Some(d.to_text()),
        None => None,
    }
}

pub fn number_or_zero(n: Option<i32>) -> (r: i32)
    ensures
        r == or_zero(n),
{
    match n {
        Some(v) => v,
        None => 0,
    }
}

// ─── Database rows ───────────────────────────────────────────────

/// A stored vehicle.
#[derive(Clone, Debug)]
pub struct VehicleRow {
    pub id: i32,
    pub plate: String,
    pub vin: Option<String>,
    pub make: Option<String>,
    pub model: Option<String>,
    pub variant: Option<String>,
    pub year: Option<i32>,
    pub body_type: Option<String>,
    pub fuel_type: Option<String>,
    pub engine_code: Option<String>,
    pub engine_displacement_l: Option<RealBits>,
    pub engine_power_hp: Option<i32>,
    pub engine_torque_nm: Option<i32>,
    pub gearbox_type: Option<String>,
    pub gearbox_gears: Option<i32>,
    pub drivetrain_type: Option<String>,
    pub rear_diff_lock: bool,
    pub center_diff_lock: bool,
    pub is_4x4: bool,
    pub length_mm: Option<i32>,
    pub width_mm: Option<i32>,
    pub height_m: Option<RealBits>,
    pub clearance_mm: Option<i32>,
    pub curb_weight_kg: Option<i32>,
    pub gross_weight_kg: Option<i32>,
    pub seats: Option<i32>,
    pub color: Option<String>,
    pub imported: bool,
    pub first_registration: Option<CalendarDate>,
    pub country_origin: Option<String>,
    pub owner_count: Option<i32>,
    pub mileage_latest: Option<i32>,
    pub tax_per_year: Option<i32>,
    pub co2_emission: Option<i32>,
    pub euro_standard: Option<String>,
}

/// A stored inspection (besiktning).
#[derive(Clone, Debug)]
pub struct InspectionRow {
    pub id: i32,
    pub plate: String,
    pub date: Option<CalendarDate>,
    pub mileage_km: Option<i32>,
    pub result: Option<String>,
    pub notes: Option<String>,
}

/// A stored recall.
#[derive(Clone, Debug)]
pub struct RecallRow {
    pub id: i32,
    pub vin: String,
    pub source: Option<String>,
    pub description: Option<String>,
    pub severity: Option<String>,
    pub fix_available: bool,
}

/// A stored market listing.
#[derive(Clone, Debug)]
pub struct ListingRow {
    pub id: i32,
    pub plate: String,
    pub source: Option<String>,
    pub seller_type: Option<String>,
    pub price_sek: Option<i32>,
    pub mileage_km: Option<i32>,
    pub listed_at: Option<CalendarDate>,
    pub delisted_at: Option<CalendarDate>,
    pub url: Option<String>,
    pub notes: Option<String>,
}

/// A stored change of ownership.
#[derive(Clone, Debug)]
pub struct OwnershipRow {
    pub id: i32,
    pub plate: String,
    pub date: Option<CalendarDate>,
    pub event: Option<String>,
}

// ─── Report sections ─────────────────────────────────────────────

/// A complete vehicle report.
#[derive(Clone, Debug)]
pub struct VehicleReport {
    pub plate: String,
    pub cached: bool,
    pub generated_at: String,
    pub basic: BasicInfo,
    pub ownership: OwnershipInfo,
    pub inspection: InspectionInfo,
    pub recalls: RecallInfo,
    pub tax: TaxInfo,
    pub risk: RiskInfo,
    pub price_estimate: PriceEstimate,
    pub condition_inference: ConditionInference,
    pub suitability: Suitability,
    pub ai_summary: String,
}

#[derive(Clone, Debug)]
pub struct BasicInfo {
    pub plate: String,
    pub vin: Option<String>,
    pub make: String,
    pub model: String,
    pub variant: Option<String>,
    pub year: i32,
    pub body_type: String,
    pub fuel_type: String,
    pub engine_code: Option<String>,
    pub engine_displacement_l: Option<RealBits>,
    pub engine_power_hp: Option<i32>,
    pub engine_torque_nm: Option<i32>,
    pub gearbox_type: Option<String>,
    pub gearbox_gears: Option<i32>,
    pub drivetrain_type: Option<String>,
    pub is_4x4: bool,
    pub color: Option<String>,
    pub seats: Option<i32>,
    pub curb_weight_kg: Option<i32>,
    pub first_registration: Option<String>,
    pub country_origin: Option<String>,
    pub mileage_latest: Option<i32>,
    pub owner_count: Option<i32>,
}

#[derive(Clone, Debug)]
pub struct OwnershipInfo {
    pub owner_count: i32,
    pub history: Vec<OwnershipEvent>,
}

#[derive(Clone, Debug)]
pub struct OwnershipEvent {
    pub date: String,
    pub event: String,
}

#[derive(Clone, Debug)]
pub struct InspectionInfo {
    pub total_inspections: usize,
    pub last_inspection: Option<String>,
    pub last_result: Option<String>,
    pub history: Vec<InspectionItem>,
}

#[derive(Clone, Debug)]
pub struct InspectionItem {
    pub date: String,
    pub mileage_km: i32,
    pub result: String,
    pub notes: Option<String>,
}

#[derive(Clone, Debug)]
pub struct RecallInfo {
    pub total_recalls: usize,
    pub open_recalls: usize,
    pub recalls: Vec<RecallItem>,
}

#[derive(Clone, Debug)]
pub struct RecallItem {
    pub vin: String,
    pub source: String,
    pub description: String,
    pub severity: String,
    pub fix_available: bool,
}

#[derive(Clone, Debug)]
pub struct TaxInfo {
    pub annual_tax_sek: i32,
    pub co2_emission_g_km: i32,
    pub euro_standard: String,
}

#[derive(Clone, Debug)]
pub struct RiskInfo {
    pub score: i32,
    pub level: String,
    pub factors: Vec<String>,
    pub description: String,
}

#[derive(Clone, Debug)]
pub struct PriceEstimate {
    pub min_sek: i32,
    pub max_sek: i32,
    pub median_sek: i32,
    pub currency: String,
    pub source: String,
}

#[derive(Clone, Debug)]
pub struct ConditionInference {
    pub rating: String,
    pub confidence: RealBits,
    pub indicators: Vec<String>,
    pub description: String,
}

#[derive(Clone, Debug)]
pub struct Suitability {
    pub score: i32,
    pub recommendation: String,
    pub pros: Vec<String>,
    pub cons: Vec<String>,
}

impl RiskInfo {
    /// Zero score, every text and list empty.
    pub open spec fn is_empty(self) -> bool {
        self.score == 0 && self.level@.len() == 0 && self.factors@.len() == 0
            && self.description@.len() == 0
    }
}

impl PriceEstimate {
    pub open spec fn is_empty(self) -> bool {
        self.min_sek == 0 && self.max_sek == 0 && self.median_sek == 0 && self.currency@.len()
            == 0 && self.source@.len() == 0
    }
}

impl ConditionInference {
    pub open spec fn is_empty(self) -> bool {
        self.rating@.len() == 0 && self.confidence.bits == 0 && self.indicators@.len() == 0
            && self.description@.len() == 0
    }
}

impl Suitability {
    pub open spec fn is_empty(self) -> bool {
        self.score == 0 && self.recommendation@.len() == 0 && self.pros@.len() == 0
            && self.cons@.len() == 0
    }
}

impl Default for RiskInfo {
    fn default() -> (r: RiskInfo)
        ensures
            r.is_empty(),
    {
        RiskInfo { score: 0, level: String::new(), factors: Vec::new(), description: String::new() }
    }
}

impl Default for PriceEstimate {
    fn default() -> (r: PriceEstimate)
        ensures
            r.is_empty(),
    {
        PriceEstimate {
            min_sek: 0,
            max_sek: 0,
            median_sek: 0,
            currency: String::new(),
            source: String::new(),
        }
    }
}

impl Default for ConditionInference {
    /// The confidence is the number zero, whose bit pattern is all zeros.
    fn default() -> (r: ConditionInference)
        ensures
            r.is_empty(),
    {
        ConditionInference {
            rating: String::new(),
            confidence: RealBits { bits: 0 },
            indicators: Vec::new(),
            description: String::new(),
        }
    }
}

impl Default for Suitability {
    fn default() -> (r: Suitability)
        ensures
            r.is_empty(),
    {
        Suitability {
            score: 0,
            recommendation: String::new(),
            pros: Vec::new(),
            cons: Vec::new(),
        }
    }
}

// ─── Requests and answers ────────────────────────────────────────

/// A request for a full report.
#[derive(Clone, Debug)]
pub struct QueryRequest {
    pub plate: String,
    pub locale: String,
}

#[derive(Clone, Debug)]
pub struct PlateQuery {
    pub plate: String,
}

#[derive(Clone, Debug)]
pub struct VinQuery {
    pub vin: String,
}

/// A request to compare several vehicles.
#[derive(Clone, Debug)]
pub struct CompareRequest {
    pub plates: Vec<String>,
    pub locale: String,
}

/// Free-tier report: shows enough to convince, locks the premium analysis.
#[derive(Clone, Debug)]
pub struct FreeReport {
    pub plate: String,
    pub make: String,
    pub model: String,
    pub year: i32,
    pub fuel_type: String,
    pub mileage_latest: Option<i32>,
    pub owner_count: Option<i32>,
    pub color: Option<String>,
    pub last_inspection_result: Option<String>,
    pub last_inspection_date: Option<String>,
    pub recall_count: usize,
    pub annual_tax_sek: i32,
    pub unlock_message: String,
}

#[derive(Clone, Debug)]
pub struct ErrorResponse {
    pub error: String,
    pub message: String,
}


// ─── From rows to report sections ────────────────────────────────

impl BasicInfo {
    /// The basic section says what the vehicle row holds: texts that are
    /// missing read as empty, a missing year as 0, the first registration as
    /// the date's text.
    pub open spec fn describes(self, row: VehicleRow) -> bool {
        &&& self.plate == row.plate
        &&& self.vin == row.vin
        &&& self.make@ == text_or_empty(row.make)
        &&& self.model@ == text_or_empty(row.model)
        &&& self.variant == row.variant
        &&& self.year == or_zero(row.year)
        &&& self.body_type@ == text_or_empty(row.body_type)
        &&& self.fuel_type@ == text_or_empty(row.fuel_type)
        &&& self.engine_code == row.engine_code
        &&& self.engine_displacement_l == row.engine_displacement_l
        &&& self.engine_power_hp == row.engine_power_hp
        &&& self.engine_torque_nm == row.engine_torque_nm
        &&& self.gearbox_type == row.gearbox_type
        &&& self.gearbox_gears == row.gearbox_gears
        &&& self.drivetrain_type == row.drivetrain_type
        &&& self.is_4x4 == row.is_4x4
        &&& self.color == row.color
        &&& self.seats == row.seats
        &&& self.curb_weight_kg == row.curb_weight_kg
        &&& opt_view(self.first_registration) == date_text(row.first_registration)
        &&& self.country_origin == row.country_origin
        &&& self.mileage_latest == row.mileage_latest
        &&& self.owner_count == row.owner_count
    }
}

impl InspectionItem {
    pub open spec fn describes(self, row: InspectionRow) -> bool {
        &&& self.date@ == seq_text_or_empty(date_text(row.date))
        &&& self.mileage_km == or_zero(row.mileage_km)
        &&& self.result@ == text_or_empty(row.result)
        &&& self.notes == row.notes
    }
}

impl RecallItem {
    pub open spec fn describes(self, row: RecallRow) -> bool {
        &&& self.vin == row.vin
        &&& self.source@ == text_or_empty(row.source)
        &&& self.description@ == text_or_empty(row.description)
        &&& self.severity@ == text_or_empty(row.severity)
        &&& self.fix_available == row.fix_available
    }
}

impl OwnershipEvent {
    pub open spec fn describes(self, row: OwnershipRow) -> bool {
        &&& self.date@ == seq_text_or_empty(date_text(row.date))
        &&& self.event@ == text_or_empty(row.event)
    }
}

/// Number of recalls that have no fix yet.
pub open spec fn open_count(rows: Seq<RecallRow>) -> nat
    decreases rows.len(),
{
    if rows.len() == 0 {
        0
    } else {
        open_count(rows.drop_last()) + if rows.last().fix_available {
            0nat
        } else {
            1nat
        }
    }
}

impl InspectionInfo {
    /// The inspection section lists the rows in their order; the last
    /// inspection is the first row (rows come newest first).
    pub open spec fn summarizes(self, rows: Seq<InspectionRow>) -> bool {
        &&& self.total_inspections == rows.len()
        &&& self.history@.len() == rows.len()
        &&& forall|i: int| 0 <= i < rows.len() ==> #[trigger] self.history@[i].describes(rows[i])
        &&& rows.len() == 0 ==> self.last_inspection is None && self.last_result is None
        &&& rows.len() > 0 ==> opt_view(self.last_inspection) == Some(
            seq_text_or_empty(date_text(rows[0].date)),
        ) && opt_view(self.last_result) == Some(text_or_empty(rows[0].result))
    }
}

impl RecallInfo {
    /// The recall section lists the rows in their order and counts those
    /// without a fix as open.
    pub open spec fn summarizes(self, rows: Seq<RecallRow>) -> bool {
        &&& self.total_recalls == rows.len()
        &&& self.open_recalls == open_count(rows)
        &&& self.recalls@.len() == rows.len()
        &&& forall|i: int| 0 <= i < rows.len() ==> #[trigger] self.recalls@[i].describes(rows[i])
    }
}

impl VehicleRow {
    pub fn to_basic_info(&self) -> (info: BasicInfo)
        ensures
            info.describes(*self),
    {
        BasicInfo {
            plate: self.plate.clone(),
            vin: copy_text(&self.vin),
            make: text_or_default(&self.make),
            model: text_or_default(&self.model),
            variant: copy_text(&self.variant),
            year: number_or_zero(self.year),
            body_type: text_or_default(&self.body_type),
            fuel_type: text_or_default(&self.fuel_type),
            engine_code: copy_text(&self.engine_code),
            engine_displacement_l: self.engine_displacement_l,
            engine_power_hp: self.engine_power_hp,
            engine_torque_nm: self.engine_torque_nm,
            gearbox_type: copy_text(&self.gearbox_type),
            gearbox_gears: self.gearbox_gears,
            drivetrain_type: copy_text(&self.drivetrain_type),
            is_4x4: self.is_4x4,
            color: copy_text(&self.color),
            seats: self.seats,
            curb_weight_kg: self.curb_weight_kg,
            first_registration: optional_date_text(&self.first_registration),
            country_origin: copy_text(&self.country_origin),
            mileage_latest: self.mileage_latest,
            owner_count: self.owner_count,
        }
    }
}

impl InspectionRow {
    pub fn to_item(&self) -> (item: InspectionItem)
        ensures
            item.describes(*self),
    {
        let date = optional_date_text(&self.date);
        InspectionItem {
            date: text_or_default(&date),
            mileage_km: number_or_zero(self.mileage_km),
            result: text_or_default(&self.result),
            notes: copy_text(&self.notes),
        }
    }
}

impl RecallRow {
    pub fn to_item(&self) -> (item: RecallItem)
        ensures
            item.describes(*self),
    {
        RecallItem {
            vin: self.vin.clone(),
            source: text_or_default(&self.source),
            description: text_or_default(&self.description),
            severity: text_or_default(&self.severity),
            fix_available: self.fix_available,
        }
    }
}

impl OwnershipRow {
    pub fn to_event(&self) -> (ev: OwnershipEvent)
        ensures
            ev.describes(*self),
    {
        let date = optional_date_text(&self.date);
        OwnershipEvent { date: text_or_default(&date), event: text_or_default(&self.event) }
    }
}

impl InspectionInfo {
    /// The inspection section of the given rows, newest first.
    pub fn from_rows(rows: &Vec<InspectionRow>) -> (info: InspectionInfo)
        ensures
            info.summarizes(rows@),
    {
        let mut items: Vec<InspectionItem> = Vec::new();
        let mut i: usize = 0;
        while i < rows.len()
            invariant
                i <= rows.len(),
                items@.len() == i,
                forall|k: int| 0 <= k < i ==> #[trigger] items@[k].describes(rows@[k]),
            decreases rows.len() - i,
        {
            items.push(rows[i].to_item());
            i = i + 1;
        }
        let (last_inspection, last_result) = if items.len() > 0 {
            assert(items@[0].describes(rows@[0]));
            (Some(items[0].date.clone()), Some(items[0].result.clone()))
        } else {
            (None, None)
        };
        InspectionInfo {
            total_inspections: items.len(),
            last_inspection,
            last_result,
            history: items,
        }
    }
}

pub proof fn lemma_open_count_step(rows: Seq<RecallRow>, i: int)
    requires
        0 <= i < rows.len(),
    ensures
        open_count(rows.take(i + 1)) == open_count(rows.take(i)) + if rows[i].fix_available {
            0nat
        } else {
            1nat
        },
{
    assert(rows.take(i + 1).drop_last() =~= rows.take(i));
}

impl RecallInfo {
    /// The recall section of the given rows.
    pub fn from_rows(rows: &Vec<RecallRow>) -> (info: RecallInfo)
        ensures
            info.summarizes(rows@),
    {
        let mut items: Vec<RecallItem> = Vec::new();
        let mut open: usize = 0;
        let mut i: usize = 0;
        assert(rows@.take(0).len() == 0);
        while i < rows.len()
            invariant
                i <= rows.len(),
                items@.len() == i,
                open <= i,
                open == open_count(rows@.take(i as int)),
                forall|k: int| 0 <= k < i ==> #[trigger] items@[k].describes(rows@[k]),
            decreases rows.len() - i,
        {
            let item = rows[i].to_item();
            proof {
                lemma_open_count_step(rows@, i as int);
            }
            if !item.fix_available {
                open = open + 1;
            }
            items.push(item);
            i = i + 1;
        }
        assert(rows@.take(i as int) =~= rows@);
        RecallInfo { total_recalls: items.len(), open_recalls: open, recalls: items }
    }
}

/// A recall section never counts more open recalls than recalls.
pub proof fn lemma_open_recalls_within_total(info: RecallInfo, rows: Seq<RecallRow>)
    requires
        info.summarizes(rows),
    ensures
        info.open_recalls <= info.total_recalls,
{
    lemma_open_count_bound(rows);
}

/// Open recalls never outnumber recalls.
pub proof fn lemma_open_count_bound(rows: Seq<RecallRow>)
    ensures
        open_count(rows) <= rows.len(),
    decreases rows.len(),
{
    if rows.len() > 0 {
        lemma_open_count_bound(rows.drop_last());
    }
}


impl VehicleReport {
    /// The sections of the report that come from the stored rows.
    pub open spec fn states_rows(
        self,
        vehicle: VehicleRow,
        ownership: Seq<OwnershipRow>,
        inspections: Seq<InspectionRow>,
        recalls: Seq<RecallRow>,
    ) -> bool {
        &&& self.plate == vehicle.plate
        &&& self.basic.describes(vehicle)
        &&& self.ownership.owner_count == or_zero(vehicle.owner_count)
        &&& self.ownership.history@.len() == ownership.len()
        &&& forall|i: int|
            0 <= i < ownership.len() ==> #[trigger] self.ownership.history@[i].describes(
                ownership[i],
            )
        &&& self.inspection.summarizes(inspections)
        &&& self.recalls.summarizes(recalls)
        &&& self.tax.annual_tax_sek == or_zero(vehicle.tax_per_year)
        &&& self.tax.co2_emission_g_km == or_zero(vehicle.co2_emission)
        &&& self.tax.euro_standard@ == text_or_empty(vehicle.euro_standard)
    }

    /// No analysis yet: risk, price, condition and suitability empty, no summary.
    pub open spec fn has_no_analysis(self) -> bool {
        &&& self.risk.is_empty()
        &&& self.price_estimate.is_empty()
        &&& self.condition_inference.is_empty()
        &&& self.suitability.is_empty()
        &&& self.ai_summary@.len() == 0
    }

    /// `self` and `other` agree on every section that comes from the rows.
    pub open spec fn same_facts(self, other: VehicleReport) -> bool {
        &&& self.plate == other.plate
        &&& self.basic == other.basic
        &&& self.ownership == other.ownership
        &&& self.inspection == other.inspection
        &&& self.recalls == other.recalls
        &&& self.tax == other.tax
    }
}

/// The locale of a request that names none.
pub fn default_locale() -> (r: String)
    ensures
        r@ == "en"@,
{
    String::from_str("en")
}

} // verus!
