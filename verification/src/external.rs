//! Vehicle data from the Swedish registries: reading the Transportstyrelsen
//! page and API answer, and turning registry data into the rows to store.
use vstd::prelude::*;
use vstd::string::*;
use crate::models::{opt_view, RealBits};
use crate::text::{
    append_chars, chars_of, contains, contains_chars, find, find_char, find_chars,
    is_digit, lemma_find_from_found, parse_i32, parse_i32_chars, string_of, subrange, trim,
    trim_chars, trim_start, trim_start_chars, utf8_len, utf8_shorter_than,
};

verus! {

// ─── Reading a registry page ─────────────────────────────────────

/// A value read from the page: present, not empty and not a lone dash.
pub open spec fn as_value(v: Seq<char>) -> Option<Seq<char>> {
    if v.len() > 0 && v != seq!['-'] {
        Some(v)
    } else {
        None
    }
}

/// The value that starts the text `s`: either the text of the first element
/// (when `s`, leading whitespace aside, opens a tag) or the text up to the
/// next tag, trimmed.
pub open spec fn leading_value(s: Seq<char>) -> Option<Seq<char>> {
    let rest = trim_start(s);
    if rest.len() > 0 && rest[0] == '<' {
        match find(rest, seq!['>']) {
            Some(k) => {
                let inner = rest.skip(k + 1int);
                match find(inner, seq!['<']) {
                    Some(e) => as_value(trim(inner.take(e as int))),
                    None => None,
                }
            },
            None => None,
        }
    } else {
        match find(rest, seq!['<']) {
            Some(e) => as_value(trim(rest.take(e as int))),
            None => None,
        }
    }
}

/// The value that follows the first `mark` in `after`.
pub open spec fn value_after_mark(after: Seq<char>, mark: char) -> Option<Seq<char>> {
    match find(after, seq![mark]) {
        Some(start) => leading_value(after.skip(start + 1int)),
        None => None,
    }
}

/// The value that the first occurrence of `label` introduces: after the
/// next `>`, else after the next `:`.
pub open spec fn value_at_label(html: Seq<char>, label: Seq<char>) -> Option<Seq<char>> {
    match find(html, label) {
        Some(pos) => {
            let after = html.skip((pos + label.len()) as int);
            match value_after_mark(after, '>') {
                Some(v) => Some(v),
                None => value_after_mark(after, ':'),
            }
        },
        None => None,
    }
}

/// The value of the first label, in order, that yields one.
pub open spec fn extract_field(html: Seq<char>, labels: Seq<Seq<char>>) -> Option<Seq<char>>
    decreases labels.len(),
{
    if labels.len() == 0 {
        None
    } else {
        match value_at_label(html, labels[0]) {
            Some(v) => Some(v),
            None => extract_field(html, labels.drop_first()),
        }
    }
}

/// The characters of `s` that may belong to a number: digits and `-`.
pub open spec fn number_chars(s: Seq<char>) -> Seq<char>
    decreases s.len(),
{
    if s.len() == 0 {
        s
    } else if is_digit(s.last()) || s.last() == '-' {
        number_chars(s.drop_last()).push(s.last())
    } else {
        number_chars(s.drop_last())
    }
}

/// The number of the first label that yields a value: the value's digits
/// and dashes, read as an `i32`.
pub open spec fn extract_number(html: Seq<char>, labels: Seq<Seq<char>>) -> Option<i32> {
    match extract_field(html, labels) {
        Some(v) => parse_i32(number_chars(v)),
        None => None,
    }
}

pub open spec fn views(labels: Seq<&str>) -> Seq<Seq<char>> {
    labels.map_values(|l: &str| l@)
}

fn value_from(s: &Vec<char>) -> (r: Option<Vec<char>>)
    ensures
        match r {
            Some(v) => as_value(v@) == Some(v@),
            None => as_value(s@) is None,
        },
        r is Some ==> r->0@ == s@,
{
    if s.len() > 0 && !(s.len() == 1 && s[0] == '-') {
        proof {
            if s@ == seq!['-'] {
                assert(s@[0] == '-');
            }
        }
        let mut v: Vec<char> = Vec::new();
        append_chars(&mut v, s);
        proof {
            assert(v@ =~= s@);
        }
        Some(v)
    } else {
        proof {
            if s.len() == 1 {
                assert(s@ =~= seq!['-']);
            }
        }
        None
    }
}

proof fn lemma_found_in_bounds(s: Seq<char>, pat: Seq<char>, k: nat)
    requires
        find(s, pat) == Some(k),
    ensures
        k + pat.len() <= s.len(),
{
    lemma_find_from_found(s, pat, 0, k);
}

fn leading_value_of(s: &Vec<char>) -> (r: Option<Vec<char>>)
    ensures
        match r {
            Some(v) => leading_value(s@) == Some(v@),
            None => leading_value(s@) is None,
        },
{
    let rest = trim_start_chars(s);
    if rest.len() > 0 && rest[0] == '<' {
        match find_char(&rest, '>') {
            Some(k) => {
                proof {
                    lemma_found_in_bounds(rest@, seq!['>'], k as nat);
                }
                let inner = subrange(&rest, k + 1, rest.len());
                assert(inner@ =~= rest@.skip(k + 1));
                match find_char(&inner, '<') {
                    Some(e) => {
                        proof {
                            lemma_found_in_bounds(inner@, seq!['<'], e as nat);
                        }
                        let piece = subrange(&inner, 0, e);
                        assert(piece@ =~= inner@.take(e as int));
                        let t = trim_chars(&piece);
                        value_from(&t)
                    },
                    None => None,
                }
            },
            None => None,
        }
    } else {
        match find_char(&rest, '<') {
            Some(e) => {
                proof {
                    lemma_found_in_bounds(rest@, seq!['<'], e as nat);
                }
                let piece = subrange(&rest, 0, e);
                assert(piece@ =~= rest@.take(e as int));
                let t = trim_chars(&piece);
                value_from(&t)
            },
            None => None,
        }
    }
}

fn value_after_mark_of(after: &Vec<char>, mark: char) -> (r: Option<Vec<char>>)
    ensures
        match r {
            Some(v) => value_after_mark(after@, mark) == Some(v@),
            None => value_after_mark(after@, mark) is None,
        },
{
    match find_char(after, mark) {
        Some(start) => {
            proof {
                lemma_found_in_bounds(after@, seq![mark], start as nat);
                assert(seq![mark].len() == 1);
                assert(start + 1 <= after@.len());
                assert(start + 1 <= after.len());
            }
            let rest = subrange(after, start + 1, after.len());
            assert(rest@ =~= after@.skip(start + 1));
            leading_value_of(&rest)
        },
        None => None,
    }
}

fn value_at_label_of(html: &Vec<char>, label: &Vec<char>) -> (r: Option<Vec<char>>)
    ensures
        match r {
            Some(v) => value_at_label(html@, label@) == Some(v@),
            None => value_at_label(html@, label@) is None,
        },
        match find(html@, label@) {
            Some(pos) => match value_after_mark(html@.skip((pos + label@.len()) as int), '>') {
                Some(v) => r matches Some(w) && w@ == v,
                None => true,
            },
            None => r is None,
        },
{
    match find_chars(html, label) {
        Some(pos) => {
            proof {
                lemma_found_in_bounds(html@, label@, pos as nat);
                assert(pos + label@.len() <= html@.len());
                assert(pos + label.len() <= html.len());
            }
            let after = subrange(html, pos + label.len(), html.len());
            assert(after@ =~= html@.skip(pos + label.len()));
            match value_after_mark_of(&after, '>') {
                Some(v) => Some(v),
                None => value_after_mark_of(&after, ':'),
            }
        },
        None => None,
    }
}

/// The value of the first label that yields one.
pub fn extract_field_of(html: &Vec<char>, labels: &Vec<&str>) -> (r: Option<Vec<char>>)
    ensures
        match r {
            Some(v) => extract_field(html@, views(labels@)) == Some(v@),
            None => extract_field(html@, views(labels@)) is None,
        },
{
    let ghost all = views(labels@);
    let mut i: usize = 0;
    assert(all.skip(0) =~= all);
    while i < labels.len()
        invariant
            i <= labels.len(),
            all == views(labels@),
            all.len() == labels.len(),
            extract_field(html@, all) == extract_field(html@, all.skip(i as int)),
        decreases labels.len() - i,
    {
        let label = chars_of(labels[i]);
        proof {
            assert(all.skip(i as int)[0] == label@);
            assert(all.skip(i as int).drop_first() =~= all.skip(i + 1));
        }
        match value_at_label_of(html, &label) {
            Some(v) => {
                return Some(v);
            },
            None => {},
        }
        i = i + 1;
    }
    assert(all.skip(i as int).len() == 0);
    None
}

fn number_chars_of(s: &Vec<char>) -> (r: Vec<char>)
    ensures
        r@ == number_chars(s@),
{
    let mut r: Vec<char> = Vec::new();
    let mut i: usize = 0;
    assert(s@.take(0) =~= seq![]);
    while i < s.len()
        invariant
            i <= s.len(),
            r@ == number_chars(s@.take(i as int)),
        decreases s.len() - i,
    {
        let c = s[i];
        proof {
            assert(s@.take(i + 1).drop_last() =~= s@.take(i as int));
            assert(s@.take(i + 1).last() == c);
        }
        if ('0' <= c && c <= '9') || c == '-' {
            r.push(c);
        }
        i = i + 1;
    }
    assert(s@.take(i as int) =~= s@);
    r
}

/// The number of the first label that yields a value.
pub fn extract_number_of(html: &Vec<char>, labels: &Vec<&str>) -> (r: Option<i32>)
    ensures
        r == extract_number(html@, views(labels@)),
{
    match extract_field_of(html, labels) {
        Some(v) => {
            let digits = number_chars_of(&v);
            parse_i32_chars(&digits)
        },
        None => None,
    }
}

fn extract_text(html: &Vec<char>, labels: &Vec<&str>) -> (r: Option<String>)
    ensures
        opt_view(r) == extract_field(html@, views(labels@)),
{
    match extract_field_of(html, labels) {
        Some(v) => Some(string_of(&v)),
        None => None,
    }
}

// ─── The Transportstyrelsen page ─────────────────────────────────

/// A field of the registry page, found by any of several labels.
#[derive(Clone, Copy, Debug, PartialEq, Eq, Structural)]
pub enum PageField {
    Make,
    Model,
    Year,
    FuelType,
    Color,
    CurbWeight,
    GrossWeight,
    OwnerCount,
    Co2,
    EuroStandard,
    Tax,
    EnginePower,
    Displacement,
    FirstRegistration,
    InspectionResult,
    InspectionDate,
    InspectionMileage,
    InspectionNotes,
}

/// The labels that introduce a field, in the order they are tried.
pub open spec fn page_labels(f: PageField) -> Seq<Seq<char>> {
    match f {
        PageField::Make => seq!["Fabrikat"@, "Make"@, "Tillverkare"@],
        PageField::Model => seq!["Handelsbenämning"@, "Handelsbeteckning"@, "Model"@, "Modell"@],
        PageField::Year => seq!["Årsmodell"@, "Model year"@, "Arsmodell"@],
        PageField::FuelType => seq!["Drivmedel"@, "Fuel"@, "Bränsle"@],
        PageField::Color => seq!["Färg"@, "Color"@, "Kulör"@],
        PageField::CurbWeight => seq!["Tjänstevikt"@, "Curb weight"@, "Tjanstevikt"@],
        PageField::GrossWeight => seq!["Totalvikt"@, "Gross weight"@],
        PageField::OwnerCount => seq!["Antal ägare"@, "Number of owners"@, "Antal agare"@],
        PageField::Co2 => seq!["CO2"@, "Koldioxid"@],
        PageField::EuroStandard => seq!["Miljöklass"@, "Euro class"@, "Miljoklass"@],
        PageField::Tax => seq!["Fordonsskatt"@, "Vehicle tax"@, "Skatt"@],
        PageField::EnginePower => seq!["Motoreffekt"@, "Engine power"@, "Effekt"@],
        PageField::Displacement => seq!["Slagvolym"@, "Displacement"@, "Cylindervolym"@],
        PageField::FirstRegistration => seq!["Första registrering"@, "First registration"@, "Forsta registrering"@],
        PageField::InspectionResult => seq!["Besiktningsresultat"@, "Inspection result"@, "Senaste besiktning"@],
        PageField::InspectionDate => seq!["Besiktningsdatum"@, "Inspection date"@, "Senast godkänd"@],
        PageField::InspectionMileage => seq!["Mätarställning"@, "Odometer"@],
        PageField::InspectionNotes => seq!["Anmärkningar"@, "Remarks"@],
    }
}

pub fn page_label_list(f: PageField) -> (r: Vec<&'static str>)
    ensures
        views(r@) == page_labels(f),
{
    let r = match f {
        PageField::Make => vec!["Fabrikat", "Make", "Tillverkare"],
        PageField::Model => vec!["Handelsbenämning", "Handelsbeteckning", "Model", "Modell"],
        PageField::Year => vec!["Årsmodell", "Model year", "Arsmodell"],
        PageField::FuelType => vec!["Drivmedel", "Fuel", "Bränsle"],
        PageField::Color => vec!["Färg", "Color", "Kulör"],
        PageField::CurbWeight => vec!["Tjänstevikt", "Curb weight", "Tjanstevikt"],
        PageField::GrossWeight => vec!["Totalvikt", "Gross weight"],
        PageField::OwnerCount => vec!["Antal ägare", "Number of owners", "Antal agare"],
        PageField::Co2 => vec!["CO2", "Koldioxid"],
        PageField::EuroStandard => vec!["Miljöklass", "Euro class", "Miljoklass"],
        PageField::Tax => vec!["Fordonsskatt", "Vehicle tax", "Skatt"],
        PageField::EnginePower => vec!["Motoreffekt", "Engine power", "Effekt"],
        PageField::Displacement => vec!["Slagvolym", "Displacement", "Cylindervolym"],
        PageField::FirstRegistration => vec!["Första registrering", "First registration", "Forsta registrering"],
        PageField::InspectionResult => vec!["Besiktningsresultat", "Inspection result", "Senaste besiktning"],
        PageField::InspectionDate => vec!["Besiktningsdatum", "Inspection date", "Senast godkänd"],
        PageField::InspectionMileage => vec!["Mätarställning", "Odometer"],
        PageField::InspectionNotes => vec!["Anmärkningar", "Remarks"],
    };
    assert(views(r@) =~= page_labels(f));
    r
}

/// The text of a field of the page.
pub open spec fn page_text(html: Seq<char>, f: PageField) -> Option<Seq<char>> {
    extract_field(html, page_labels(f))
}

/// The number of a field of the page.
pub open spec fn page_number(html: Seq<char>, f: PageField) -> Option<i32> {
    extract_number(html, page_labels(f))
}

fn page_text_of(html: &Vec<char>, f: PageField) -> (r: Option<String>)
    ensures
        opt_view(r) == page_text(html@, f),
{
    extract_text(html, &page_label_list(f))
}

fn page_number_of(html: &Vec<char>, f: PageField) -> (r: Option<i32>)
    ensures
        r == page_number(html@, f),
{
    extract_number_of(html, &page_label_list(f))
}

/// Engine power as a source gives it.
#[derive(Clone, Copy, Debug, PartialEq, Eq, Structural)]
pub enum EnginePower {
    Kilowatts(i32),
    Horsepower(i32),
}

/// Engine displacement as a source gives it.
#[derive(Clone, Copy, Debug, PartialEq, Eq, Structural)]
pub enum Displacement {
    CubicCentimetres(i32),
    Litres(RealBits),
}

/// What Transportstyrelsen tells of a vehicle.
#[derive(Clone, Debug)]
pub struct TransportstyrelsenData {
    pub make: Option<String>,
    pub model: Option<String>,
    pub year: Option<i32>,
    pub fuel_type: Option<String>,
    pub color: Option<String>,
    pub curb_weight_kg: Option<i32>,
    pub gross_weight_kg: Option<i32>,
    pub owner_count: Option<i32>,
    pub co2_emission: Option<i32>,
    pub euro_standard: Option<String>,
    pub tax_per_year: Option<i32>,
    pub engine_power: Option<EnginePower>,
    pub engine_displacement: Option<Displacement>,
    pub first_registration: Option<String>,
    pub inspection_result: Option<String>,
    pub inspection_date: Option<String>,
    pub inspection_mileage: Option<i32>,
    pub inspection_notes: Option<String>,
}

impl TransportstyrelsenData {
    /// The data is what the page's labels introduce; power is read in
    /// kilowatts and displacement in cubic centimetres.
    pub open spec fn read_from_page(self, html: Seq<char>) -> bool {
        &&& opt_view(self.make) == page_text(html, PageField::Make)
        &&& opt_view(self.model) == page_text(html, PageField::Model)
        &&& self.year == page_number(html, PageField::Year)
        &&& opt_view(self.fuel_type) == page_text(html, PageField::FuelType)
        &&& opt_view(self.color) == page_text(html, PageField::Color)
        &&& self.curb_weight_kg == page_number(html, PageField::CurbWeight)
        &&& self.gross_weight_kg == page_number(html, PageField::GrossWeight)
        &&& self.owner_count == page_number(html, PageField::OwnerCount)
        &&& self.co2_emission == page_number(html, PageField::Co2)
        &&& opt_view(self.euro_standard) == page_text(html, PageField::EuroStandard)
        &&& self.tax_per_year == page_number(html, PageField::Tax)
        &&& self.engine_power == match page_number(html, PageField::EnginePower) {
            Some(kw) => Some(EnginePower::Kilowatts(kw)),
            None => None,
        }
        &&& self.engine_displacement == match page_number(html, PageField::Displacement) {
            Some(cc) => Some(Displacement::CubicCentimetres(cc)),
            None => None,
        }
        &&& opt_view(self.first_registration) == page_text(html, PageField::FirstRegistration)
        &&& opt_view(self.inspection_result) == page_text(html, PageField::InspectionResult)
        &&& opt_view(self.inspection_date) == page_text(html, PageField::InspectionDate)
        &&& self.inspection_mileage == page_number(html, PageField::InspectionMileage)
        &&& opt_view(self.inspection_notes) == page_text(html, PageField::InspectionNotes)
    }
}

/// Why vehicle data could not be had from a registry.
#[derive(Clone, Debug)]
pub enum FetchError {
    /// Biluppgifter answered with an error status.
    ApiStatus { status: String, body: String },
    /// Biluppgifter answered without vehicle data.
    NoData { plate: String },
    /// The Transportstyrelsen form answered with an error status.
    RegistryStatus { status: String },
    /// The Transportstyrelsen page says it knows no such vehicle.
    NotFound { plate: String },
    /// The Transportstyrelsen page names neither make nor model.
    Unparsable,
    /// Neither registry gave data.
    AllSourcesFailed { plate: String },
}

impl FetchError {
    pub open spec fn text(self) -> Seq<char> {
        match self {
            FetchError::ApiStatus { status, body } => "Biluppgifter API error "@ + status@ + ": "@
                + body@,
            FetchError::NoData { plate } => "No vehicle data returned for plate "@ + plate@,
            FetchError::RegistryStatus { status } => "Transportstyrelsen returned status "@
                + status@
                + ". The public lookup may be temporarily unavailable. Configure BILUPPGIFTER_API_KEY for reliable access."@,
            FetchError::NotFound { plate } => "No vehicle found for plate "@ + plate@
                + " on Transportstyrelsen"@,
            FetchError::Unparsable => "Could not parse vehicle data from Transportstyrelsen response"@,
            FetchError::AllSourcesFailed { plate } => "Could not fetch vehicle data for plate "@
                + plate@
                + ". Configure BILUPPGIFTER_API_KEY for reliable access, or check the plate number."@,
        }
    }

    /// The error's message.
    pub fn message(&self) -> (r: String)
        ensures
            r@ == self.text(),
    {
        match self {
            FetchError::ApiStatus { status, body } => {
                let mut r = String::from_str("Biluppgifter API error ");
                r.append(status.as_str());
                r.append(": ");
                r.append(body.as_str());
                r
            },
            FetchError::NoData { plate } => {
                let mut r = String::from_str("No vehicle data returned for plate ");
                r.append(plate.as_str());
                r
            },
            FetchError::RegistryStatus { status } => {
                let mut r = String::from_str("Transportstyrelsen returned status ");
                r.append(status.as_str());
                r.append(
                    ". The public lookup may be temporarily unavailable. Configure BILUPPGIFTER_API_KEY for reliable access.",
                );
                r
            },
            FetchError::NotFound { plate } => {
                let mut r = String::from_str("No vehicle found for plate ");
                r.append(plate.as_str());
                r.append(" on Transportstyrelsen");
                r
            },
            FetchError::Unparsable => String::from_str(
                "Could not parse vehicle data from Transportstyrelsen response",
            ),
            FetchError::AllSourcesFailed { plate } => {
                let mut r = String::from_str("Could not fetch vehicle data for plate ");
                r.append(plate.as_str());
                r.append(
                    ". Configure BILUPPGIFTER_API_KEY for reliable access, or check the plate number.",
                );
                r
            },
        }
    }
}

/// Reads the vehicle data from a Transportstyrelsen page. Fails when the page
/// names neither make nor model.
pub fn parse_transportstyrelsen_html(html: &str, _plate: &str) -> (r: Result<
    TransportstyrelsenData,
    FetchError,
>)
    ensures
        match r {
            Ok(data) => data.read_from_page(html@),
            Err(e) => e is Unparsable,
        },
        r is Err <==> (page_text(html@, PageField::Make) is None && page_text(
            html@,
            PageField::Model,
        ) is None),
{
    let h = chars_of(html);
    let make = page_text_of(&h, PageField::Make);
    let model = page_text_of(&h, PageField::Model);
    if make.is_none() && model.is_none() {
        return Err(FetchError::Unparsable);
    }
    let engine_power = match page_number_of(&h, PageField::EnginePower) {
        Some(kw) => Some(EnginePower::Kilowatts(kw)),
        None => None,
    };
    let engine_displacement = match page_number_of(&h, PageField::Displacement) {
        Some(cc) => Some(Displacement::CubicCentimetres(cc)),
        None => None,
    };
    Ok(
        TransportstyrelsenData {
            make,
            model,
            year: page_number_of(&h, PageField::Year),
            fuel_type: page_text_of(&h, PageField::FuelType),
            color: page_text_of(&h, PageField::Color),
            curb_weight_kg: page_number_of(&h, PageField::CurbWeight),
            gross_weight_kg: page_number_of(&h, PageField::GrossWeight),
            owner_count: page_number_of(&h, PageField::OwnerCount),
            co2_emission: page_number_of(&h, PageField::Co2),
            euro_standard: page_text_of(&h, PageField::EuroStandard),
            tax_per_year: page_number_of(&h, PageField::Tax),
            engine_power,
            engine_displacement,
            first_registration: page_text_of(&h, PageField::FirstRegistration),
            inspection_result: page_text_of(&h, PageField::InspectionResult),
            inspection_date: page_text_of(&h, PageField::InspectionDate),
            inspection_mileage: page_number_of(&h, PageField::InspectionMileage),
            inspection_notes: page_text_of(&h, PageField::InspectionNotes),
        },
    )
}

/// The page says there is no such vehicle: it is shorter than 200 bytes, or
/// says "Inga uppgifter" or "hittades inte".
pub open spec fn page_reports_no_vehicle(html: Seq<char>) -> bool {
    utf8_len(html) < 200 || contains(html, "Inga uppgifter"@) || contains(html, "hittades inte"@)
}

/// Reads the page that the Transportstyrelsen form answered with.
pub fn read_form_page(html: &str, plate: &str) -> (r: Result<TransportstyrelsenData, FetchError>)
    ensures
        page_reports_no_vehicle(html@) ==> (r matches Err(FetchError::NotFound { plate: p })
            && p@ == plate@),
        !page_reports_no_vehicle(html@) ==> match r {
            Ok(data) => data.read_from_page(html@),
            Err(e) => e is Unparsable && page_text(html@, PageField::Make) is None && page_text(
                html@,
                PageField::Model,
            ) is None,
        },
        r is Ok <==> (!page_reports_no_vehicle(html@) && (page_text(html@, PageField::Make) is Some
            || page_text(html@, PageField::Model) is Some)),
{
    let h = chars_of(html);
    let none_found = chars_of("Inga uppgifter");
    let not_found = chars_of("hittades inte");
    if utf8_shorter_than(&h, 200) || contains_chars(&h, &none_found) || contains_chars(
        &h,
        &not_found,
    ) {
        return Err(FetchError::NotFound { plate: String::from_str(plate) });
    }
    parse_transportstyrelsen_html(html, plate)
}

// ─── The Transportstyrelsen API answer ───────────────────────────

/// A member's value in a JSON object, as far as a registry answer is read.
#[derive(Clone, Debug)]
pub enum JsonScalar {
    Text(String),
    /// A number: `integer` when it is an integer within `i64`, `number` its
    /// value as a 64-bit float.
    Number { integer: Option<i64>, number: RealBits },
    Other,
}

/// The members of a JSON object, in the order of serde_json's map (sorted by
/// key, a repeated key kept once with its last value); a value that is not
/// an object has none.
#[derive(Clone, Debug)]
pub struct JsonObject {
    pub members: Vec<(String, JsonScalar)>,
}

/// The value of the first member named `key`.
pub open spec fn member(members: Seq<(String, JsonScalar)>, key: Seq<char>) -> Option<JsonScalar>
    decreases members.len(),
{
    if members.len() == 0 {
        None
    } else if members[0].0@ == key {
        Some(members[0].1)
    } else {
        member(members.drop_first(), key)
    }
}

/// The member `key` as a string.
pub open spec fn json_text(o: JsonObject, key: Seq<char>) -> Option<Seq<char>> {
    match member(o.members@, key) {
        Some(JsonScalar::Text(t)) => Some(t@),
        _ => None,
    }
}

/// The member `key` as an integer, cut to its low 32 bits.
pub open spec fn json_int(o: JsonObject, key: Seq<char>) -> Option<i32> {
    match member(o.members@, key) {
        Some(JsonScalar::Number { integer: Some(n), .. }) => Some(n as i32),
        _ => None,
    }
}

/// The member `key` as a float.
pub open spec fn json_real(o: JsonObject, key: Seq<char>) -> Option<RealBits> {
    match member(o.members@, key) {
        Some(JsonScalar::Number { number, .. }) => Some(number),
        _ => None,
    }
}

/// The first of two options that is present.
pub open spec fn either<T>(a: Option<T>, b: Option<T>) -> Option<T> {
    match a {
        Some(x) => Some(x),
        None => b,
    }
}

fn member_of(o: &JsonObject, key: &str) -> (r: Option<JsonScalar>)
    ensures
        r == member(o.members@, key@),
{
    let ghost m = o.members@;
    let k = String::from_str(key);
    let mut i: usize = 0;
    assert(m.skip(0) =~= m);
    while i < o.members.len()
        invariant
            i <= o.members.len(),
            m == o.members@,
            k@ == key@,
            member(m, key@) == member(m.skip(i as int), key@),
        decreases o.members.len() - i,
    {
        proof {
            assert(m.skip(i as int)[0] == m[i as int]);
            assert(m.skip(i as int).drop_first() =~= m.skip(i + 1));
        }
        if o.members[i].0 == k {
            let v = match &o.members[i].1 {
                JsonScalar::Text(t) => JsonScalar::Text(t.clone()),
                JsonScalar::Number { integer, number } => JsonScalar::Number {
                    integer: *integer,
                    number: *number,
                },
                JsonScalar::Other => JsonScalar::Other,
            };
            return Some(v);
        }
        i = i + 1;
    }
    assert(m.skip(i as int).len() == 0);
    None
}

fn json_text_of(o: &JsonObject, key: &str) -> (r: Option<String>)
    ensures
        opt_view(r) == json_text(*o, key@),
{
    match member_of(o, key) {
        Some(JsonScalar::Text(t)) => Some(t),
        _ => None,
    }
}

fn json_int_of(o: &JsonObject, key: &str) -> (r: Option<i32>)
    ensures
        r == json_int(*o, key@),
{
    match member_of(o, key) {
        Some(JsonScalar::Number { integer: Some(n), .. }) => Some(n as i32),
        _ => None,
    }
}

fn json_real_of(o: &JsonObject, key: &str) -> (r: Option<RealBits>)
    ensures
        r == json_real(*o, key@),
{
    match member_of(o, key) {
        Some(JsonScalar::Number { number, .. }) => Some(number),
        _ => None,
    }
}

fn first_text(a: Option<String>, b: Option<String>) -> (r: Option<String>)
    ensures
        opt_view(r) == either(opt_view(a), opt_view(b)),
{
    match a {
        Some(x) => Some(x),
        None => b,
    }
}

fn first_int(a: Option<i32>, b: Option<i32>) -> (r: Option<i32>)
    ensures
        r == either(a, b),
{
    match a {
        Some(x) => Some(x),
        None => b,
    }
}

impl TransportstyrelsenData {
    /// The data is what the API answer's members say, each field from its
    /// English name or else its Swedish one; power comes in horsepower and
    /// displacement in litres.
    pub open spec fn read_from_json(self, o: JsonObject) -> bool {
        &&& opt_view(self.make) == either(json_text(o, "make"@), json_text(o, "fabrikat"@))
        &&& opt_view(self.model) == either(
            json_text(o, "model"@),
            json_text(o, "handelsbenamning"@),
        )
        &&& self.year == either(json_int(o, "modelYear"@), json_int(o, "arsmodell"@))
        &&& opt_view(self.fuel_type) == either(
            json_text(o, "fuelType"@),
            json_text(o, "drivmedel"@),
        )
        &&& opt_view(self.color) == either(json_text(o, "color"@), json_text(o, "farg"@))
        &&& self.curb_weight_kg == either(json_int(o, "curbWeight"@), json_int(o, "tjanstevikt"@))
        &&& self.gross_weight_kg == either(json_int(o, "grossWeight"@), json_int(o, "totalvikt"@))
        &&& self.owner_count == json_int(o, "numberOfOwners"@)
        &&& self.co2_emission == json_int(o, "co2"@)
        &&& opt_view(self.euro_standard) == either(
            json_text(o, "euroClass"@),
            json_text(o, "miljoklass"@),
        )
        &&& self.tax_per_year == either(json_int(o, "annualTax"@), json_int(o, "fordonsskatt"@))
        &&& self.engine_power == match json_int(o, "enginePower"@) {
            Some(hp) => Some(EnginePower::Horsepower(hp)),
            None => None,
        }
        &&& self.engine_displacement == match json_real(o, "engineDisplacement"@) {
            Some(l) => Some(Displacement::Litres(l)),
            None => None,
        }
        &&& opt_view(self.first_registration) == json_text(o, "firstRegistrationDate"@)
        &&& opt_view(self.inspection_result) == json_text(o, "inspectionResult"@)
        &&& opt_view(self.inspection_date) == json_text(o, "lastInspectionDate"@)
        &&& self.inspection_mileage == json_int(o, "inspectionOdometer"@)
        &&& opt_view(self.inspection_notes) == json_text(o, "inspectionNotes"@)
    }
}

/// Reads the vehicle data from a Transportstyrelsen API answer.
pub fn parse_json_response(data: &JsonObject, _plate: &str) -> (r: TransportstyrelsenData)
    ensures
        r.read_from_json(*data),
{
    let engine_power = match json_int_of(data, "enginePower") {
        Some(hp) => Some(EnginePower::Horsepower(hp)),
        None => None,
    };
    let engine_displacement = match json_real_of(data, "engineDisplacement") {
        Some(l) => Some(Displacement::Litres(l)),
        None => None,
    };
    TransportstyrelsenData {
        make: first_text(json_text_of(data, "make"), json_text_of(data, "fabrikat")),
        model: first_text(json_text_of(data, "model"), json_text_of(data, "handelsbenamning")),
        year: first_int(json_int_of(data, "modelYear"), json_int_of(data, "arsmodell")),
        fuel_type: first_text(json_text_of(data, "fuelType"), json_text_of(data, "drivmedel")),
        color: first_text(json_text_of(data, "color"), json_text_of(data, "farg")),
        curb_weight_kg: first_int(json_int_of(data, "curbWeight"), json_int_of(data, "tjanstevikt")),
        gross_weight_kg: first_int(
            json_int_of(data, "grossWeight"),
            json_int_of(data, "totalvikt"),
        ),
        owner_count: json_int_of(data, "numberOfOwners"),
        co2_emission: json_int_of(data, "co2"),
        euro_standard: first_text(json_text_of(data, "euroClass"), json_text_of(data, "miljoklass")),
        tax_per_year: first_int(json_int_of(data, "annualTax"), json_int_of(data, "fordonsskatt")),
        engine_power,
        engine_displacement,
        first_registration: json_text_of(data, "firstRegistrationDate"),
        inspection_result: json_text_of(data, "inspectionResult"),
        inspection_date: json_text_of(data, "lastInspectionDate"),
        inspection_mileage: json_int_of(data, "inspectionOdometer"),
        inspection_notes: json_text_of(data, "inspectionNotes"),
    }
}

/// Reads the body of a successful answer of the Transportstyrelsen API: as
/// JSON when it is JSON (`json` holds its object), else as a page.
pub fn read_api_body(body: &str, json: &Option<JsonObject>, plate: &str) -> (r: Result<
    TransportstyrelsenData,
    FetchError,
>)
    ensures
        match json {
            Some(o) => r matches Ok(data) && data.read_from_json(*o),
            None => match r {
                Ok(data) => data.read_from_page(body@),
                Err(e) => e is Unparsable && page_text(body@, PageField::Make) is None
                    && page_text(body@, PageField::Model) is None,
            },
        },
        json is None ==> (r is Ok <==> (page_text(body@, PageField::Make) is Some || page_text(
            body@,
            PageField::Model,
        ) is Some)),
{
    match json {
        Some(o) => Ok(parse_json_response(o, plate)),
        None => parse_transportstyrelsen_html(body, plate),
    }
}

/// What serde_json reads of a text: the members of the JSON object that the
/// text holds, `None` when the text is not JSON. It depends on the text alone.
pub uninterp spec fn json_of_text(body: Seq<char>) -> Option<JsonObject>;

/// serde_json's `from_str` into a `serde_json::Value`, with the value's
/// top-level members turned into a `JsonObject` one for one: strings as
/// text, numbers as their `as_i64` and the bits of their `as_f64`, anything
/// else as other. The contract claims only that the result is the name
/// `json_of_text` of the text.
#[verifier::external_body]
pub fn parse_json_object(body: &str) -> (r: Option<JsonObject>)
    ensures
        r == json_of_text(body@),
{
    let members = match serde_json::from_str::<serde_json::Value>(body).ok()? {
        serde_json::Value::Object(map) => map.into_iter().map(|(k, v)| (k, match v {
            serde_json::Value::String(t) => JsonScalar::Text(t),
            serde_json::Value::Number(n) => JsonScalar::Number {
                integer: n.as_i64(),
                number: RealBits { bits: n.as_f64().unwrap_or_default().to_bits() },
            },
            _ => JsonScalar::Other,
        })).collect(),
        _ => Vec::new(),
    };
    Some(JsonObject { members })
}

/// Reads the body of a successful answer of the Transportstyrelsen API: as
/// JSON when it parses as JSON, else as a page.
pub fn read_api_answer(body: &str, plate: &str) -> (r: Result<TransportstyrelsenData, FetchError>)
    ensures
        match json_of_text(body@) {
            Some(o) => r matches Ok(data) && data.read_from_json(o),
            None => match r {
                Ok(data) => data.read_from_page(body@),
                Err(e) => e is Unparsable && page_text(body@, PageField::Make) is None
                    && page_text(body@, PageField::Model) is None,
            },
        },
        json_of_text(body@) is None ==> (r is Ok <==> (page_text(body@, PageField::Make) is Some
            || page_text(body@, PageField::Model) is Some)),
{
    let json = parse_json_object(body);
    read_api_body(body, &json, plate)
}

// ─── Biluppgifter.se ─────────────────────────────────────────────

#[derive(Clone, Debug)]
pub struct BiluppgifterResponse {
    pub data: Option<BiluppgifterVehicle>,
}

/// A vehicle as Biluppgifter describes it; power in kilowatts, displacement
/// in cubic centimetres, lengths in millimetres.
#[derive(Clone, Debug)]
pub struct BiluppgifterVehicle {
    pub reg_no: Option<String>,
    pub vin: Option<String>,
    pub make: Option<String>,
    pub model: Option<String>,
    pub model_name: Option<String>,
    pub model_year: Option<i32>,
    pub color: Option<String>,
    pub vehicle_type: Option<String>,
    pub body_type: Option<String>,
    pub fuel: Option<String>,
    pub fuel_type: Option<String>,
    pub engine_power: Option<i32>,
    pub engine_displacement: Option<i32>,
    pub gearbox: Option<String>,
    pub number_of_gears: Option<i32>,
    pub drivetrain: Option<String>,
    pub four_wheel_drive: Option<bool>,
    pub seats: Option<i32>,
    pub curb_weight: Option<i32>,
    pub gross_weight: Option<i32>,
    pub length: Option<i32>,
    pub width: Option<i32>,
    pub height: Option<i32>,
    pub co2: Option<i32>,
    pub euro_class: Option<String>,
    pub imported: Option<bool>,
    pub first_registration_date: Option<String>,
    pub country_of_origin: Option<String>,
    pub number_of_owners: Option<i32>,
    pub annual_tax: Option<i32>,
    pub status: Option<String>,
    pub inspection: Option<BiluppgifterInspection>,
    pub inspections: Option<Vec<BiluppgifterInspectionItem>>,
    pub recalls: Option<Vec<BiluppgifterRecall>>,
    pub theft: Option<BiluppgifterTheft>,
}

#[derive(Clone, Debug)]
pub struct BiluppgifterInspection {
    pub latest_inspection: Option<String>,
    pub result: Option<String>,
    pub valid_until: Option<String>,
    pub odometer: Option<i32>,
}

#[derive(Clone, Debug)]
pub struct BiluppgifterInspectionItem {
    pub date: Option<String>,
    pub result: Option<String>,
    pub odometer: Option<i32>,
    pub notes: Option<String>,
}

#[derive(Clone, Debug)]
pub struct BiluppgifterRecall {
    pub description: Option<String>,
    pub severity: Option<String>,
    pub fix_available: Option<bool>,
}

#[derive(Clone, Debug)]
pub struct BiluppgifterTheft {
    pub stolen: Option<bool>,
    pub date: Option<String>,
}

/// The vehicle data of a Biluppgifter answer; an answer without data is an
/// error that names the plate.
pub fn vehicle_of_response(response: BiluppgifterResponse, plate: &str) -> (r: Result<
    BiluppgifterVehicle,
    FetchError,
>)
    ensures
        match response.data {
            Some(v) => r == Ok::<BiluppgifterVehicle, FetchError>(v),
            None => r matches Err(FetchError::NoData { plate: p }) && p@ == plate@,
        },
{
    match response.data {
        Some(v) => Ok(v),
        None => Err(FetchError::NoData { plate: String::from_str(plate) }),
    }
}

/// Address of a plate's record at Biluppgifter: `{base}/vehicle/regno/{plate}`.
pub fn biluppgifter_url(base_url: &str, plate: &str) -> (r: String)
    ensures
        r@ == base_url@ + "/vehicle/regno/"@ + plate@,
{
    let mut r = String::from_str(base_url);
    r.append("/vehicle/regno/");
    r.append(plate);
    r
}

/// The value of an `Authorization` header that carries `token`.
pub fn bearer(token: &str) -> (r: String)
    ensures
        r@ == "Bearer "@ + token@,
{
    let mut r = String::from_str("Bearer ");
    r.append(token);
    r
}

// ─── What to store ───────────────────────────────────────────────

/// The registry that vehicle data came from.
#[derive(Clone, Copy, Debug, PartialEq, Eq, Structural)]
pub enum DataSource {
    Biluppgifter,
    Transportstyrelsen,
}

/// The vehicle row to write; the database keeps a stored value where the
/// new one is missing.
#[derive(Clone, Debug)]
pub struct VehicleRecord {
    pub plate: String,
    pub vin: Option<String>,
    pub make: Option<String>,
    pub model: Option<String>,
    pub variant: Option<String>,
    pub year: Option<i32>,
    pub body_type: Option<String>,
    pub fuel_type: Option<String>,
    pub engine_displacement: Option<Displacement>,
    pub engine_power: Option<EnginePower>,
    pub gearbox_type: Option<String>,
    pub gearbox_gears: Option<i32>,
    pub drivetrain_type: Option<String>,
    pub is_4x4: bool,
    pub curb_weight_kg: Option<i32>,
    pub gross_weight_kg: Option<i32>,
    pub length_mm: Option<i32>,
    pub width_mm: Option<i32>,
    pub height_mm: Option<i32>,
    pub seats: Option<i32>,
    pub color: Option<String>,
    pub imported: bool,
    pub first_registration: Option<String>,
    pub country_origin: Option<String>,
    pub owner_count: Option<i32>,
    pub mileage_latest: Option<i32>,
    pub tax_per_year: Option<i32>,
    pub co2_emission: Option<i32>,
    pub euro_standard: Option<String>,
}

/// An inspection row to write, unless one like it is stored.
#[derive(Clone, Debug)]
pub struct InspectionRecord {
    pub plate: String,
    pub date: Option<String>,
    pub mileage_km: Option<i32>,
    pub result: Option<String>,
    pub notes: Option<String>,
}

/// A recall row to write, unless one like it is stored.
#[derive(Clone, Debug)]
pub struct RecallRecord {
    pub vin: String,
    pub source: String,
    pub description: Option<String>,
    pub severity: Option<String>,
    pub fix_available: bool,
}

/// What a fetch from a registry found.
#[derive(Clone, Debug)]
pub struct FetchResult {
    pub source: String,
    pub plate: String,
    pub found: bool,
    pub stolen: bool,
}

/// Everything that a fetch writes, and what it answers.
#[derive(Clone, Debug)]
pub struct StoragePlan {
    pub source: DataSource,
    pub vehicle: VehicleRecord,
    pub inspections: Vec<InspectionRecord>,
    pub recalls: Vec<RecallRecord>,
    pub outcome: FetchResult,
}

pub open spec fn or_false(b: Option<bool>) -> bool {
    match b {
        Some(b) => b,
        None => false,
    }
}

fn bool_or_false(b: Option<bool>) -> (r: bool)
    ensures
        r == or_false(b),
{
    match b {
        Some(b) => b,
        None => false,
    }
}

fn copy_opt(s: &Option<String>) -> (r: Option<String>)
    ensures
        r == *s,
{
    match s {
        Some(t) => Some(t.clone()),
        None => None,
    }
}

pub open spec fn first_of(a: Option<String>, b: Option<String>) -> Option<String> {
    match a {
        Some(x) => Some(x),
        None => b,
    }
}

impl InspectionRecord {
    pub open spec fn from_item(self, plate: Seq<char>, item: BiluppgifterInspectionItem) -> bool {
        &&& self.plate@ == plate
        &&& self.date == item.date
        &&& self.mileage_km == item.odometer
        &&& self.result == item.result
        &&& self.notes == item.notes
    }
}

impl RecallRecord {
    pub open spec fn from_recall(self, vin: String, recall: BiluppgifterRecall) -> bool {
        &&& self.vin == vin
        &&& self.source@ == "biluppgifter.se"@
        &&& self.description == recall.description
        &&& self.severity == recall.severity
        &&& self.fix_available == or_false(recall.fix_available)
    }
}

impl StoragePlan {
    /// The plan for Biluppgifter data: the vehicle with the model name (else
    /// the model), the fuel type (else the fuel), the odometer of the latest
    /// inspection as mileage; every listed inspection; every recall when the
    /// vehicle has a VIN; the vehicle found, stolen when the theft record says so.
    pub open spec fn stores_biluppgifter(self, plate: Seq<char>, data: BiluppgifterVehicle) -> bool {
        let v = self.vehicle;
        &&& self.source == DataSource::Biluppgifter
        &&& v.plate@ == plate
        &&& v.vin == data.vin
        &&& v.make == data.make
        &&& v.model == first_of(data.model_name, data.model)
        &&& v.variant is None
        &&& v.year == data.model_year
        &&& v.body_type == data.body_type
        &&& v.fuel_type == first_of(data.fuel_type, data.fuel)
        &&& v.engine_displacement == match data.engine_displacement {
            Some(cc) => Some(Displacement::CubicCentimetres(cc)),
            None => None,
        }
        &&& v.engine_power == match data.engine_power {
            Some(kw) => Some(EnginePower::Kilowatts(kw)),
            None => None,
        }
        &&& v.gearbox_type == data.gearbox
        &&& v.gearbox_gears == data.number_of_gears
        &&& v.drivetrain_type == data.drivetrain
        &&& v.is_4x4 == or_false(data.four_wheel_drive)
        &&& v.curb_weight_kg == data.curb_weight
        &&& v.gross_weight_kg == data.gross_weight
        &&& v.length_mm == data.length
        &&& v.width_mm == data.width
        &&& v.height_mm == data.height
        &&& v.seats == data.seats
        &&& v.color == data.color
        &&& v.imported == or_false(data.imported)
        &&& v.first_registration == data.first_registration_date
        &&& v.country_origin == data.country_of_origin
        &&& v.owner_count == data.number_of_owners
        &&& v.mileage_latest == match data.inspection {
            Some(i) => i.odometer,
            None => None,
        }
        &&& v.tax_per_year == data.annual_tax
        &&& v.co2_emission == data.co2
        &&& v.euro_standard == data.euro_class
        &&& match data.inspections {
            Some(items) => {
                &&& self.inspections@.len() == items@.len()
                &&& forall|i: int|
                    0 <= i < items@.len() ==> #[trigger] self.inspections@[i].from_item(
                        plate,
                        items@[i],
                    )
            },
            None => self.inspections@.len() == 0,
        }
        &&& match (data.recalls, data.vin) {
            (Some(recalls), Some(vin)) => {
                &&& self.recalls@.len() == recalls@.len()
                &&& forall|i: int|
                    0 <= i < recalls@.len() ==> #[trigger] self.recalls@[i].from_recall(
                        vin,
                        recalls@[i],
                    )
            },
            _ => self.recalls@.len() == 0,
        }
        &&& self.outcome.source@ == "biluppgifter.se"@
        &&& self.outcome.plate@ == plate
        &&& self.outcome.found
        &&& self.outcome.stolen == match data.theft {
            Some(t) => or_false(t.stolen),
            None => false,
        }
    }

    /// The plan for Transportstyrelsen data: the vehicle's page fields; the
    /// inspection when the page gives both its result and its date; the
    /// vehicle found and not reported stolen.
    pub open spec fn stores_transportstyrelsen(
        self,
        plate: Seq<char>,
        data: TransportstyrelsenData,
    ) -> bool {
        let v = self.vehicle;
        &&& self.source == DataSource::Transportstyrelsen
        &&& v.plate@ == plate
        &&& v.vin is None
        &&& v.make == data.make
        &&& v.model == data.model
        &&& v.variant is None
        &&& v.year == data.year
        &&& v.body_type is None
        &&& v.fuel_type == data.fuel_type
        &&& v.engine_displacement == data.engine_displacement
        &&& v.engine_power == data.engine_power
        &&& v.gearbox_type is None
        &&& v.gearbox_gears is None
        &&& v.drivetrain_type is None
        &&& !v.is_4x4
        &&& v.curb_weight_kg == data.curb_weight_kg
        &&& v.gross_weight_kg == data.gross_weight_kg
        &&& v.length_mm is None
        &&& v.width_mm is None
        &&& v.height_mm is None
        &&& v.seats is None
        &&& v.color == data.color
        &&& !v.imported
        &&& v.first_registration == data.first_registration
        &&& v.country_origin is None
        &&& v.owner_count == data.owner_count
        &&& v.mileage_latest is None
        &&& v.tax_per_year == data.tax_per_year
        &&& v.co2_emission == data.co2_emission
        &&& v.euro_standard == data.euro_standard
        &&& if data.inspection_result is Some && data.inspection_date is Some {
            &&& self.inspections@.len() == 1
            &&& self.inspections@[0].plate@ == plate
            &&& self.inspections@[0].date == data.inspection_date
            &&& self.inspections@[0].mileage_km == data.inspection_mileage
            &&& self.inspections@[0].result == data.inspection_result
            &&& self.inspections@[0].notes == data.inspection_notes
        } else {
            self.inspections@.len() == 0
        }
        &&& self.recalls@.len() == 0
        &&& self.outcome.source@ == "transportstyrelsen.se"@
        &&& self.outcome.plate@ == plate
        &&& self.outcome.found
        &&& !self.outcome.stolen
    }
}

/// What to store of the data that Biluppgifter gave for `plate`.
pub fn biluppgifter_storage(plate: &str, data: &BiluppgifterVehicle) -> (plan: StoragePlan)
    ensures
        plan.stores_biluppgifter(plate@, *data),
{
    let vehicle = VehicleRecord {
        plate: String::from_str(plate),
        vin: copy_opt(&data.vin),
        make: copy_opt(&data.make),
        model: match &data.model_name {
            Some(m) => Some(m.clone()),
            None => copy_opt(&data.model),
        },
        variant: None,
        year: data.model_year,
        body_type: copy_opt(&data.body_type),
        fuel_type: match &data.fuel_type {
            Some(f) => Some(f.clone()),
            None => copy_opt(&data.fuel),
        },
        engine_displacement: match data.engine_displacement {
            Some(cc) => Some(Displacement::CubicCentimetres(cc)),
            None => None,
        },
        engine_power: match data.engine_power {
            Some(kw) => Some(EnginePower::Kilowatts(kw)),
            None => None,
        },
        gearbox_type: copy_opt(&data.gearbox),
        gearbox_gears: data.number_of_gears,
        drivetrain_type: copy_opt(&data.drivetrain),
        is_4x4: bool_or_false(data.four_wheel_drive),
        curb_weight_kg: data.curb_weight,
        gross_weight_kg: data.gross_weight,
        length_mm: data.length,
        width_mm: data.width,
        height_mm: data.height,
        seats: data.seats,
        color: copy_opt(&data.color),
        imported: bool_or_false(data.imported),
        first_registration: copy_opt(&data.first_registration_date),
        country_origin: copy_opt(&data.country_of_origin),
        owner_count: data.number_of_owners,
        mileage_latest: match &data.inspection {
            Some(i) => i.odometer,
            None => None,
        },
        tax_per_year: data.annual_tax,
        co2_emission: data.co2,
        euro_standard: copy_opt(&data.euro_class),
    };
    let mut inspections: Vec<InspectionRecord> = Vec::new();
    match &data.inspections {
        Some(items) => {
            let mut i: usize = 0;
            while i < items.len()
                invariant
                    i <= items.len(),
                    inspections@.len() == i,
                    forall|k: int|
                        0 <= k < i ==> #[trigger] inspections@[k].from_item(plate@, items@[k]),
                decreases items.len() - i,
            {
                let item = &items[i];
                inspections.push(
                    InspectionRecord {
                        plate: String::from_str(plate),
                        date: copy_opt(&item.date),
                        mileage_km: item.odometer,
                        result: copy_opt(&item.result),
                        notes: copy_opt(&item.notes),
                    },
                );
                i = i + 1;
            }
        },
        None => {},
    }
    let mut recalls: Vec<RecallRecord> = Vec::new();
    match (&data.recalls, &data.vin) {
        (Some(list), Some(vin)) => {
            let mut i: usize = 0;
            while i < list.len()
                invariant
                    i <= list.len(),
                    recalls@.len() == i,
                    forall|k: int| 0 <= k < i ==> #[trigger] recalls@[k].from_recall(*vin, list@[k]),
                decreases list.len() - i,
            {
                let recall = &list[i];
                recalls.push(
                    RecallRecord {
                        vin: vin.clone(),
                        source: String::from_str("biluppgifter.se"),
                        description: copy_opt(&recall.description),
                        severity: copy_opt(&recall.severity),
                        fix_available: bool_or_false(recall.fix_available),
                    },
                );
                i = i + 1;
            }
        },
        _ => {},
    }
    let stolen = match &data.theft {
        Some(t) => bool_or_false(t.stolen),
        None => false,
    };
    StoragePlan {
        source: DataSource::Biluppgifter,
        vehicle,
        inspections,
        recalls,
        outcome: FetchResult {
            source: String::from_str("biluppgifter.se"),
            plate: String::from_str(plate),
            found: true,
            stolen,
        },
    }
}

/// What to store of the data that Transportstyrelsen gave for `plate`.
pub fn transportstyrelsen_storage(plate: &str, data: &TransportstyrelsenData) -> (plan: StoragePlan)
    ensures
        plan.stores_transportstyrelsen(plate@, *data),
{
    let vehicle = VehicleRecord {
        plate: String::from_str(plate),
        vin: None,
        make: copy_opt(&data.make),
        model: copy_opt(&data.model),
        variant: None,
        year: data.year,
        body_type: None,
        fuel_type: copy_opt(&data.fuel_type),
        engine_displacement: data.engine_displacement,
        engine_power: data.engine_power,
        gearbox_type: None,
        gearbox_gears: None,
        drivetrain_type: None,
        is_4x4: false,
        curb_weight_kg: data.curb_weight_kg,
        gross_weight_kg: data.gross_weight_kg,
        length_mm: None,
        width_mm: None,
        height_mm: None,
        seats: None,
        color: copy_opt(&data.color),
        imported: false,
        first_registration: copy_opt(&data.first_registration),
        country_origin: None,
        owner_count: data.owner_count,
        mileage_latest: None,
        tax_per_year: data.tax_per_year,
        co2_emission: data.co2_emission,
        euro_standard: copy_opt(&data.euro_standard),
    };
    let mut inspections: Vec<InspectionRecord> = Vec::new();
    if data.inspection_result.is_some() && data.inspection_date.is_some() {
        inspections.push(
            InspectionRecord {
                plate: String::from_str(plate),
                date: copy_opt(&data.inspection_date),
                mileage_km: data.inspection_mileage,
                result: copy_opt(&data.inspection_result),
                notes: copy_opt(&data.inspection_notes),
            },
        );
    }
    StoragePlan {
        source: DataSource::Transportstyrelsen,
        vehicle,
        inspections,
        recalls: Vec::new(),
        outcome: FetchResult {
            source: String::from_str("transportstyrelsen.se"),
            plate: String::from_str(plate),
            found: true,
            stolen: false,
        },
    }
}

/// The cell that follows a label wins: when the text after the label's first
/// occurrence gives a value after its next `>`, that value is the label's,
/// whatever colons come later; a colon is read only when the next `>` gives
/// none, and a label that does not occur gives nothing.
pub proof fn lemma_tag_value_before_colon(html: Seq<char>, label: Seq<char>)
    ensures
        match find(html, label) {
            Some(pos) => {
                let after = html.skip((pos + label.len()) as int);
                &&& value_after_mark(after, '>') is Some ==> value_at_label(html, label)
                    == value_after_mark(after, '>')
                &&& value_after_mark(after, '>') is None ==> value_at_label(html, label)
                    == value_after_mark(after, ':')
            },
            None => value_at_label(html, label) is None,
        },
{
}

/// A recall written for Biluppgifter data keeps the recall's own fix flag:
/// fixed only when the recall says it is fixed; open when it says it is not
/// or says nothing.
pub proof fn lemma_stored_recall_fix_flag(
    plan: StoragePlan,
    plate: Seq<char>,
    data: BiluppgifterVehicle,
    i: int,
)
    requires
        plan.stores_biluppgifter(plate, data),
        data.recalls is Some,
        data.vin is Some,
        0 <= i < data.recalls->0@.len(),
    ensures
        plan.recalls@[i].fix_available <==> data.recalls->0@[i].fix_available == Some(true),
        plan.recalls@[i].vin == data.vin->0,
        plan.recalls@[i].description == data.recalls->0@[i].description,
        plan.recalls@[i].severity == data.recalls->0@[i].severity,
{
    assert(plan.recalls@[i].from_recall(data.vin->0, data.recalls->0@[i]));
}

/// The curb weight of an API answer comes from its integer member
/// "curbWeight", else "tjanstevikt"; the gross weight from "grossWeight",
/// else "totalvikt". Neither is read from the other's members.
pub proof fn lemma_json_weights(d: TransportstyrelsenData, o: JsonObject)
    requires
        d.read_from_json(o),
    ensures
        match member(o.members@, "curbWeight"@) {
            Some(JsonScalar::Number { integer: Some(n), .. }) => d.curb_weight_kg == Some(n as i32),
            _ => match member(o.members@, "tjanstevikt"@) {
                Some(JsonScalar::Number { integer: Some(n), .. }) => d.curb_weight_kg == Some(
                    n as i32,
                ),
                _ => d.curb_weight_kg is None,
            },
        },
        match member(o.members@, "grossWeight"@) {
            Some(JsonScalar::Number { integer: Some(n), .. }) => d.gross_weight_kg == Some(n as i32),
            _ => match member(o.members@, "totalvikt"@) {
                Some(JsonScalar::Number { integer: Some(n), .. }) => d.gross_weight_kg == Some(
                    n as i32,
                ),
                _ => d.gross_weight_kg is None,
            },
        },
{
}

/// Two API answers that agree on the members "curbWeight" and "tjanstevikt"
/// give the same curb weight, whatever their other members hold.
pub proof fn lemma_json_curb_weight_own_keys(
    d1: TransportstyrelsenData,
    o1: JsonObject,
    d2: TransportstyrelsenData,
    o2: JsonObject,
)
    requires
        d1.read_from_json(o1),
        d2.read_from_json(o2),
        member(o1.members@, "curbWeight"@) == member(o2.members@, "curbWeight"@),
        member(o1.members@, "tjanstevikt"@) == member(o2.members@, "tjanstevikt"@),
    ensures
        d1.curb_weight_kg == d2.curb_weight_kg,
{
}

// ─── Fetching a vehicle ──────────────────────────────────────────

/// What `str::to_uppercase` returns: every character replaced by its full
/// Unicode uppercase mapping.
pub uninterp spec fn uppercase(s: Seq<char>) -> Seq<char>;

/// Every character of `s` is ASCII.
pub open spec fn is_ascii_text(s: Seq<char>) -> bool {
    forall|i: int| 0 <= i < s.len() ==> (#[trigger] s[i] as u32) < 128
}

/// The upper case of an ASCII character: `a` to `z` become `A` to `Z`, every
/// other character stays.
pub open spec fn ascii_upper(c: char) -> char {
    let n = c as u32;
    if 97 <= n && n <= 122 {
        (n - 32) as char
    } else {
        c
    }
}

/// Every character of `s` in ASCII upper case.
pub open spec fn ascii_upper_text(s: Seq<char>) -> Seq<char> {
    s.map_values(|c: char| ascii_upper(c))
}

/// std's `str::to_uppercase`. The contract claims that its result is the
/// upper-case mapping named `uppercase`, a function of the text alone, and
/// that on ASCII text that mapping turns `a` to `z` into `A` to `Z` and keeps
/// every other character; the mapping of other characters is left unsaid.
#[verifier::external_body]
pub fn to_uppercase(s: &str) -> (r: String)
    ensures
        r@ == uppercase(s@),
        is_ascii_text(s@) ==> r@ == ascii_upper_text(s@),
{
    s.to_uppercase()
}

/// The answer of the Transportstyrelsen API.
#[derive(Clone, Debug)]
pub enum ApiOutcome {
    /// The request failed or the answer's status was not a success.
    Failed,
    /// The answer was a success but its body could not be read.
    Unreadable,
    /// The body of a successful answer.
    Body { body: String },
}

/// The answer of the Transportstyrelsen form.
#[derive(Clone, Debug)]
pub struct FormAnswer {
    /// Whether the status is a success.
    pub success: bool,
    /// The status as text, such as `404 Not Found`.
    pub status: String,
    /// The page, when the status is a success.
    pub body: String,
}

/// What the form's answer gives: an error for an error status, else what
/// the page reads as.
pub fn read_form_answer(answer: &FormAnswer, plate: &str) -> (r: Result<
    TransportstyrelsenData,
    FetchError,
>)
    ensures
        !answer.success ==> (r matches Err(FetchError::RegistryStatus { status: s }) && s
            == answer.status),
        answer.success ==> (page_reports_no_vehicle(answer.body@) ==> (r matches Err(
            FetchError::NotFound { plate: p },
        ) && p@ == plate@)),
        answer.success && !page_reports_no_vehicle(answer.body@) ==> match r {
            Ok(data) => data.read_from_page(answer.body@),
            Err(e) => e is Unparsable && page_text(answer.body@, PageField::Make) is None
                && page_text(answer.body@, PageField::Model) is None,
        },
        r is Ok <==> (answer.success && !page_reports_no_vehicle(answer.body@) && (page_text(
            answer.body@,
            PageField::Make,
        ) is Some || page_text(answer.body@, PageField::Model) is Some)),
{
    if !answer.success {
        return Err(FetchError::RegistryStatus { status: answer.status.clone() });
    }
    read_form_page(answer.body.as_str(), plate)
}

/// The stages of fetching a vehicle from the registries and storing it.
#[derive(Debug)]
pub enum FetchStage {
    /// Waiting for Biluppgifter.
    Biluppgifter,
    /// Waiting for the Transportstyrelsen API.
    RegistryApi,
    /// Waiting for the Transportstyrelsen form.
    RegistryForm,
    /// Waiting for the plan to be written.
    Storing(StoragePlan),
    /// Finished.
    Done(Result<FetchResult, crate::services::ServiceError>),
}

/// What the outside world answered to the request of a stage.
#[derive(Debug)]
pub enum FetchEvent {
    /// The vehicle data of Biluppgifter, or `None` when the request failed.
    Biluppgifter(Option<BiluppgifterVehicle>),
    RegistryApi(ApiOutcome),
    /// The form's answer, or the message of a failed request.
    RegistryForm(Result<FormAnswer, String>),
    /// Whether the vehicle was written, or the message of the failure.
    Stored(Result<(), String>),
}

impl FetchStage {
    /// Requests left at most before the fetch is finished.
    pub open spec fn rank(self) -> nat {
        match self {
            FetchStage::Biluppgifter => 4,
            FetchStage::RegistryApi => 3,
            FetchStage::RegistryForm => 2,
            FetchStage::Storing(_) => 1,
            FetchStage::Done(_) => 0,
        }
    }

    /// The event answers the request of this stage.
    pub open spec fn accepts(self, event: FetchEvent) -> bool {
        match (self, event) {
            (FetchStage::Biluppgifter, FetchEvent::Biluppgifter(_)) => true,
            (FetchStage::RegistryApi, FetchEvent::RegistryApi(_)) => true,
            (FetchStage::RegistryForm, FetchEvent::RegistryForm(_)) => true,
            (FetchStage::Storing(_), FetchEvent::Stored(_)) => true,
            _ => false,
        }
    }
}

/// Whether the registry data read from a page or API answer is `data`.
pub open spec fn reads_api(body: Seq<char>, json: Option<JsonObject>, data: TransportstyrelsenData) -> bool {
    match json {
        Some(o) => data.read_from_json(o),
        None => data.read_from_page(body),
    }
}

/// Fetching a vehicle: Biluppgifter first when there is an API key, else or
/// on its failure Transportstyrelsen (its API, then its form); what a
/// registry gives is stored.
pub struct VehicleFetch {
    plate: String,
    stage: FetchStage,
}

impl VehicleFetch {
    #[verifier::type_invariant]
    spec fn finished_well(self) -> bool {
        match self.stage {
            FetchStage::Storing(plan) => plan.outcome.found && plan.outcome.plate@ == self.plate@,
            FetchStage::Done(Ok(r)) => r.found && r.plate@ == self.plate@,
            FetchStage::Done(Err(e)) => e is Io || (e matches crate::services::ServiceError::Fetch(
                FetchError::AllSourcesFailed { plate: p },
            ) && p@ == self.plate@),
            _ => true,
        }
    }

    pub closed spec fn plate_text(self) -> Seq<char> {
        self.plate@
    }

    pub closed spec fn stage_now(self) -> FetchStage {
        self.stage
    }

    /// The plate being fetched, upper-cased.
    pub fn plate(&self) -> (r: &String)
        ensures
            r@ == self.plate_text(),
    {
        &self.plate
    }

    pub fn stage(&self) -> (r: &FetchStage)
        ensures
            *r == self.stage_now(),
    {
        &self.stage
    }

    /// Starts fetching the vehicle with `plate`; Biluppgifter is asked only
    /// when its API key is set.
    pub fn start(plate: &str, api_key: &str) -> (f: VehicleFetch)
        ensures
            f.plate_text() == uppercase(plate@),
            is_ascii_text(plate@) ==> f.plate_text() == ascii_upper_text(plate@),
            api_key@.len() > 0 ==> f.stage_now() is Biluppgifter,
            api_key@.len() == 0 ==> f.stage_now() is RegistryApi,
    {
        let stage = if !api_key.is_empty() {
            FetchStage::Biluppgifter
        } else {
            FetchStage::RegistryApi
        };
        VehicleFetch { plate: to_uppercase(plate), stage }
    }

    /// The result, once finished: what the registry found, or the error.
    pub fn into_result(self) -> (r: Result<FetchResult, crate::services::ServiceError>)
        requires
            self.stage_now() is Done,
        ensures
            self.stage_now() == FetchStage::Done(r),
            r matches Ok(found) ==> found.found && found.plate@ == self.plate_text(),
    {
        proof {
            use_type_invariant(&self);
        }
        match self.stage {
            FetchStage::Done(r) => r,
            _ => {
                proof {
                    assert(false);
                }
                Err(crate::services::ServiceError::Io(String::new()))
            },
        }
    }

    fn give_up(plate: String) -> (f: VehicleFetch)
        ensures
            f.plate_text() == plate@,
            f.stage_now() matches FetchStage::Done(Err(crate::services::ServiceError::Fetch(
                FetchError::AllSourcesFailed { plate: p },
            ))) && p@ == plate@,
    {
        let p = plate.clone();
        VehicleFetch {
            plate,
            stage: FetchStage::Done(
                Err(crate::services::ServiceError::Fetch(FetchError::AllSourcesFailed { plate: p })),
            ),
        }
    }

    fn store_registry_data(plate: String, read: Result<TransportstyrelsenData, FetchError>) -> (f:
        VehicleFetch)
        ensures
            f.plate_text() == plate@,
            match read {
                Ok(data) => f.stage_now() matches FetchStage::Storing(plan)
                    && plan.stores_transportstyrelsen(plate@, data),
                Err(_) => f.stage_now() matches FetchStage::Done(
                    Err(crate::services::ServiceError::Fetch(FetchError::AllSourcesFailed { plate: p })),
                ) && p@ == plate@,
            },
    {
        match read {
            Ok(data) => {
                let plan = transportstyrelsen_storage(plate.as_str(), &data);
                VehicleFetch { plate, stage: FetchStage::Storing(plan) }
            },
            Err(_) => VehicleFetch::give_up(plate),
        }
    }

    /// Takes the answer to the current stage's request and moves on.
    pub fn step(self, event: FetchEvent) -> (next: VehicleFetch)
        requires
            self.stage_now().accepts(event),
        ensures
            next.plate_text() == self.plate_text(),
            next.stage_now().rank() < self.stage_now().rank(),
            match (self.stage_now(), event) {
                (FetchStage::Biluppgifter, FetchEvent::Biluppgifter(Some(data))) => next.stage_now()
                    matches FetchStage::Storing(plan) && plan.stores_biluppgifter(
                    self.plate_text(),
                    data,
                ),
                (FetchStage::Biluppgifter, FetchEvent::Biluppgifter(None)) => next.stage_now()
                    is RegistryApi,
                (FetchStage::RegistryApi, FetchEvent::RegistryApi(ApiOutcome::Failed)) => next.stage_now()
                    is RegistryForm,
                (FetchStage::RegistryApi, FetchEvent::RegistryApi(ApiOutcome::Body { body })) => {
                    if json_of_text(body@) is Some || page_text(body@, PageField::Make) is Some || page_text(
                        body@,
                        PageField::Model,
                    ) is Some {
                        next.stage_now() matches FetchStage::Storing(plan) && exists|
                            data: TransportstyrelsenData,
                        |
                            reads_api(body@, json_of_text(body@), data) && plan.stores_transportstyrelsen(
                                self.plate_text(),
                                data,
                            )
                    } else {
                        next.stage_now() matches FetchStage::Done(
                            Err(crate::services::ServiceError::Fetch(FetchError::AllSourcesFailed { plate: p })),
                        ) && p@ == self.plate_text()
                    }
                },
                (FetchStage::RegistryForm, FetchEvent::RegistryForm(Ok(answer))) => {
                    if answer.success && !page_reports_no_vehicle(answer.body@) && (page_text(
                        answer.body@,
                        PageField::Make,
                    ) is Some || page_text(answer.body@, PageField::Model) is Some) {
                        next.stage_now() matches FetchStage::Storing(plan) && exists|
                            data: TransportstyrelsenData,
                        |
                            data.read_from_page(answer.body@) && plan.stores_transportstyrelsen(
                                self.plate_text(),
                                data,
                            )
                    } else {
                        next.stage_now() matches FetchStage::Done(
                            Err(crate::services::ServiceError::Fetch(FetchError::AllSourcesFailed { plate: p })),
                        ) && p@ == self.plate_text()
                    }
                },
                (FetchStage::Storing(plan), FetchEvent::Stored(Ok(()))) => next.stage_now()
                    == FetchStage::Done(Ok(plan.outcome)),
                (FetchStage::Storing(_), FetchEvent::Stored(Err(m))) => next.stage_now()
                    matches FetchStage::Done(Err(crate::services::ServiceError::Io(e))) && e == m,
                _ => next.stage_now() matches FetchStage::Done(
                    Err(crate::services::ServiceError::Fetch(FetchError::AllSourcesFailed { plate: p })),
                ) && p@ == self.plate_text(),
            },
    {
        proof {
            use_type_invariant(&self);
        }
        let VehicleFetch { plate, stage } = self;
        match (stage, event) {
            (FetchStage::Biluppgifter, FetchEvent::Biluppgifter(Some(data))) => {
                let plan = biluppgifter_storage(plate.as_str(), &data);
                VehicleFetch { plate, stage: FetchStage::Storing(plan) }
            },
            (FetchStage::Biluppgifter, FetchEvent::Biluppgifter(None)) => {
                VehicleFetch { plate, stage: FetchStage::RegistryApi }
            },
            (FetchStage::RegistryApi, FetchEvent::RegistryApi(outcome)) => {
                match outcome {
                    ApiOutcome::Failed => VehicleFetch { plate, stage: FetchStage::RegistryForm },
                    ApiOutcome::Unreadable => VehicleFetch::give_up(plate),
                    ApiOutcome::Body { body } => {
                        let read = read_api_answer(body.as_str(), plate.as_str());
                        let ghost seen = read;
                        let ghost p = plate@;
                        let next = VehicleFetch::store_registry_data(plate, read);
                        proof {
                            if let Ok(d) = seen {
                                assert(reads_api(body@, json_of_text(body@), d));
                                if let FetchStage::Storing(plan) = next.stage_now() {
                                    assert(plan.stores_transportstyrelsen(p, d));
                                }
                            }
                        }
                        next
                    },
                }
            },
            (FetchStage::RegistryForm, FetchEvent::RegistryForm(answer)) => {
                match answer {
                    Ok(a) => {
                        let read = read_form_answer(&a, plate.as_str());
                        let ghost seen = read;
                        let ghost p = plate@;
                        let next = VehicleFetch::store_registry_data(plate, read);
                        proof {
                            if let Ok(d) = seen {
                                assert(d.read_from_page(a.body@));
                                if let FetchStage::Storing(plan) = next.stage_now() {
                                    assert(plan.stores_transportstyrelsen(p, d));
                                }
                            }
                        }
                        next
                    },
                    Err(_) => VehicleFetch::give_up(plate),
                }
            },
            (FetchStage::Storing(plan), FetchEvent::Stored(written)) => {
                match written {
                    Ok(()) => VehicleFetch { plate, stage: FetchStage::Done(Ok(plan.outcome)) },
                    Err(m) => VehicleFetch {
                        plate,
                        stage: FetchStage::Done(Err(crate::services::ServiceError::Io(m))),
                    },
                }
            },
            (_, _) => {
                proof {
                    assert(false);
                }
                VehicleFetch::give_up(plate)
            },
        }
    }
}

} // verus!
