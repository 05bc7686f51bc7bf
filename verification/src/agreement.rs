//! The sections of a rental agreement, their Typst function calls, and the
//! assembly of the whole agreement document.
use vstd::prelude::*;
use vstd::string::StringExecFns;
use crate::eusign::{DocumentUnit, InternalPassport};
use crate::server_error::ServerError;
use crate::typst::{
    TypstTerm, TypstValue, TypstDateTime, TypstSerError, to_typst_string, typst_text,
    struct0, struct1, struct2, struct3, struct4,
    struct5, struct6, str_value, opt_str_term, opt_str_value, str_list_terms, str_list_value,
    terms_of, entry_terms_of, lemma_terms_of, lemma_entry_terms_of,
};

verus! {

/// The text of a Typst function call `#name(body)` on a line of its own.
pub open spec fn call_text(name: Seq<char>, t: TypstTerm) -> Seq<char> {
    "#"@ + name + typst_text(t) + "\n"@
}

fn call_string(name: &str, body: &str) -> (r: String)
    ensures
        r@ == "#"@ + name@ + body@ + "\n"@,
{
    let mut s = String::new();
    s.append("#");
    s.append(name);
    s.append(body);
    s.append("\n");
    s
}

/// A section of the agreement that is written as a call of the Typst
/// function of the same name, with the section's data as argument.
pub trait FunctionCall {
    /// The name of the Typst function.
    spec fn call_name(&self) -> Seq<char>;

    /// The data handed to the function.
    spec fn call_term(&self) -> TypstTerm;

    fn function_name(&self) -> (r: &'static str)
        ensures
            r@ == self.call_name(),
    ;

    fn to_typst(&self) -> (r: Result<String, TypstSerError>)
        ensures
            r matches Ok(t) && t@ == call_text(self.call_name(), self.call_term()),
    ;
}

/// The title: `#rental_agreement_title(rental_agreement_number: n)`.
pub struct RentalAgreementTitle {
    pub rental_agreement_number: u64,
}

impl RentalAgreementTitle {
    pub open spec fn typst_term(&self) -> TypstTerm {
        TypstTerm::Struct(
            seq![("rental_agreement_number"@, TypstTerm::Int(self.rental_agreement_number as int))],
        )
    }

    pub fn to_typst_value(&self) -> (v: TypstValue)
        ensures
            v.term() == self.typst_term(),
    {
        struct1("rental_agreement_number", TypstValue::Unsigned(self.rental_agreement_number))
    }
}

impl FunctionCall for RentalAgreementTitle {
    open spec fn call_name(&self) -> Seq<char> {
        "rental_agreement_title"@
    }

    open spec fn call_term(&self) -> TypstTerm {
        self.typst_term()
    }

    fn function_name(&self) -> (r: &'static str) {
        "rental_agreement_title"
    }

    fn to_typst(&self) -> (r: Result<String, TypstSerError>) {
        let body = to_typst_string(&self.to_typst_value())?;
        Ok(call_string(self.function_name(), body.as_str()))
    }
}

/// Where and when the agreement is made.
pub struct RentalAgreementPlaceAndDate {
    pub place: String,
    pub date: TypstDateTime,
}

impl RentalAgreementPlaceAndDate {
    pub open spec fn typst_term(&self) -> TypstTerm {
        TypstTerm::Struct(
            seq![("place"@, TypstTerm::Str(self.place@)), ("date"@, self.date.typst_term())],
        )
    }

    pub fn to_typst_value(&self) -> (v: TypstValue)
        ensures
            v.term() == self.typst_term(),
    {
        struct2("place", str_value(&self.place), "date", self.date.to_typst_value())
    }
}

impl FunctionCall for RentalAgreementPlaceAndDate {
    open spec fn call_name(&self) -> Seq<char> {
        "rental_agreement_place_and_date"@
    }

    open spec fn call_term(&self) -> TypstTerm {
        self.typst_term()
    }

    fn function_name(&self) -> (r: &'static str) {
        "rental_agreement_place_and_date"
    }

    fn to_typst(&self) -> (r: Result<String, TypstSerError>) {
        let body = to_typst_string(&self.to_typst_value())?;
        Ok(call_string(self.function_name(), body.as_str()))
    }
}

/// The terms of a list of numbers given by their decimal text.
pub open spec fn number_list_terms(items: Seq<String>) -> Seq<TypstTerm> {
    Seq::new(items.len(), |i: int| TypstTerm::Number(items[i]@))
}

/// A list value of numbers given by their decimal text.
pub fn number_list_value(items: &Vec<String>) -> (r: TypstValue)
    ensures
        r.term() == TypstTerm::List(number_list_terms(items@)),
{
    let mut out: Vec<TypstValue> = Vec::new();
    let mut i: usize = 0;
    while i < items.len()
        invariant
            i <= items@.len(),
            out@.len() == i,
            forall|j: int| 0 <= j < i ==> #[trigger] out@[j].term() == TypstTerm::Number(items@[j]@),
        decreases items@.len() - i,
    {
        out.push(TypstValue::Number(items[i].clone()));
        i = i + 1;
    }
    proof {
        lemma_terms_of(out@);
        assert(terms_of(out@) =~= number_list_terms(items@));
    }
    TypstValue::List(out)
}

/// The entries of the additional-property map: the name as a string key, the
/// price and count as the value.
pub open spec fn property_terms(props: Seq<(String, AdditionalPropertyValue)>) -> Seq<(TypstTerm, TypstTerm)> {
    Seq::new(props.len(), |i: int| (TypstTerm::Str(props[i].0@), props[i].1.typst_term()))
}

/// The additional-property map as a value.
pub fn property_value(props: &Vec<(String, AdditionalPropertyValue)>) -> (r: TypstValue)
    ensures
        r.term() == TypstTerm::Dict(property_terms(props@)),
{
    let mut out: Vec<(TypstValue, TypstValue)> = Vec::new();
    let mut i: usize = 0;
    while i < props.len()
        invariant
            i <= props@.len(),
            out@.len() == i,
            forall|j: int| 0 <= j < i ==> #[trigger] out@[j].0.term() == TypstTerm::Str(props@[j].0@)
                && out@[j].1.term() == props@[j].1.typst_term(),
        decreases props@.len() - i,
    {
        let entry = &props[i];
        out.push((str_value(&entry.0), entry.1.to_typst_value()));
        i = i + 1;
    }
    proof {
        lemma_entry_terms_of(out@);
        assert(entry_terms_of(out@) =~= property_terms(props@));
    }
    TypstValue::Dict(out)
}

/// The rented housing: its type, address and area.
pub struct RealEstateData {
    /// Serialized under the key `type`.
    pub kind: String,
    pub address: String,
    pub area: u64,
}

impl RealEstateData {
    pub open spec fn typst_term(&self) -> TypstTerm {
        TypstTerm::Struct(
            seq![
                ("type"@, TypstTerm::Str(self.kind@)),
                ("address"@, TypstTerm::Str(self.address@)),
                ("area"@, TypstTerm::Int(self.area as int)),
            ],
        )
    }

    pub fn to_typst_value(&self) -> (v: TypstValue)
        ensures
            v.term() == self.typst_term(),
    {
        struct3(
            "type", str_value(&self.kind),
            "address", str_value(&self.address),
            "area", TypstValue::Unsigned(self.area),
        )
    }
}

/// Readings of one meter. Each reading is held as the decimal text of the
/// floating-point value that was measured.
pub struct MeterReadingData {
    /// Serialized under the key `type`.
    pub kind: String,
    pub readings: Vec<String>,
}

impl MeterReadingData {
    pub open spec fn typst_term(&self) -> TypstTerm {
        TypstTerm::Struct(
            seq![
                ("type"@, TypstTerm::Str(self.kind@)),
                ("readings"@, TypstTerm::List(number_list_terms(self.readings@))),
            ],
        )
    }

    pub fn to_typst_value(&self) -> (v: TypstValue)
        ensures
            v.term() == self.typst_term(),
    {
        struct2("type", str_value(&self.kind), "readings", number_list_value(&self.readings))
    }
}

impl Default for MeterReadingData {
    /// A single-rate meter reading zero.
    fn default() -> (r: Self)
        ensures
            r.kind@ == "SingleRate"@,
            r.readings@.len() == 1,
            r.readings@[0]@ == "0"@,
    {
        let mut readings: Vec<String> = Vec::new();
        readings.push("0".to_string());
        MeterReadingData { kind: "SingleRate".to_string(), readings }
    }
}

impl Default for MeterReadings {
    /// Every meter single-rate and reading zero.
    fn default() -> (r: Self)
        ensures
            r.electricity.kind@ == "SingleRate"@ && r.electricity.readings@.len() == 1
                && r.electricity.readings@[0]@ == "0"@,
            r.water.kind@ == "SingleRate"@ && r.water.readings@.len() == 1 && r.water.readings@[0]@
                == "0"@,
            r.heating.kind@ == "SingleRate"@ && r.heating.readings@.len() == 1
                && r.heating.readings@[0]@ == "0"@,
            r.gas.kind@ == "SingleRate"@ && r.gas.readings@.len() == 1 && r.gas.readings@[0]@ == "0"@,
    {
        MeterReadings {
            electricity: MeterReadingData::default(),
            water: MeterReadingData::default(),
            heating: MeterReadingData::default(),
            gas: MeterReadingData::default(),
        }
    }
}

/// The readings of all meters of the housing.
pub struct MeterReadings {
    pub electricity: MeterReadingData,
    pub water: MeterReadingData,
    pub heating: MeterReadingData,
    pub gas: MeterReadingData,
}

impl MeterReadings {
    pub open spec fn typst_term(&self) -> TypstTerm {
        TypstTerm::Struct(
            seq![
                ("electricity"@, self.electricity.typst_term()),
                ("water"@, self.water.typst_term()),
                ("heating"@, self.heating.typst_term()),
                ("gas"@, self.gas.typst_term()),
            ],
        )
    }

    pub fn to_typst_value(&self) -> (v: TypstValue)
        ensures
            v.term() == self.typst_term(),
    {
        struct4(
            "electricity", self.electricity.to_typst_value(),
            "water", self.water.to_typst_value(),
            "heating", self.heating.to_typst_value(),
            "gas", self.gas.to_typst_value(),
        )
    }
}

/// Passport details of a party.
pub struct PassportData {
    pub series: String,
    pub number: String,
    pub issuing_authority: String,
}

impl PassportData {
    pub open spec fn typst_term(&self) -> TypstTerm {
        TypstTerm::Struct(
            seq![
                ("series"@, TypstTerm::Str(self.series@)),
                ("number"@, TypstTerm::Str(self.number@)),
                ("issuing_authority"@, TypstTerm::Str(self.issuing_authority@)),
            ],
        )
    }

    pub fn to_typst_value(&self) -> (v: TypstValue)
        ensures
            v.term() == self.typst_term(),
    {
        struct3(
            "series", str_value(&self.series),
            "number", str_value(&self.number),
            "issuing_authority", str_value(&self.issuing_authority),
        )
    }
}

/// A party of the agreement.
pub struct PersonData {
    pub initials: String,
    pub address_of_residence: String,
    pub passport_data: PassportData,
    pub phone_number: Option<String>,
    pub email: Option<String>,
}

impl PersonData {
    pub open spec fn typst_term(&self) -> TypstTerm {
        TypstTerm::Struct(
            seq![
                ("initials"@, TypstTerm::Str(self.initials@)),
                ("address_of_residence"@, TypstTerm::Str(self.address_of_residence@)),
                ("passport_data"@, self.passport_data.typst_term()),
                ("phone_number"@, opt_str_term(self.phone_number)),
                ("email"@, opt_str_term(self.email)),
            ],
        )
    }

    pub fn to_typst_value(&self) -> (v: TypstValue)
        ensures
            v.term() == self.typst_term(),
    {
        struct5(
            "initials", str_value(&self.initials),
            "address_of_residence", str_value(&self.address_of_residence),
            "passport_data", self.passport_data.to_typst_value(),
            "phone_number", opt_str_value(&self.phone_number),
            "email", opt_str_value(&self.email),
        )
    }
}

/// The tenant and the landlord.
pub struct SidesOfAgreement {
    pub tenant: PersonData,
    pub landlord: PersonData,
}

impl SidesOfAgreement {
    pub open spec fn typst_term(&self) -> TypstTerm {
        TypstTerm::Struct(
            seq![
                ("tenant"@, self.tenant.typst_term()),
                ("landlord"@, self.landlord.typst_term()),
            ],
        )
    }

    pub fn to_typst_value(&self) -> (v: TypstValue)
        ensures
            v.term() == self.typst_term(),
    {
        struct2("tenant", self.tenant.to_typst_value(), "landlord", self.landlord.to_typst_value())
    }
}

impl FunctionCall for SidesOfAgreement {
    open spec fn call_name(&self) -> Seq<char> {
        "sides_of_agreement"@
    }

    open spec fn call_term(&self) -> TypstTerm {
        self.typst_term()
    }

    fn function_name(&self) -> (r: &'static str) {
        "sides_of_agreement"
    }

    fn to_typst(&self) -> (r: Result<String, TypstSerError>) {
        let body = to_typst_string(&self.to_typst_value())?;
        Ok(call_string(self.function_name(), body.as_str()))
    }
}

/// The record of the landlord's ownership.
pub struct OwnershipRecord {
    pub number: String,
    pub date: TypstDateTime,
}

impl OwnershipRecord {
    pub open spec fn typst_term(&self) -> TypstTerm {
        TypstTerm::Struct(
            seq![
                ("number"@, TypstTerm::Str(self.number@)),
                ("date"@, self.date.typst_term()),
            ],
        )
    }

    pub fn to_typst_value(&self) -> (v: TypstValue)
        ensures
            v.term() == self.typst_term(),
    {
        struct2("number", str_value(&self.number), "date", self.date.to_typst_value())
    }
}

/// What is rented, and on what ownership.
pub struct SubjectOfAgreement {
    pub real_estate_data: RealEstateData,
    pub ownership_record: OwnershipRecord,
}

impl SubjectOfAgreement {
    pub open spec fn typst_term(&self) -> TypstTerm {
        TypstTerm::Struct(
            seq![
                ("real_estate_data"@, self.real_estate_data.typst_term()),
                ("ownership_record"@, self.ownership_record.typst_term()),
            ],
        )
    }

    pub fn to_typst_value(&self) -> (v: TypstValue)
        ensures
            v.term() == self.typst_term(),
    {
        struct2(
            "real_estate_data", self.real_estate_data.to_typst_value(),
            "ownership_record", self.ownership_record.to_typst_value(),
        )
    }
}

impl FunctionCall for SubjectOfAgreement {
    open spec fn call_name(&self) -> Seq<char> {
        "subject_of_agreement"@
    }

    open spec fn call_term(&self) -> TypstTerm {
        self.typst_term()
    }

    fn function_name(&self) -> (r: &'static str) {
        "subject_of_agreement"
    }

    fn to_typst(&self) -> (r: Result<String, TypstSerError>) {
        let body = to_typst_string(&self.to_typst_value())?;
        Ok(call_string(self.function_name(), body.as_str()))
    }
}

/// How many days a payment may be late.
pub struct RightsAndObligations {
    pub rental_payment_delay_limit: u8,
}

impl RightsAndObligations {
    pub open spec fn typst_term(&self) -> TypstTerm {
        TypstTerm::Struct(
            seq![
                ("rental_payment_delay_limit"@, TypstTerm::Int(self.rental_payment_delay_limit as int)),
            ],
        )
    }

    pub fn to_typst_value(&self) -> (v: TypstValue)
        ensures
            v.term() == self.typst_term(),
    {
        struct1(
            "rental_payment_delay_limit", TypstValue::Unsigned(self.rental_payment_delay_limit as u64),
        )
    }
}

impl FunctionCall for RightsAndObligations {
    open spec fn call_name(&self) -> Seq<char> {
        "rights_and_obligations"@
    }

    open spec fn call_term(&self) -> TypstTerm {
        self.typst_term()
    }

    fn function_name(&self) -> (r: &'static str) {
        "rights_and_obligations"
    }

    fn to_typst(&self) -> (r: Result<String, TypstSerError>) {
        let body = to_typst_string(&self.to_typst_value())?;
        Ok(call_string(self.function_name(), body.as_str()))
    }
}

/// The rent and how it is paid.
pub struct RentalPaymentData {
    pub amount: u64,
    pub currency: String,
    pub destination: String,
    pub starting_date: TypstDateTime,
    pub payment_day_number: u8,
}

impl RentalPaymentData {
    pub open spec fn typst_term(&self) -> TypstTerm {
        TypstTerm::Struct(
            seq![
                ("amount"@, TypstTerm::Int(self.amount as int)),
                ("currency"@, TypstTerm::Str(self.currency@)),
                ("destination"@, TypstTerm::Str(self.destination@)),
                ("starting_date"@, self.starting_date.typst_term()),
                ("payment_day_number"@, TypstTerm::Int(self.payment_day_number as int)),
            ],
        )
    }

    pub fn to_typst_value(&self) -> (v: TypstValue)
        ensures
            v.term() == self.typst_term(),
    {
        struct5(
            "amount", TypstValue::Unsigned(self.amount),
            "currency", str_value(&self.currency),
            "destination", str_value(&self.destination),
            "starting_date", self.starting_date.to_typst_value(),
            "payment_day_number", TypstValue::Unsigned(self.payment_day_number as u64),
        )
    }
}

/// The payment section.
pub struct RentalPayment {
    pub rental_payment_data: RentalPaymentData,
}

impl RentalPayment {
    pub open spec fn typst_term(&self) -> TypstTerm {
        TypstTerm::Struct(seq![("rental_payment_data"@, self.rental_payment_data.typst_term())])
    }

    pub fn to_typst_value(&self) -> (v: TypstValue)
        ensures
            v.term() == self.typst_term(),
    {
        struct1("rental_payment_data", self.rental_payment_data.to_typst_value())
    }
}

impl FunctionCall for RentalPayment {
    open spec fn call_name(&self) -> Seq<char> {
        "rental_payment"@
    }

    open spec fn call_term(&self) -> TypstTerm {
        self.typst_term()
    }

    fn function_name(&self) -> (r: &'static str) {
        "rental_payment"
    }

    fn to_typst(&self) -> (r: Result<String, TypstSerError>) {
        let body = to_typst_string(&self.to_typst_value())?;
        Ok(call_string(self.function_name(), body.as_str()))
    }
}

/// When the agreement starts and ends.
pub struct AgreementConditionsData {
    pub starting_date: TypstDateTime,
    pub ending_date: TypstDateTime,
}

impl AgreementConditionsData {
    pub open spec fn typst_term(&self) -> TypstTerm {
        TypstTerm::Struct(
            seq![
                ("starting_date"@, self.starting_date.typst_term()),
                ("ending_date"@, self.ending_date.typst_term()),
            ],
        )
    }

    pub fn to_typst_value(&self) -> (v: TypstValue)
        ensures
            v.term() == self.typst_term(),
    {
        struct2(
            "starting_date", self.starting_date.to_typst_value(),
            "ending_date", self.ending_date.to_typst_value(),
        )
    }
}

/// The term section.
pub struct AgreementConditions {
    pub agreement_conditions_data: AgreementConditionsData,
}

impl AgreementConditions {
    pub open spec fn typst_term(&self) -> TypstTerm {
        TypstTerm::Struct(
            seq![
                ("agreement_conditions_data"@, self.agreement_conditions_data.typst_term()),
            ],
        )
    }

    pub fn to_typst_value(&self) -> (v: TypstValue)
        ensures
            v.term() == self.typst_term(),
    {
        struct1("agreement_conditions_data", self.agreement_conditions_data.to_typst_value())
    }
}

impl FunctionCall for AgreementConditions {
    open spec fn call_name(&self) -> Seq<char> {
        "agreement_conditions"@
    }

    open spec fn call_term(&self) -> TypstTerm {
        self.typst_term()
    }

    fn function_name(&self) -> (r: &'static str) {
        "agreement_conditions"
    }

    fn to_typst(&self) -> (r: Result<String, TypstSerError>) {
        let body = to_typst_string(&self.to_typst_value())?;
        Ok(call_string(self.function_name(), body.as_str()))
    }
}

/// The responsibility section, which takes no data: it is written as an empty
/// argument list, so that the call reads `#responsibility()`.
pub struct Responsibility {

}

impl Responsibility {
    pub open spec fn typst_term(&self) -> TypstTerm {
        TypstTerm::Struct(Seq::empty())
    }

    pub fn to_typst_value(&self) -> (v: TypstValue)
        ensures
            v.term() == self.typst_term(),
    {
        struct0()
    }
}

impl FunctionCall for Responsibility {
    open spec fn call_name(&self) -> Seq<char> {
        "responsibility"@
    }

    open spec fn call_term(&self) -> TypstTerm {
        self.typst_term()
    }

    fn function_name(&self) -> (r: &'static str) {
        "responsibility"
    }

    fn to_typst(&self) -> (r: Result<String, TypstSerError>) {
        let body = to_typst_string(&self.to_typst_value())?;
        Ok(call_string(self.function_name(), body.as_str()))
    }
}

/// Visits, the people who live in the housing, and animals.
pub struct OtherConditionsData {
    pub min_notice_days_for_visit: u8,
    pub all_tenants: Vec<String>,
    pub allowed_animals: Vec<String>,
}

impl OtherConditionsData {
    pub open spec fn typst_term(&self) -> TypstTerm {
        TypstTerm::Struct(
            seq![
                ("min_notice_days_for_visit"@, TypstTerm::Int(self.min_notice_days_for_visit as int)),
                ("all_tenants"@, TypstTerm::List(str_list_terms(self.all_tenants@))),
                ("allowed_animals"@, TypstTerm::List(str_list_terms(self.allowed_animals@))),
            ],
        )
    }

    pub fn to_typst_value(&self) -> (v: TypstValue)
        ensures
            v.term() == self.typst_term(),
    {
        struct3(
            "min_notice_days_for_visit", TypstValue::Unsigned(self.min_notice_days_for_visit as u64),
            "all_tenants", str_list_value(&self.all_tenants),
            "allowed_animals", str_list_value(&self.allowed_animals),
        )
    }
}

/// The other-conditions section.
pub struct OtherConditions {
    pub other_conditions_data: OtherConditionsData,
}

impl OtherConditions {
    pub open spec fn typst_term(&self) -> TypstTerm {
        TypstTerm::Struct(seq![("other_conditions_data"@, self.other_conditions_data.typst_term())])
    }

    pub fn to_typst_value(&self) -> (v: TypstValue)
        ensures
            v.term() == self.typst_term(),
    {
        struct1("other_conditions_data", self.other_conditions_data.to_typst_value())
    }
}

impl FunctionCall for OtherConditions {
    open spec fn call_name(&self) -> Seq<char> {
        "other_conditions"@
    }

    open spec fn call_term(&self) -> TypstTerm {
        self.typst_term()
    }

    fn function_name(&self) -> (r: &'static str) {
        "other_conditions"
    }

    fn to_typst(&self) -> (r: Result<String, TypstSerError>) {
        let body = to_typst_string(&self.to_typst_value())?;
        Ok(call_string(self.function_name(), body.as_str()))
    }
}

/// The parties, as they sign.
pub struct Signatures {
    pub tenant: PersonData,
    pub landlord: PersonData,
}

impl Signatures {
    pub open spec fn typst_term(&self) -> TypstTerm {
        TypstTerm::Struct(
            seq![
                ("tenant"@, self.tenant.typst_term()),
                ("landlord"@, self.landlord.typst_term()),
            ],
        )
    }

    pub fn to_typst_value(&self) -> (v: TypstValue)
        ensures
            v.term() == self.typst_term(),
    {
        struct2("tenant", self.tenant.to_typst_value(), "landlord", self.landlord.to_typst_value())
    }
}

impl FunctionCall for Signatures {
    open spec fn call_name(&self) -> Seq<char> {
        "signatures"@
    }

    open spec fn call_term(&self) -> TypstTerm {
        self.typst_term()
    }

    fn function_name(&self) -> (r: &'static str) {
        "signatures"
    }

    fn to_typst(&self) -> (r: Result<String, TypstSerError>) {
        let body = to_typst_string(&self.to_typst_value())?;
        Ok(call_string(self.function_name(), body.as_str()))
    }
}

/// Price and count of one kind of additional property handed over with the housing.
pub struct AdditionalPropertyValue {
    pub uah_price: u64,
    pub amount: u64,
}

impl AdditionalPropertyValue {
    pub open spec fn typst_term(&self) -> TypstTerm {
        TypstTerm::Struct(
            seq![
                ("uah_price"@, TypstTerm::Int(self.uah_price as int)),
                ("amount"@, TypstTerm::Int(self.amount as int)),
            ],
        )
    }

    pub fn to_typst_value(&self) -> (v: TypstValue)
        ensures
            v.term() == self.typst_term(),
    {
        struct2(
            "uah_price", TypstValue::Unsigned(self.uah_price),
            "amount", TypstValue::Unsigned(self.amount),
        )
    }
}

/// The hand-over act: additional property (each name once) and meter readings.
pub struct AppendixOneData {
    pub starting_date: TypstDateTime,
    pub place: String,
    pub tenant_initials: String,
    pub landlord_initials: String,
    pub additional_property: Vec<(String, AdditionalPropertyValue)>,
    pub meter_readings: MeterReadings,
}

impl AppendixOneData {
    pub open spec fn typst_term(&self) -> TypstTerm {
        TypstTerm::Struct(
            seq![
                ("starting_date"@, self.starting_date.typst_term()),
                ("place"@, TypstTerm::Str(self.place@)),
                ("tenant_initials"@, TypstTerm::Str(self.tenant_initials@)),
                ("landlord_initials"@, TypstTerm::Str(self.landlord_initials@)),
                ("additional_property"@, TypstTerm::Dict(property_terms(self.additional_property@))),
                ("meter_readings"@, self.meter_readings.typst_term()),
            ],
        )
    }

    pub fn to_typst_value(&self) -> (v: TypstValue)
        ensures
            v.term() == self.typst_term(),
    {
        struct6(
            "starting_date", self.starting_date.to_typst_value(),
            "place", str_value(&self.place),
            "tenant_initials", str_value(&self.tenant_initials),
            "landlord_initials", str_value(&self.landlord_initials),
            "additional_property", property_value(&self.additional_property),
            "meter_readings", self.meter_readings.to_typst_value(),
        )
    }
}

/// The first appendix.
pub struct AppendixOne {
    pub appendix_one_data: AppendixOneData,
}

impl AppendixOne {
    pub open spec fn typst_term(&self) -> TypstTerm {
        TypstTerm::Struct(seq![("appendix_one_data"@, self.appendix_one_data.typst_term())])
    }

    pub fn to_typst_value(&self) -> (v: TypstValue)
        ensures
            v.term() == self.typst_term(),
    {
        struct1("appendix_one_data", self.appendix_one_data.to_typst_value())
    }
}

impl FunctionCall for AppendixOne {
    open spec fn call_name(&self) -> Seq<char> {
        "appendix_one"@
    }

    open spec fn call_term(&self) -> TypstTerm {
        self.typst_term()
    }

    fn function_name(&self) -> (r: &'static str) {
        "appendix_one"
    }

    fn to_typst(&self) -> (r: Result<String, TypstSerError>) {
        let body = to_typst_string(&self.to_typst_value())?;
        Ok(call_string(self.function_name(), body.as_str()))
    }
}

/// The return act.
pub struct AppendixTwoData {
    pub starting_date: TypstDateTime,
    pub place: String,
    pub tenant_initials: String,
    pub landlord_initials: String,
}

impl AppendixTwoData {
    pub open spec fn typst_term(&self) -> TypstTerm {
        TypstTerm::Struct(
            seq![
                ("starting_date"@, self.starting_date.typst_term()),
                ("place"@, TypstTerm::Str(self.place@)),
                ("tenant_initials"@, TypstTerm::Str(self.tenant_initials@)),
                ("landlord_initials"@, TypstTerm::Str(self.landlord_initials@)),
            ],
        )
    }

    pub fn to_typst_value(&self) -> (v: TypstValue)
        ensures
            v.term() == self.typst_term(),
    {
        struct4(
            "starting_date", self.starting_date.to_typst_value(),
            "place", str_value(&self.place),
            "tenant_initials", str_value(&self.tenant_initials),
            "landlord_initials", str_value(&self.landlord_initials),
        )
    }
}

/// The second appendix.
pub struct AppendixTwo {
    pub appendix_two_data: AppendixTwoData,
}

impl AppendixTwo {
    pub open spec fn typst_term(&self) -> TypstTerm {
        TypstTerm::Struct(seq![("appendix_two_data"@, self.appendix_two_data.typst_term())])
    }

    pub fn to_typst_value(&self) -> (v: TypstValue)
        ensures
            v.term() == self.typst_term(),
    {
        struct1("appendix_two_data", self.appendix_two_data.to_typst_value())
    }
}

impl FunctionCall for AppendixTwo {
    open spec fn call_name(&self) -> Seq<char> {
        "appendix_two"@
    }

    open spec fn call_term(&self) -> TypstTerm {
        self.typst_term()
    }

    fn function_name(&self) -> (r: &'static str) {
        "appendix_two"
    }

    fn to_typst(&self) -> (r: Result<String, TypstSerError>) {
        let body = to_typst_string(&self.to_typst_value())?;
        Ok(call_string(self.function_name(), body.as_str()))
    }
}

/// The address of the rented housing.
pub struct HousingDataAddress {
    pub region: String,
    pub city: String,
    pub district: String,
    pub street: String,
    pub apartment_number: String,
}

impl HousingDataAddress {
    /// `Україна, <region> обл., м. <city>, <district> р-н, вул. <street> <apartment>`.
    pub open spec fn full_address_text(&self) -> Seq<char> {
        "Україна"@ + ", "@ + self.region@ + " обл., "@ + "м. "@ + self.city@ + ", "@
            + self.district@ + " р-н, "@ + "вул. "@ + self.street@ + " "@ + self.apartment_number@
    }

    /// The full postal address, in Ukrainian.
    pub fn full_address(&self) -> (r: String)
        ensures
            r@ == self.full_address_text(),
    {
        let mut s = "Україна".to_string();
        s.append(", ");
        s.append(self.region.as_str());
        s.append(" обл., ");
        s.append("м. ");
        s.append(self.city.as_str());
        s.append(", ");
        s.append(self.district.as_str());
        s.append(" р-н, ");
        s.append("вул. ");
        s.append(self.street.as_str());
        s.append(" ");
        s.append(self.apartment_number.as_str());
        s
    }
}

/// The rented housing.
pub struct HousingData {
    pub address: HousingDataAddress,
    /// The kind of housing (serialized under the key `type`).
    pub kind: String,
    pub area: u64,
}

/// A date and time of day in UTC, without time zone.
#[derive(Clone, Copy, Debug, PartialEq, Eq, Structural)]
pub struct UtcDateTime {
    pub year: i32,
    pub month: u32,
    pub day: u32,
    pub hour: u32,
    pub minute: u32,
    pub second: u32,
}

/// One kind of additional property handed over with the housing.
pub struct AdditionalPropertyUnit {
    pub name: String,
    pub amount: u64,
    pub uah_price: u64,
}

/// The terms of the rent.
pub struct RentData {
    pub start: UtcDateTime,
    pub end: UtcDateTime,
    pub currency: String,
    pub price: u64,
    pub rental_payment_delay_limit: u8,
    pub destination: String,
    pub payment_day_number: u8,
    pub min_notice_days_for_visit: u8,
    pub additional_tenants: Vec<String>,
    pub allowed_animals: Vec<String>,
    pub additional_property: Vec<AdditionalPropertyUnit>,
    pub meter_readings: MeterReadings,
}

/// Phone numbers and e-mails of the parties.
pub struct RequisitesData {
    pub tenant_phone: String,
    pub tenant_email: String,
    pub landlord_phone: String,
    pub landlord_email: String,
}

/// The record of the landlord's ownership.
pub struct OwneshipData {
    pub record_number: String,
    pub date: UtcDateTime,
}

/// Additional property as a map from name to (price in UAH, count).
pub open spec fn property_view(props: Seq<(String, AdditionalPropertyValue)>) -> Seq<(Seq<char>, (u64, u64))> {
    Seq::new(props.len(), |i: int| (props[i].0@, (props[i].1.uah_price, props[i].1.amount)))
}

/// Puts `name` with value `v` into a map held as a sequence of distinct keys:
/// an existing entry of that name takes the new value in its place, otherwise
/// the entry is added at the end.
pub open spec fn upsert_property(
    m: Seq<(Seq<char>, (u64, u64))>,
    name: Seq<char>,
    v: (u64, u64),
) -> Seq<(Seq<char>, (u64, u64))>
    decreases m.len(),
{
    if m.len() == 0 {
        seq![(name, v)]
    } else if m[0].0 == name {
        m.update(0, (name, v))
    } else {
        seq![m[0]] + upsert_property(m.drop_first(), name, v)
    }
}

/// The map built from the units one after the other: each name once, with the
/// price and count of the last unit of that name.
pub open spec fn collect_properties(units: Seq<AdditionalPropertyUnit>) -> Seq<(Seq<char>, (u64, u64))>
    decreases units.len(),
{
    if units.len() == 0 {
        Seq::empty()
    } else {
        upsert_property(
            collect_properties(units.drop_last()),
            units.last().name@,
            (units.last().uah_price, units.last().amount),
        )
    }
}

proof fn lemma_upsert_at(m: Seq<(Seq<char>, (u64, u64))>, name: Seq<char>, v: (u64, u64), j: int)
    requires
        0 <= j < m.len(),
        m[j].0 == name,
        forall|i: int| 0 <= i < j ==> m[i].0 != name,
    ensures
        upsert_property(m, name, v) == m.update(j, (name, v)),
    decreases m.len(),
{
    if j > 0 {
        lemma_upsert_at(m.drop_first(), name, v, j - 1);
        assert(seq![m[0]] + m.drop_first().update(j - 1, (name, v)) =~= m.update(j, (name, v)));
    }
}

proof fn lemma_upsert_absent(m: Seq<(Seq<char>, (u64, u64))>, name: Seq<char>, v: (u64, u64))
    requires
        forall|i: int| 0 <= i < m.len() ==> m[i].0 != name,
    ensures
        upsert_property(m, name, v) == m.push((name, v)),
    decreases m.len(),
{
    if m.len() > 0 {
        lemma_upsert_absent(m.drop_first(), name, v);
        assert(seq![m[0]] + m.drop_first().push((name, v)) =~= m.push((name, v)));
    }
}

/// No name occurs twice in the map.
pub open spec fn names_distinct(m: Seq<(Seq<char>, (u64, u64))>) -> bool {
    forall|i: int, j: int| 0 <= i < j < m.len() ==> m[i].0 != m[j].0
}

proof fn lemma_upsert_facts(m: Seq<(Seq<char>, (u64, u64))>, name: Seq<char>, v: (u64, u64))
    requires
        names_distinct(m),
    ensures
        names_distinct(upsert_property(m, name, v)),
        upsert_property(m, name, v).contains((name, v)),
        forall|e: (Seq<char>, (u64, u64))| m.contains(e) && e.0 != name ==> upsert_property(m, name, v).contains(e),
        forall|e: (Seq<char>, (u64, u64))|
            upsert_property(m, name, v).contains(e) ==> e == (name, v) || (m.contains(e) && e.0 != name),
{
    let r = upsert_property(m, name, v);
    if exists|j: int| 0 <= j < m.len() && m[j].0 == name {
        let j = choose|j: int| 0 <= j < m.len() && m[j].0 == name;
        lemma_upsert_at(m, name, v, j);
        assert(r[j] == (name, v));
        assert forall|e: (Seq<char>, (u64, u64))| m.contains(e) && e.0 != name implies r.contains(e) by {
            let k = choose|k: int| 0 <= k < m.len() && m[k] == e;
            assert(k != j);
            assert(r[k] == e);
        }
        assert forall|e: (Seq<char>, (u64, u64))| r.contains(e) implies e == (name, v) || (m.contains(e)
            && e.0 != name) by {
            let k = choose|k: int| 0 <= k < r.len() && r[k] == e;
            if k != j {
                assert(m[k] == e);
                assert(m.contains(e));
            }
        }
    } else {
        lemma_upsert_absent(m, name, v);
        assert(r[m.len() as int] == (name, v));
        assert forall|e: (Seq<char>, (u64, u64))| m.contains(e) && e.0 != name implies r.contains(e) by {
            let k = choose|k: int| 0 <= k < m.len() && m[k] == e;
            assert(r[k] == e);
        }
        assert forall|e: (Seq<char>, (u64, u64))| r.contains(e) implies e == (name, v) || (m.contains(e)
            && e.0 != name) by {
            let k = choose|k: int| 0 <= k < r.len() && r[k] == e;
            if k < m.len() {
                assert(m[k] == e);
                assert(m.contains(e));
            }
        }
    }
}

proof fn lemma_property_names_unique(units: Seq<AdditionalPropertyUnit>)
    ensures
        names_distinct(collect_properties(units)),
    decreases units.len(),
{
    if units.len() > 0 {
        let prev = units.drop_last();
        lemma_property_names_unique(prev);
        lemma_upsert_facts(collect_properties(prev), units.last().name@, (units.last().uah_price, units.last().amount));
    }
}

#[verifier::spinoff_prover]
proof fn lemma_property_last_value(units: Seq<AdditionalPropertyUnit>, k: int)
    requires
        0 <= k < units.len(),
        forall|l: int| k < l < units.len() ==> units[l].name@ != units[k].name@,
    ensures
        collect_properties(units).contains((units[k].name@, (units[k].uah_price, units[k].amount))),
    decreases units.len(),
{
    let prev = units.drop_last();
    let last = units.last();
    lemma_property_names_unique(prev);
    lemma_upsert_facts(collect_properties(prev), last.name@, (last.uah_price, last.amount));
    if k < units.len() - 1 {
        assert(prev[k] == units[k]);
        assert forall|l: int| k < l < prev.len() implies prev[l].name@ != prev[k].name@ by {
            assert(prev[l] == units[l]);
        }
        lemma_property_last_value(prev, k);
        assert(units[units.len() - 1].name@ != units[k].name@);
    }
}

#[verifier::spinoff_prover]
proof fn lemma_property_values_from_units(units: Seq<AdditionalPropertyUnit>, e: (Seq<char>, (u64, u64)))
    requires
        collect_properties(units).contains(e),
    ensures
        exists|k: int| 0 <= k < units.len() && e == (units[k].name@, (units[k].uah_price, units[k].amount)),
    decreases units.len(),
{
    if units.len() == 0 {
        assert(collect_properties(units) =~= Seq::<(Seq<char>, (u64, u64))>::empty());
    } else {
        let prev = units.drop_last();
        let last = units.last();
        lemma_property_names_unique(prev);
        lemma_upsert_facts(collect_properties(prev), last.name@, (last.uah_price, last.amount));
        let n = (units.len() - 1) as int;
        if e == (last.name@, (last.uah_price, last.amount)) {
            assert(e == (units[n].name@, (units[n].uah_price, units[n].amount)));
        } else {
            lemma_property_values_from_units(prev, e);
            let k = choose|k: int| 0 <= k < prev.len() && e == (prev[k].name@, (prev[k].uah_price, prev[k].amount));
            assert(prev[k] == units[k]);
        }
    }
}

/// The hand-over act lists each property name once, with the price and count
/// of the last unit that bears that name, as a map filled unit by unit holds
/// them; and it lists nothing that no unit gave.
pub proof fn law_property_map(units: Seq<AdditionalPropertyUnit>)
    ensures
        names_distinct(collect_properties(units)),
        forall|k: int|
            0 <= k < units.len() && (forall|l: int| k < l < units.len() ==> units[l].name@ != units[k].name@)
                ==> collect_properties(units).contains(
                (units[k].name@, (units[k].uah_price, units[k].amount)),
            ),
        forall|e: (Seq<char>, (u64, u64))|
            collect_properties(units).contains(e) ==> exists|k: int|
                0 <= k < units.len() && e == (units[k].name@, (units[k].uah_price, units[k].amount)),
{
    lemma_property_names_unique(units);
    assert forall|k: int|
        0 <= k < units.len() && (forall|l: int| k < l < units.len() ==> units[l].name@ != units[k].name@)
            implies collect_properties(units).contains((units[k].name@, (units[k].uah_price, units[k].amount))) by {
        lemma_property_last_value(units, k);
    }
    assert forall|e: (Seq<char>, (u64, u64))| collect_properties(units).contains(e) implies exists|k: int|
        0 <= k < units.len() && e == (units[k].name@, (units[k].uah_price, units[k].amount)) by {
        lemma_property_values_from_units(units, e);
    }
}

/// Builds the additional-property map of the hand-over act from the units of
/// the rent data.
pub fn collect_additional_property(units: &Vec<AdditionalPropertyUnit>) -> (r: Vec<(String, AdditionalPropertyValue)>)
    ensures
        property_view(r@) == collect_properties(units@),
{
    let mut out: Vec<(String, AdditionalPropertyValue)> = Vec::new();
    let mut i: usize = 0;
    assert(units@.take(0) =~= Seq::<AdditionalPropertyUnit>::empty());
    assert(property_view(out@) =~= Seq::<(Seq<char>, (u64, u64))>::empty());
    while i < units.len()
        invariant
            i <= units@.len(),
            property_view(out@) == collect_properties(units@.take(i as int)),
        decreases units@.len() - i,
    {
        let unit = &units[i];
        let ghost before = property_view(out@);
        let mut j: usize = 0;
        let mut found = false;
        while !found && j < out.len()
            invariant
                j <= out@.len(),
                before == property_view(out@),
                found ==> j < out@.len() && out@[j as int].0@ == unit.name@,
                forall|k: int| 0 <= k < j ==> out@[k].0@ != unit.name@,
            decreases out@.len() - j, (if found { 0int } else { 1int }),
        {
            if out[j].0 == unit.name {
                found = true;
            } else {
                j = j + 1;
            }
        }
        let value = AdditionalPropertyValue { uah_price: unit.uah_price, amount: unit.amount };
        assert(units@.take(i + 1).drop_last() =~= units@.take(i as int));
        if found {
            proof { lemma_upsert_at(before, unit.name@, (unit.uah_price, unit.amount), j as int); }
            out.set(j, (unit.name.clone(), value));
            assert(property_view(out@) =~= before.update(j as int, (unit.name@, (unit.uah_price, unit.amount))));
        } else {
            proof { lemma_upsert_absent(before, unit.name@, (unit.uah_price, unit.amount)); }
            out.push((unit.name.clone(), value));
            assert(property_view(out@) =~= before.push((unit.name@, (unit.uah_price, unit.amount))));
        }
        i = i + 1;
    }
    assert(units@.take(i as int) =~= units@);
    out
}

/// Names the calendar date in Kyiv, as (day, month, year), of a UTC date and
/// time given by its fields; `None` when the fields make no date and time.
pub uninterp spec fn kyiv_date_of(
    year: i32,
    month: u32,
    day: u32,
    hour: u32,
    minute: u32,
    second: u32,
) -> Option<(u32, u32, i32)>;

/// A leap year of the proleptic Gregorian calendar.
pub open spec fn is_leap_year(year: int) -> bool {
    (year % 4 == 0 && year % 100 != 0) || year % 400 == 0
}

/// The number of days of a month (1 to 12) of a year.
pub open spec fn days_in_month(year: int, month: int) -> int {
    if month == 2 {
        if is_leap_year(year) {
            29
        } else {
            28
        }
    } else if month == 4 || month == 6 || month == 9 || month == 11 {
        30
    } else {
        31
    }
}

/// The fields make a date and time that chrono accepts: a year in its range
/// (-262143 to 262142), a month, a day of that month, and a time of day
/// without a leap second.
pub open spec fn utc_fields_valid(dt: UtcDateTime) -> bool {
    &&& -262143 <= dt.year <= 262142
    &&& 1 <= dt.month <= 12
    &&& 1 <= dt.day <= days_in_month(dt.year as int, dt.month as int)
    &&& dt.hour < 24
    &&& dt.minute < 60
    &&& dt.second < 60
}

/// Builds a `chrono::NaiveDateTime` from the fields with `NaiveDate::from_ymd_opt`
/// and `and_hms_opt`, converts it with `TimeZone::from_utc_datetime` of
/// `chrono_tz::Europe::Kyiv`, and reads `day`, `month` and `year` of the result.
/// Trusted: chrono documents that the two constructors refuse exactly the
/// fields that `utc_fields_valid` rules out; the date itself is named as a
/// function of the fields, with the day in 1..=31 and the month in 1..=12, as
/// chrono's `Datelike` documents.
#[verifier::external_body]
fn kyiv_date(dt: &UtcDateTime) -> (r: Option<(u32, u32, i32)>)
    ensures
        r is Some <==> utc_fields_valid(*dt),
        r == kyiv_date_of(dt.year, dt.month, dt.day, dt.hour, dt.minute, dt.second),
        r matches Some(t) ==> 1 <= t.0 <= 31 && 1 <= t.1 <= 12,
{
    let date = chrono::NaiveDate::from_ymd_opt(dt.year, dt.month, dt.day)?;
    let naive = date.and_hms_opt(dt.hour, dt.minute, dt.second)?;
    let local = chrono::TimeZone::from_utc_datetime(&chrono_tz::Europe::Kyiv, &naive);
    Some((
        chrono::Datelike::day(&local),
        chrono::Datelike::month(&local),
        chrono::Datelike::year(&local),
    ))
}

/// Reads the clock with `std::time::SystemTime::now`, as seconds and
/// nanoseconds since the Unix epoch (`duration_since`), makes a
/// `chrono::DateTime<Utc>` of them with `DateTime::from_timestamp`, moves it to
/// `chrono_tz::Europe::Kyiv` with `with_timezone`, and gives (day, month,
/// year). `None` when the clock reads before 1970 or beyond chrono's range.
/// Trusted: only the ranges of day and month are stated; the date itself
/// depends on the time of the call.
#[verifier::external_body]
fn kyiv_today() -> (r: Option<(u32, u32, i32)>)
    ensures
        r matches Some(t) ==> 1 <= t.0 <= 31 && 1 <= t.1 <= 12,
{
    let since = std::time::SystemTime::now().duration_since(std::time::UNIX_EPOCH).ok()?;
    let secs = i64::try_from(since.as_secs()).ok()?;
    let utc = chrono::DateTime::from_timestamp(secs, since.subsec_nanos())?;
    let now = utc.with_timezone(&chrono_tz::Europe::Kyiv);
    Some((chrono::Datelike::day(&now), chrono::Datelike::month(&now), chrono::Datelike::year(&now)))
}

/// The Kyiv date of a UTC date and time.
pub open spec fn utc_kyiv_date(dt: UtcDateTime) -> Option<(u32, u32, i32)> {
    kyiv_date_of(dt.year, dt.month, dt.day, dt.hour, dt.minute, dt.second)
}

/// The term of a (day, month, year) date.
pub open spec fn date_term(d: (u32, u32, i32)) -> TypstTerm {
    TypstDateTime { day: d.0, month: d.1, year: d.2 }.typst_term()
}

/// A party's initials: last name, first name and middle name, separated by spaces.
pub open spec fn initials_text(p: InternalPassport) -> Seq<char> {
    p.last_name_ua@ + " "@ + p.first_name_ua@ + " "@ + p.middle_name_ua@
}

/// A party as written in the agreement, from the passport and the contacts.
pub open spec fn person_term(p: InternalPassport, phone: Seq<char>, email: Seq<char>) -> TypstTerm {
    TypstTerm::Struct(
        seq![
            ("initials"@, TypstTerm::Str(initials_text(p))),
            ("address_of_residence"@, TypstTerm::Str(p.residence_ua@)),
            (
                "passport_data"@,
                TypstTerm::Struct(
                    seq![
                        ("series"@, TypstTerm::Str("-"@)),
                        ("number"@, TypstTerm::Str(p.doc_number@)),
                        ("issuing_authority"@, TypstTerm::Str(p.department@)),
                    ],
                ),
            ),
            ("phone_number"@, TypstTerm::Str(phone)),
            ("email"@, TypstTerm::Str(email)),
        ],
    )
}

/// The entries of the additional-property map of the hand-over act.
pub open spec fn property_entry_terms(m: Seq<(Seq<char>, (u64, u64))>) -> Seq<(TypstTerm, TypstTerm)> {
    Seq::new(
        m.len(),
        |i: int|
            (
                TypstTerm::Str(m[i].0),
                TypstTerm::Struct(
                    seq![
                        ("uah_price"@, TypstTerm::Int(m[i].1.0 as int)),
                        ("amount"@, TypstTerm::Int(m[i].1.1 as int)),
                    ],
                ),
            ),
    )
}

/// The parts joined by line breaks.
pub open spec fn join_lines(parts: Seq<Seq<char>>) -> Seq<char>
    decreases parts.len(),
{
    if parts.len() == 0 {
        Seq::empty()
    } else if parts.len() == 1 {
        parts[0]
    } else {
        join_lines(parts.drop_last()) + "\n"@ + parts.last()
    }
}

/// The twelve function calls of the agreement, in order: title, place and
/// date, sides, subject, rights and obligations, payment, term,
/// responsibility, other conditions, signatures and the two appendices.
pub open spec fn agreement_calls(
    tenant: DocumentUnit,
    landlord: DocumentUnit,
    housing: HousingData,
    rent: RentData,
    req: RequisitesData,
    own: OwneshipData,
    today: (u32, u32, i32),
    own_date: (u32, u32, i32),
    start: (u32, u32, i32),
    end: (u32, u32, i32),
) -> Seq<Seq<char>> {
    let tp = tenant.internal_passport;
    let lp = landlord.internal_passport;
    let city = TypstTerm::Str(housing.address.city@);
    let tenant_person = person_term(tp, req.tenant_phone@, req.tenant_email@);
    let landlord_person = person_term(lp, req.landlord_phone@, req.landlord_email@);
    let parties = TypstTerm::Struct(seq![("tenant"@, tenant_person), ("landlord"@, landlord_person)]);
    seq![
        call_text(
            "rental_agreement_title"@,
            TypstTerm::Struct(seq![("rental_agreement_number"@, TypstTerm::Int(1))]),
        ),
        call_text(
            "rental_agreement_place_and_date"@,
            TypstTerm::Struct(seq![("place"@, city), ("date"@, date_term(today))]),
        ),
        call_text("sides_of_agreement"@, parties),
        call_text(
            "subject_of_agreement"@,
            TypstTerm::Struct(
                seq![
                    (
                        "real_estate_data"@,
                        TypstTerm::Struct(
                            seq![
                                ("type"@, TypstTerm::Str(housing.kind@)),
                                ("address"@, TypstTerm::Str(housing.address.full_address_text())),
                                ("area"@, TypstTerm::Int(housing.area as int)),
                            ],
                        ),
                    ),
                    (
                        "ownership_record"@,
                        TypstTerm::Struct(
                            seq![
                                ("number"@, TypstTerm::Str(own.record_number@)),
                                ("date"@, date_term(own_date)),
                            ],
                        ),
                    ),
                ],
            ),
        ),
        call_text(
            "rights_and_obligations"@,
            TypstTerm::Struct(
                seq![
                    (
                        "rental_payment_delay_limit"@,
                        TypstTerm::Int(rent.rental_payment_delay_limit as int),
                    ),
                ],
            ),
        ),
        call_text(
            "rental_payment"@,
            TypstTerm::Struct(
                seq![
                    (
                        "rental_payment_data"@,
                        TypstTerm::Struct(
                            seq![
                                ("amount"@, TypstTerm::Int(rent.price as int)),
                                ("currency"@, TypstTerm::Str(rent.currency@)),
                                ("destination"@, TypstTerm::Str(rent.destination@)),
                                ("starting_date"@, date_term(start)),
                                ("payment_day_number"@, TypstTerm::Int(rent.payment_day_number as int)),
                            ],
                        ),
                    ),
                ],
            ),
        ),
        call_text(
            "agreement_conditions"@,
            TypstTerm::Struct(
                seq![
                    (
                        "agreement_conditions_data"@,
                        TypstTerm::Struct(
                            seq![("starting_date"@, date_term(start)), ("ending_date"@, date_term(end))],
                        ),
                    ),
                ],
            ),
        ),
        call_text("responsibility"@, TypstTerm::Struct(Seq::empty())),
        call_text(
            "other_conditions"@,
            TypstTerm::Struct(
                seq![
                    (
                        "other_conditions_data"@,
                        TypstTerm::Struct(
                            seq![
                                (
                                    "min_notice_days_for_visit"@,
                                    TypstTerm::Int(rent.min_notice_days_for_visit as int),
                                ),
                                (
                                    "all_tenants"@,
                                    TypstTerm::List(
                                        seq![TypstTerm::Str(initials_text(tp))] + str_list_terms(
                                            rent.additional_tenants@,
                                        ),
                                    ),
                                ),
                                (
                                    "allowed_animals"@,
                                    TypstTerm::List(str_list_terms(rent.allowed_animals@)),
                                ),
                            ],
                        ),
                    ),
                ],
            ),
        ),
        call_text("signatures"@, parties),
        call_text(
            "appendix_one"@,
            TypstTerm::Struct(
                seq![
                    (
                        "appendix_one_data"@,
                        TypstTerm::Struct(
                            seq![
                                ("starting_date"@, date_term(today)),
                                ("place"@, city),
                                ("tenant_initials"@, TypstTerm::Str(initials_text(tp))),
                                ("landlord_initials"@, TypstTerm::Str(initials_text(lp))),
                                (
                                    "additional_property"@,
                                    TypstTerm::Dict(
                                        property_entry_terms(
                                            collect_properties(rent.additional_property@),
                                        ),
                                    ),
                                ),
                                ("meter_readings"@, rent.meter_readings.typst_term()),
                            ],
                        ),
                    ),
                ],
            ),
        ),
        call_text(
            "appendix_two"@,
            TypstTerm::Struct(
                seq![
                    (
                        "appendix_two_data"@,
                        TypstTerm::Struct(
                            seq![
                                ("starting_date"@, date_term(today)),
                                ("place"@, city),
                                ("tenant_initials"@, TypstTerm::Str(initials_text(tp))),
                                ("landlord_initials"@, TypstTerm::Str(initials_text(lp))),
                            ],
                        ),
                    ),
                ],
            ),
        ),
    ]
}

/// The whole agreement document: the template followed by the calls, one
/// per line, separated by line breaks.
pub open spec fn agreement_document(
    template: Seq<char>,
    tenant: DocumentUnit,
    landlord: DocumentUnit,
    housing: HousingData,
    rent: RentData,
    req: RequisitesData,
    own: OwneshipData,
    today: (u32, u32, i32),
    own_date: (u32, u32, i32),
    start: (u32, u32, i32),
    end: (u32, u32, i32),
) -> Seq<char> {
    template + join_lines(
        agreement_calls(tenant, landlord, housing, rent, req, own, today, own_date, start, end),
    )
}

/// The document is the template followed by the twelve section calls, each
/// a call `#name...` that ends its line; the calls are separated by line breaks.
pub proof fn law_document_shape(
    template: Seq<char>,
    tenant: DocumentUnit,
    landlord: DocumentUnit,
    housing: HousingData,
    rent: RentData,
    req: RequisitesData,
    own: OwneshipData,
    today: (u32, u32, i32),
    own_date: (u32, u32, i32),
    start: (u32, u32, i32),
    end: (u32, u32, i32),
)
    ensures
        ({
            let calls = agreement_calls(tenant, landlord, housing, rent, req, own, today, own_date, start, end);
            &&& calls.len() == 12
            &&& forall|i: int| 0 <= i < 12 ==> #[trigger] calls[i].first() == '#' && calls[i].last() == '\n'
            &&& agreement_document(template, tenant, landlord, housing, rent, req, own, today, own_date, start, end)
                == template + join_lines(calls)
        }),
{
    reveal_strlit("#");
    reveal_strlit("\n");
    let calls = agreement_calls(tenant, landlord, housing, rent, req, own, today, own_date, start, end);
    assert forall|i: int| 0 <= i < 12 implies #[trigger] calls[i].first() == '#' && calls[i].last() == '\n' by {
        let c = calls[i];
        assert(c.len() >= 2);
    }
}

fn join_lines_exec(parts: &Vec<String>) -> (r: String)
    ensures
        r@ == join_lines(Seq::new(parts@.len(), |i: int| parts@[i]@)),
{
    let ghost ps = Seq::new(parts@.len(), |i: int| parts@[i]@);
    let mut out = String::new();
    let mut i: usize = 0;
    assert(ps.take(0) =~= Seq::<Seq<char>>::empty());
    while i < parts.len()
        invariant
            i <= parts@.len(),
            ps == Seq::new(parts@.len(), |i: int| parts@[i]@),
            out@ == join_lines(ps.take(i as int)),
        decreases parts@.len() - i,
    {
        if i > 0 {
            out.append("\n");
        }
        out.append(parts[i].as_str());
        assert(ps.take(i + 1).drop_last() =~= ps.take(i as int));
        i = i + 1;
    }
    assert(ps.take(i as int) =~= ps);
    out
}

fn person(p: &InternalPassport, initials: &String, phone: &String, email: &String) -> (r: PersonData)
    requires
        initials@ == initials_text(*p),
    ensures
        r.typst_term() == person_term(*p, phone@, email@),
{
    let r = PersonData {
        initials: initials.clone(),
        address_of_residence: p.residence_ua.clone(),
        passport_data: PassportData {
            series: "-".to_string(),
            number: p.doc_number.clone(),
            issuing_authority: p.department.clone(),
        },
        phone_number: Some(phone.clone()),
        email: Some(email.clone()),
    };
    r
}

fn initials(p: &InternalPassport) -> (r: String)
    ensures
        r@ == initials_text(*p),
{
    let mut s = p.last_name_ua.clone();
    s.append(" ");
    s.append(p.first_name_ua.as_str());
    s.append(" ");
    s.append(p.middle_name_ua.as_str());
    s
}

/// A section's text, or the internal error that rendering it gave.
fn section_text(r: Result<String, TypstSerError>) -> (o: Result<String, ServerError>)
    ensures
        r is Ok <==> o is Ok,
        r matches Ok(t) ==> o == Ok::<String, ServerError>(t),
        o matches Err(e) ==> e is Internal,
{
    match r {
        Ok(t) => Ok(t),
        Err(e) => Err(ServerError::Internal(e.message())),
    }
}

/// The dates of the agreement could not be read.
pub open spec fn dates_unreadable(rent: RentData, own: OwneshipData) -> bool {
    !utc_fields_valid(own.date) || !utc_fields_valid(rent.start) || !utc_fields_valid(rent.end)
}

/// Builds the agreement document for a given date of signing (`today`, as
/// day, month and year in Kyiv).
#[verifier::spinoff_prover]
#[verifier::rlimit(60)]
pub fn generate_on(
    template: &str,
    tenant_data: &DocumentUnit,
    landlord_data: &DocumentUnit,
    housing_data: HousingData,
    rent_data: RentData,
    requisites_data: RequisitesData,
    ownership_data: OwneshipData,
    today: (u32, u32, i32),
) -> (r: Result<String, ServerError>)
    ensures
        dates_unreadable(rent_data, ownership_data) ==> r matches Err(ServerError::BadRequest(_)),
        !dates_unreadable(rent_data, ownership_data) ==> r is Ok,
        r matches Ok(t) ==> t@ == agreement_document(
            template@,
            *tenant_data,
            *landlord_data,
            housing_data,
            rent_data,
            requisites_data,
            ownership_data,
            today,
            utc_kyiv_date(ownership_data.date).unwrap(),
            utc_kyiv_date(rent_data.start).unwrap(),
            utc_kyiv_date(rent_data.end).unwrap(),
        ),
{
    let own_date = match kyiv_date(&ownership_data.date) {
        Some(d) => d,
        None => {
            return Err(ServerError::BadRequest("invalid date in the request".to_string()));
        },
    };
    let start = match kyiv_date(&rent_data.start) {
        Some(d) => d,
        None => {
            return Err(ServerError::BadRequest("invalid date in the request".to_string()));
        },
    };
    let end = match kyiv_date(&rent_data.end) {
        Some(d) => d,
        None => {
            return Err(ServerError::BadRequest("invalid date in the request".to_string()));
        },
    };
    let ghost rent0 = rent_data;
    let ghost housing0 = housing_data;
    let now = TypstDateTime { day: today.0, month: today.1, year: today.2 };
    let own_dt = TypstDateTime { day: own_date.0, month: own_date.1, year: own_date.2 };
    let start_dt = TypstDateTime { day: start.0, month: start.1, year: start.2 };
    let end_dt = TypstDateTime { day: end.0, month: end.1, year: end.2 };
    let tp = &tenant_data.internal_passport;
    let lp = &landlord_data.internal_passport;
    let tenant_initials = initials(tp);
    let landlord_initials = initials(lp);

    let fun_title = RentalAgreementTitle { rental_agreement_number: 1 };
    let fun_place_and_date = RentalAgreementPlaceAndDate {
        place: housing_data.address.city.clone(),
        date: now,
    };
    let fun_sides = SidesOfAgreement {
        tenant: person(tp, &tenant_initials, &requisites_data.tenant_phone, &requisites_data.tenant_email),
        landlord: person(
            lp,
            &landlord_initials,
            &requisites_data.landlord_phone,
            &requisites_data.landlord_email,
        ),
    };
    let fun_subject = SubjectOfAgreement {
        real_estate_data: RealEstateData {
            kind: housing_data.kind.clone(),
            address: housing_data.address.full_address(),
            area: housing_data.area,
        },
        ownership_record: OwnershipRecord { number: ownership_data.record_number.clone(), date: own_dt },
    };
    let fun_rights_and_obligations = RightsAndObligations {
        rental_payment_delay_limit: rent_data.rental_payment_delay_limit,
    };
    let fun_rental_payment = RentalPayment {
        rental_payment_data: RentalPaymentData {
            amount: rent_data.price,
            currency: rent_data.currency.clone(),
            destination: rent_data.destination.clone(),
            starting_date: start_dt,
            payment_day_number: rent_data.payment_day_number,
        },
    };
    let fun_agreement_conditions = AgreementConditions {
        agreement_conditions_data: AgreementConditionsData { starting_date: start_dt, ending_date: end_dt },
    };
    let fun_responsibility = Responsibility {  };
    let mut all_tenants: Vec<String> = Vec::new();
    all_tenants.push(tenant_initials.clone());
    let mut extra = rent_data.additional_tenants.clone();
    all_tenants.append(&mut extra);
    let fun_other_conditions = OtherConditions {
        other_conditions_data: OtherConditionsData {
            min_notice_days_for_visit: rent_data.min_notice_days_for_visit,
            all_tenants,
            allowed_animals: rent_data.allowed_animals.clone(),
        },
    };
    let fun_signatures = Signatures {
        tenant: person(tp, &tenant_initials, &requisites_data.tenant_phone, &requisites_data.tenant_email),
        landlord: person(
            lp,
            &landlord_initials,
            &requisites_data.landlord_phone,
            &requisites_data.landlord_email,
        ),
    };
    let additional_property = collect_additional_property(&rent_data.additional_property);
    proof {
        assert(property_terms(additional_property@) =~= property_entry_terms(
            collect_properties(rent_data.additional_property@),
        ));
        assert(fun_other_conditions.other_conditions_data.all_tenants@ =~= seq![tenant_initials]
            + rent_data.additional_tenants@);
        assert(str_list_terms(fun_other_conditions.other_conditions_data.all_tenants@) =~= seq![
            TypstTerm::Str(initials_text(*tp)),
        ] + str_list_terms(rent_data.additional_tenants@));
    }
    let fun_appendix_one = AppendixOne {
        appendix_one_data: AppendixOneData {
            starting_date: now,
            place: housing_data.address.city.clone(),
            tenant_initials: tenant_initials.clone(),
            landlord_initials: landlord_initials.clone(),
            additional_property,
            meter_readings: rent_data.meter_readings,
        },
    };
    let fun_appendix_two = AppendixTwo {
        appendix_two_data: AppendixTwoData {
            starting_date: now,
            place: housing_data.address.city.clone(),
            tenant_initials: tenant_initials.clone(),
            landlord_initials: landlord_initials.clone(),
        },
    };

    let c1 = section_text(fun_title.to_typst())?;
    let c2 = section_text(fun_place_and_date.to_typst())?;
    let c3 = section_text(fun_sides.to_typst())?;
    let c4 = section_text(fun_subject.to_typst())?;
    let c5 = section_text(fun_rights_and_obligations.to_typst())?;
    let c6 = section_text(fun_rental_payment.to_typst())?;
    let c7 = section_text(fun_agreement_conditions.to_typst())?;
    let c8 = section_text(fun_responsibility.to_typst())?;
    let c9 = section_text(fun_other_conditions.to_typst())?;
    let c10 = section_text(fun_signatures.to_typst())?;
    let c11 = section_text(fun_appendix_one.to_typst())?;
    let c12 = section_text(fun_appendix_two.to_typst())?;
    let calls = vec![c1, c2, c3, c4, c5, c6, c7, c8, c9, c10, c11, c12];
    let all_calls = join_lines_exec(&calls);
    proof {
        let expected = agreement_calls(
            *tenant_data,
            *landlord_data,
            housing0,
            rent0,
            requisites_data,
            ownership_data,
            today,
            own_date,
            start,
            end,
        );
        assert(Seq::new(calls@.len(), |i: int| calls@[i]@) =~= expected);
    }
    let mut document = template.to_string();
    document.append(all_calls.as_str());
    Ok(document)
}

/// The refusal given when the clock cannot be read as a date.
pub open spec fn clock_unreadable_text() -> Seq<char> {
    "the system clock does not give a date"@
}

/// Builds the agreement document, dated today in Kyiv. The clock is read
/// first; when it reads before 1970 the request fails with an internal error.
pub fn generate(
    template: &str,
    tenant_data: &DocumentUnit,
    landlord_data: &DocumentUnit,
    housing_data: HousingData,
    rent_data: RentData,
    requisites_data: RequisitesData,
    ownership_data: OwneshipData,
) -> (r: Result<String, ServerError>)
    ensures
        dates_unreadable(rent_data, ownership_data) ==> r is Err,
        r matches Err(ServerError::BadRequest(_)) ==> dates_unreadable(rent_data, ownership_data),
        r matches Err(e) ==> (e is BadRequest || (e matches ServerError::Internal(m) && m@
            == clock_unreadable_text())),
        !dates_unreadable(rent_data, ownership_data) ==> (r is Ok || r matches Err(
            ServerError::Internal(_),
        )),
        r matches Ok(t) ==> exists|today: (u32, u32, i32)|
            1 <= today.0 <= 31 && 1 <= today.1 <= 12 && t@ == agreement_document(
                template@,
                *tenant_data,
                *landlord_data,
                housing_data,
                rent_data,
                requisites_data,
                ownership_data,
                today,
                utc_kyiv_date(ownership_data.date).unwrap(),
                utc_kyiv_date(rent_data.start).unwrap(),
                utc_kyiv_date(rent_data.end).unwrap(),
            ),
{
    let today = match kyiv_today() {
        Some(d) => d,
        None => {
            return Err(ServerError::Internal("the system clock does not give a date".to_string()));
        },
    };
    generate_on(
        template,
        tenant_data,
        landlord_data,
        housing_data,
        rent_data,
        requisites_data,
        ownership_data,
        today,
    )
}

/// The readings of a meter are written in the order given, each as the
/// number of its text.
pub proof fn law_readings_keep_their_order(m: MeterReadingData)
    ensures
        ({
            let t = m.typst_term();
            exists|l: Seq<TypstTerm>|
                {
                    &&& t == TypstTerm::Struct(
                        seq![("type"@, TypstTerm::Str(m.kind@)), ("readings"@, TypstTerm::List(l))],
                    )
                    &&& l.len() == m.readings@.len()
                    &&& forall|i: int| 0 <= i < l.len() ==> #[trigger] l[i] == TypstTerm::Number(m.readings@[i]@)
                }
        }),
{
    let l = number_list_terms(m.readings@);
    assert(m.typst_term() == TypstTerm::Struct(
        seq![("type"@, TypstTerm::Str(m.kind@)), ("readings"@, TypstTerm::List(l))],
    ));
}

/// The other-conditions section lists as tenants the tenant, by the initials
/// of the passport, followed by the additional tenants in the order given,
/// whatever their number; the allowed animals follow in their order.
pub proof fn law_all_tenants_start_with_the_tenant(
    tenant: DocumentUnit,
    landlord: DocumentUnit,
    housing: HousingData,
    rent: RentData,
    req: RequisitesData,
    own: OwneshipData,
    today: (u32, u32, i32),
    own_date: (u32, u32, i32),
    start: (u32, u32, i32),
    end: (u32, u32, i32),
)
    ensures
        ({
            let calls = agreement_calls(tenant, landlord, housing, rent, req, own, today, own_date, start, end);
            let add = rent.additional_tenants@;
            let animals = rent.allowed_animals@;
            exists|tenants: Seq<TypstTerm>, pets: Seq<TypstTerm>|
                {
                    &&& tenants.len() == 1 + add.len()
                    &&& tenants[0] == TypstTerm::Str(
                        tenant.internal_passport.last_name_ua@ + " "@ + tenant.internal_passport.first_name_ua@
                            + " "@ + tenant.internal_passport.middle_name_ua@,
                    )
                    &&& forall|i: int| 0 <= i < add.len() ==> #[trigger] tenants[i + 1] == TypstTerm::Str(add[i]@)
                    &&& pets.len() == animals.len()
                    &&& forall|i: int| 0 <= i < animals.len() ==> #[trigger] pets[i] == TypstTerm::Str(animals[i]@)
                    &&& calls[8] == call_text(
                        "other_conditions"@,
                        TypstTerm::Struct(
                            seq![
                                (
                                    "other_conditions_data"@,
                                    TypstTerm::Struct(
                                        seq![
                                            (
                                                "min_notice_days_for_visit"@,
                                                TypstTerm::Int(rent.min_notice_days_for_visit as int),
                                            ),
                                            ("all_tenants"@, TypstTerm::List(tenants)),
                                            ("allowed_animals"@, TypstTerm::List(pets)),
                                        ],
                                    ),
                                ),
                            ],
                        ),
                    )
                }
        }),
{
    let tenants = seq![TypstTerm::Str(initials_text(tenant.internal_passport))] + str_list_terms(
        rent.additional_tenants@,
    );
    let pets = str_list_terms(rent.allowed_animals@);
    assert forall|i: int| 0 <= i < rent.additional_tenants@.len() implies #[trigger] tenants[i + 1]
        == TypstTerm::Str(rent.additional_tenants@[i]@) by {}
    assert(tenants[0] == TypstTerm::Str(initials_text(tenant.internal_passport)));
    assert(tenants.len() == 1 + rent.additional_tenants@.len());
    assert(pets.len() == rent.allowed_animals@.len());
    let calls = agreement_calls(tenant, landlord, housing, rent, req, own, today, own_date, start, end);
    let body = TypstTerm::Struct(
        seq![
            (
                "other_conditions_data"@,
                TypstTerm::Struct(
                    seq![
                        ("min_notice_days_for_visit"@, TypstTerm::Int(rent.min_notice_days_for_visit as int)),
                        ("all_tenants"@, TypstTerm::List(tenants)),
                        ("allowed_animals"@, TypstTerm::List(pets)),
                    ],
                ),
            ),
        ],
    );
    assert(calls[8] == call_text("other_conditions"@, body));
    assert(forall|i: int| 0 <= i < rent.allowed_animals@.len() ==> #[trigger] pets[i] == TypstTerm::Str(rent.allowed_animals@[i]@));
}

} // verus!
