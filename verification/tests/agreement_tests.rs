use kaze_backend::agreement::{
    collect_additional_property, generate, generate_on, AdditionalPropertyUnit, FunctionCall,
    HousingData, HousingDataAddress, MeterReadingData, MeterReadings, OwneshipData,
    RentData, RentalAgreementTitle, RequisitesData, Responsibility, RightsAndObligations,
    UtcDateTime,
};
use kaze_backend::eusign::{DocumentUnit, InternalPassport, TaxpayerCard};
use kaze_backend::server_error::ServerError;
use kaze_backend::typst::TypstDateTime;

fn s(x: &str) -> String {
    x.to_string()
}

fn passport(last: &str, first: &str, middle: &str, residence: &str, doc: &str, dep: &str) -> InternalPassport {
    InternalPassport {
        taxpayer_number: s("0"),
        residence_ua: s(residence),
        doc_number: s(doc),
        gender_ua: s(""),
        nationality_ua: s(""),
        last_name_ua: s(last),
        first_name_ua: s(first),
        middle_name_ua: s(middle),
        birthday: s(""),
        birth_place_ua: s(""),
        issue_date: s(""),
        expiration_date: s(""),
        record_number: s(""),
        department: s(dep),
        gender_en: s(""),
        id: s(""),
        last_name_en: s(""),
        first_name_en: s(""),
        file_name: s(""),
    }
}

fn card() -> TaxpayerCard {
    TaxpayerCard {
        creation_date: s(""),
        doc_number: s(""),
        last_name_ua: s(""),
        first_name_ua: s(""),
        middle_name_ua: s(""),
        birthday: s(""),
        file_name: s(""),
    }
}

fn utc(year: i32, month: u32, day: u32, hour: u32, minute: u32) -> UtcDateTime {
    UtcDateTime { year, month, day, hour, minute, second: 0 }
}

fn housing() -> HousingData {
    HousingData {
        address: HousingDataAddress {
            region: s("Київська"),
            city: s("Київ"),
            district: s("Печерський"),
            street: s("Хрещатик"),
            apartment_number: s("1"),
        },
        kind: s("Квартира"),
        area: 50,
    }
}

fn unit(name: &str, amount: u64, uah_price: u64) -> AdditionalPropertyUnit {
    AdditionalPropertyUnit { name: s(name), amount, uah_price }
}

fn rent(start: UtcDateTime) -> RentData {
    RentData {
        start,
        end: utc(2025, 1, 31, 0, 0),
        currency: s("UAH"),
        price: 10000,
        rental_payment_delay_limit: 5,
        destination: s("IBAN"),
        payment_day_number: 10,
        min_notice_days_for_visit: 3,
        additional_tenants: vec![s("Петро")],
        allowed_animals: vec![s("кіт")],
        additional_property: vec![unit("Стіл", 1, 500), unit("Стілець", 2, 100), unit("Стіл", 3, 600)],
        meter_readings: MeterReadings::default(),
    }
}

fn requisites() -> RequisitesData {
    RequisitesData {
        tenant_phone: s("+380001"),
        tenant_email: s("t@x"),
        landlord_phone: s("+380002"),
        landlord_email: s("l@x"),
    }
}

fn ownership() -> OwneshipData {
    OwneshipData { record_number: s("R-1"), date: utc(2020, 6, 15, 12, 0) }
}

fn tenant() -> DocumentUnit {
    DocumentUnit {
        taxpayer_card: card(),
        internal_passport: passport("Шевченко", "Тарас", "Григорович", "Київ", "123", "1234"),
    }
}

fn landlord() -> DocumentUnit {
    DocumentUnit {
        taxpayer_card: card(),
        internal_passport: passport("Франко", "Іван", "Якович", "Львів", "456", "4567"),
    }
}

#[test]
fn full_address_in_ukrainian() {
    assert_eq!(
        housing().address.full_address(),
        "Україна, Київська обл., м. Київ, Печерський р-н, вул. Хрещатик 1"
    );
}

#[test]
fn title_call() {
    let title = RentalAgreementTitle { rental_agreement_number: 42 };
    assert_eq!(title.function_name(), "rental_agreement_title");
    assert_eq!(title.to_typst().ok().unwrap(), "#rental_agreement_title(rental_agreement_number: 42)\n");
}

#[test]
fn responsibility_call_has_empty_arguments() {
    assert_eq!(Responsibility {}.to_typst().ok().unwrap(), "#responsibility()\n");
}

#[test]
fn rights_call() {
    let r = RightsAndObligations { rental_payment_delay_limit: 7 };
    assert_eq!(r.to_typst().ok().unwrap(), "#rights_and_obligations(rental_payment_delay_limit: 7)\n");
}

#[test]
fn meter_reading_default() {
    let m = MeterReadingData::default();
    assert_eq!(m.kind, "SingleRate");
    assert_eq!(m.readings, vec![s("0")]);
}

#[test]
fn additional_property_last_value_wins() {
    let props = collect_additional_property(&vec![unit("Стіл", 1, 500), unit("Стілець", 2, 100), unit("Стіл", 3, 600)]);
    assert_eq!(props.len(), 2);
    assert_eq!(props[0].0, "Стіл");
    assert_eq!((props[0].1.uah_price, props[0].1.amount), (600, 3));
    assert_eq!(props[1].0, "Стілець");
    assert_eq!((props[1].1.uah_price, props[1].1.amount), (100, 2));
    assert!(collect_additional_property(&vec![]).is_empty());
}

fn person(initials: &str, residence: &str, doc: &str, dep: &str, phone: &str, email: &str) -> String {
    format!(
        "(initials: \"{initials}\", address_of_residence: \"{residence}\", passport_data: (series: \"-\", number: \"{doc}\", issuing_authority: \"{dep}\"), phone_number: \"{phone}\", email: \"{email}\")"
    )
}

#[test]
fn whole_agreement_document() {
    let doc = generate_on(
        "TEMPLATE\n",
        &tenant(),
        &landlord(),
        housing(),
        rent(utc(2024, 1, 31, 23, 30)),
        requisites(),
        ownership(),
        (5, 3, 2024),
    )
    .ok()
    .unwrap();
    let t = "Шевченко Тарас Григорович";
    let l = "Франко Іван Якович";
    let parties = format!(
        "(tenant: {}, landlord: {})",
        person(t, "Київ", "123", "1234", "+380001", "t@x"),
        person(l, "Львів", "456", "4567", "+380002", "l@x")
    );
    let today = "datetime(day: 5, month: 3, year: 2024)";
    let start = "datetime(day: 1, month: 2, year: 2024)";
    let meter = "(type: \"SingleRate\", readings: (0, ))";
    let calls = vec![
        s("#rental_agreement_title(rental_agreement_number: 1)\n"),
        format!("#rental_agreement_place_and_date(place: \"Київ\", date: {today})\n"),
        format!("#sides_of_agreement{parties}\n"),
        s("#subject_of_agreement(real_estate_data: (type: \"Квартира\", address: \"Україна, Київська обл., м. Київ, Печерський р-н, вул. Хрещатик 1\", area: 50), ownership_record: (number: \"R-1\", date: datetime(day: 15, month: 6, year: 2020)))\n"),
        s("#rights_and_obligations(rental_payment_delay_limit: 5)\n"),
        format!("#rental_payment(rental_payment_data: (amount: 10000, currency: \"UAH\", destination: \"IBAN\", starting_date: {start}, payment_day_number: 10))\n"),
        format!("#agreement_conditions(agreement_conditions_data: (starting_date: {start}, ending_date: datetime(day: 31, month: 1, year: 2025)))\n"),
        s("#responsibility()\n"),
        format!("#other_conditions(other_conditions_data: (min_notice_days_for_visit: 3, all_tenants: (\"{t}\", \"Петро\", ), allowed_animals: (\"кіт\", )))\n"),
        format!("#signatures{parties}\n"),
        format!("#appendix_one(appendix_one_data: (starting_date: {today}, place: \"Київ\", tenant_initials: \"{t}\", landlord_initials: \"{l}\", additional_property: (\"Стіл\": (uah_price: 600, amount: 3), \"Стілець\": (uah_price: 100, amount: 2)), meter_readings: (electricity: {meter}, water: {meter}, heating: {meter}, gas: {meter})))\n"),
        format!("#appendix_two(appendix_two_data: (starting_date: {today}, place: \"Київ\", tenant_initials: \"{t}\", landlord_initials: \"{l}\"))\n"),
    ];
    let expected = format!("TEMPLATE\n{}", calls.join("\n"));
    assert_eq!(doc, expected);
}

#[test]
fn invalid_dates_are_a_bad_request() {
    let r = generate_on(
        "",
        &tenant(),
        &landlord(),
        housing(),
        rent(utc(2024, 2, 30, 0, 0)),
        requisites(),
        ownership(),
        (1, 1, 2024),
    );
    match r {
        Err(ServerError::BadRequest(m)) => assert_eq!(m, "invalid date in the request"),
        other => panic!("unexpected {:?}", other.is_ok()),
    }
}

#[test]
fn generate_dates_today() {
    let doc = generate("", &tenant(), &landlord(), housing(), rent(utc(2024, 6, 1, 9, 0)), requisites(), ownership())
        .ok()
        .unwrap();
    assert!(doc.starts_with("#rental_agreement_title(rental_agreement_number: 1)\n\n#rental_agreement_place_and_date(place: \"Київ\", date: datetime(day: "));
    assert!(doc.ends_with("))\n"));
    let _ = TypstDateTime { day: 1, month: 1, year: 2024 };
}

fn generated_on(start: UtcDateTime) -> bool {
    generate_on("", &tenant(), &landlord(), housing(), rent(start), requisites(), ownership(), (1, 1, 2024)).is_ok()
}

#[test]
fn leap_days_and_times_of_day() {
    assert!(generated_on(utc(2024, 2, 29, 23, 59)));
    assert!(!generated_on(utc(2023, 2, 29, 0, 0)));
    assert!(generated_on(utc(2000, 2, 29, 0, 0)));
    assert!(!generated_on(utc(1900, 2, 29, 0, 0)));
    assert!(!generated_on(utc(2024, 4, 31, 0, 0)));
    assert!(!generated_on(utc(2024, 13, 1, 0, 0)));
    assert!(!generated_on(utc(2024, 1, 0, 0, 0)));
    assert!(!generated_on(utc(2024, 1, 1, 24, 0)));
    assert!(!generated_on(utc(2024, 1, 1, 0, 60)));
    assert!(!generated_on(UtcDateTime { year: 2024, month: 1, day: 1, hour: 0, minute: 0, second: 60 }));
    assert!(!generated_on(utc(262143, 1, 1, 0, 0)));
}
