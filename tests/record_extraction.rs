use dicom_core::VR;
use worklist_query::dataset::{
    DataSet, Element, Tag, Value, ACCESSION_NUMBER, MODALITY, PATIENT_BIRTH_DATE, PATIENT_ID,
    PATIENT_NAME, PATIENT_SEX, SCHEDULED_PROCEDURE_STEP_SEQUENCE, STUDY_INSTANCE_UID,
};
use worklist_query::dataset::first_value;
use worklist_query::record::{extract_modality, extract_record};

fn txt(code: u32, vr: VR, s: &str) -> Element {
    Element::text(Tag::from_code(code), vr, s.to_string())
}

fn steps(items: Vec<DataSet>) -> Element {
    Element { tag: Tag::from_code(SCHEDULED_PROCEDURE_STEP_SEQUENCE), vr: VR::SQ, value: Value::Items(items) }
}

fn full_response() -> DataSet {
    let step = DataSet { elements: vec![txt(MODALITY, VR::CS, "MR")] };
    DataSet {
        elements: vec![
            txt(ACCESSION_NUMBER, VR::SH, "A100"),
            txt(PATIENT_NAME, VR::PN, "Doe^Jane"),
            txt(PATIENT_ID, VR::LO, "PAT-1"),
            txt(PATIENT_BIRTH_DATE, VR::DA, "19700203"),
            txt(PATIENT_SEX, VR::CS, "F"),
            txt(STUDY_INSTANCE_UID, VR::UI, "1.2.3"),
            steps(vec![step]),
        ],
    }
}

#[test]
fn record_takes_every_field() {
    let r = extract_record(&full_response());
    assert_eq!(r.accession_number, "A100");
    assert_eq!(r.study_instance_uid, "1.2.3");
    assert_eq!(r.patient_name, "Doe^Jane");
    assert_eq!(r.patient_id, "PAT-1");
    assert_eq!(r.patient_sex, "F");
    assert_eq!(r.patient_birth_date, "19700203");
    assert_eq!(r.modality, "MR");
}

#[test]
fn missing_step_sequence_gives_empty_modality() {
    let ds = DataSet { elements: vec![txt(PATIENT_NAME, VR::PN, "Doe^John")] };
    let r = extract_record(&ds);
    assert_eq!(r.modality, "");
    assert_eq!(r.patient_name, "Doe^John");
}

#[test]
fn empty_step_sequence_gives_empty_modality() {
    let ds = DataSet { elements: vec![steps(vec![])] };
    assert_eq!(extract_modality(&ds), "");
}

#[test]
fn step_item_without_modality_gives_empty_modality() {
    let item = DataSet { elements: vec![txt(0x0040_0002, VR::DA, "20240101")] };
    let second = DataSet { elements: vec![txt(MODALITY, VR::CS, "CT")] };
    let ds = DataSet { elements: vec![steps(vec![item, second])] };
    assert_eq!(extract_modality(&ds), "");
}

#[test]
fn modality_comes_from_the_first_item() {
    let first = DataSet { elements: vec![txt(MODALITY, VR::CS, "US")] };
    let second = DataSet { elements: vec![txt(MODALITY, VR::CS, "CT")] };
    let ds = DataSet { elements: vec![steps(vec![first, second])] };
    assert_eq!(extract_modality(&ds), "US");
}

#[test]
fn absent_attributes_read_as_empty() {
    let r = extract_record(&DataSet::new());
    assert_eq!(r.accession_number, "");
    assert_eq!(r.study_instance_uid, "");
    assert_eq!(r.patient_name, "");
    assert_eq!(r.patient_id, "");
    assert_eq!(r.patient_sex, "");
    assert_eq!(r.patient_birth_date, "");
    assert_eq!(r.modality, "");
}

#[test]
fn non_textual_attribute_reads_as_empty() {
    let ds = DataSet {
        elements: vec![Element { tag: Tag::from_code(PATIENT_ID), vr: VR::US, value: Value::U16(vec![3]) }],
    };
    assert_eq!(extract_record(&ds).patient_id, "");
}

#[test]
fn first_element_with_a_tag_wins() {
    let ds = DataSet { elements: vec![txt(PATIENT_ID, VR::LO, "first"), txt(PATIENT_ID, VR::LO, "second")] };
    assert_eq!(ds.text(Tag::from_code(PATIENT_ID)), "first");
}

#[test]
fn multi_valued_modality_gives_its_first_value() {
    let step = DataSet { elements: vec![txt(MODALITY, VR::CS, "CT\\MR")] };
    let ds = DataSet { elements: vec![steps(vec![step])] };
    assert_eq!(extract_modality(&ds), "CT");
    assert_eq!(extract_record(&ds).modality, "CT");
}

#[test]
fn first_value_splits_at_the_first_backslash() {
    assert_eq!(first_value("CT\\MR\\US"), "CT");
    assert_eq!(first_value("MR"), "MR");
    assert_eq!(first_value(""), "");
    assert_eq!(first_value("\\MR"), "");
    assert_eq!(first_value("Ä\\B"), "Ä");
}

#[test]
fn flat_multi_valued_attribute_keeps_all_values() {
    let ds = DataSet { elements: vec![txt(PATIENT_ID, VR::LO, "A\\B")] };
    assert_eq!(extract_record(&ds).patient_id, "A\\B");
}
