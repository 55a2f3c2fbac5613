use vstd::prelude::*;
use crate::codec::{decode_data_set, decoded_data_set};
use crate::dataset::{
    first_item, first_value, first_value_of, text_of, DataSet, Tag, ACCESSION_NUMBER, MODALITY, PATIENT_BIRTH_DATE, PATIENT_ID,
    PATIENT_NAME, PATIENT_SEX, SCHEDULED_PROCEDURE_STEP_SEQUENCE, STUDY_INSTANCE_UID,
};

verus! {

/// One worklist entry as delivered to the caller. The modality comes from the first
/// scheduled procedure step, every other field from the top level of the response.
pub struct DicomData {
    pub accession_number: String,
    pub study_instance_uid: String,
    pub patient_name: String,
    pub patient_id: String,
    pub patient_sex: String,
    pub patient_birth_date: String,
    pub modality: String,
}

/// The fields of a [`DicomData`] as character sequences.
pub struct DicomDataView {
    pub accession_number: Seq<char>,
    pub study_instance_uid: Seq<char>,
    pub patient_name: Seq<char>,
    pub patient_id: Seq<char>,
    pub patient_sex: Seq<char>,
    pub patient_birth_date: Seq<char>,
    pub modality: Seq<char>,
}

impl View for DicomData {
    type V = DicomDataView;

    open spec fn view(&self) -> DicomDataView {
        DicomDataView {
            accession_number: self.accession_number@,
            study_instance_uid: self.study_instance_uid@,
            patient_name: self.patient_name@,
            patient_id: self.patient_id@,
            patient_sex: self.patient_sex@,
            patient_birth_date: self.patient_birth_date@,
            modality: self.modality@,
        }
    }
}

/// The modality of the first item of the scheduled procedure step sequence of `ds`, its
/// first value where it holds several; empty when the sequence is absent or empty, or
/// its first item has no modality.
pub open spec fn modality_of(ds: DataSet) -> Seq<char> {
    match first_item(ds, Tag::of(SCHEDULED_PROCEDURE_STEP_SEQUENCE)) {
        Some(item) => first_value_of(text_of(item, Tag::of(MODALITY))),
        None => Seq::empty(),
    }
}

/// The record that a response identifier `ds` yields.
pub open spec fn record_of(ds: DataSet) -> DicomDataView {
    DicomDataView {
        accession_number: text_of(ds, Tag::of(ACCESSION_NUMBER)),
        study_instance_uid: text_of(ds, Tag::of(STUDY_INSTANCE_UID)),
        patient_name: text_of(ds, Tag::of(PATIENT_NAME)),
        patient_id: text_of(ds, Tag::of(PATIENT_ID)),
        patient_sex: text_of(ds, Tag::of(PATIENT_SEX)),
        patient_birth_date: text_of(ds, Tag::of(PATIENT_BIRTH_DATE)),
        modality: modality_of(ds),
    }
}

/// Reads the modality nested in the scheduled procedure step sequence; a missing
/// sequence, item or attribute gives the empty string; of several values, the first.
pub fn extract_modality(dicom_obj: &DataSet) -> (r: String)
    ensures
        r@ == modality_of(*dicom_obj),
{
    match dicom_obj.first_item(Tag::from_code(SCHEDULED_PROCEDURE_STEP_SEQUENCE)) {
        Some(item) => first_value(item.text(Tag::from_code(MODALITY)).as_str()),
        None => String::new(),
    }
}

/// Maps a response identifier to a record; absent attributes read as empty strings.
pub fn extract_record(ds: &DataSet) -> (r: DicomData)
    ensures
        r@ == record_of(*ds),
{
    DicomData {
        accession_number: ds.text(Tag::from_code(ACCESSION_NUMBER)),
        study_instance_uid: ds.text(Tag::from_code(STUDY_INSTANCE_UID)),
        patient_name: ds.text(Tag::from_code(PATIENT_NAME)),
        patient_id: ds.text(Tag::from_code(PATIENT_ID)),
        patient_sex: ds.text(Tag::from_code(PATIENT_SEX)),
        patient_birth_date: ds.text(Tag::from_code(PATIENT_BIRTH_DATE)),
        modality: extract_modality(ds),
    }
}

/// Reads a response identifier from `bytes` in the transfer syntax with UID `ts` and
/// maps it to a record; `None` where the bytes cannot be decoded.
pub fn decode_record(bytes: &[u8], ts: &str) -> (r: Option<DicomData>)
    ensures
        match decoded_data_set(bytes@, ts@) {
            Some(ds) => r matches Some(d) && d@ == record_of(ds),
            None => r is None,
        },
{
    match decode_data_set(bytes, ts) {
        Some(ds) => Some(extract_record(&ds)),
        None => None,
    }
}

} // verus!
