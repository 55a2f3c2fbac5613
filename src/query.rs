use vstd::prelude::*;
use dicom_core::VR;
use crate::codec::{bytes_of, encode_data_set, encoded_data_set};
use crate::dataset::{
    DataSet, Element, Tag, Value, ACCESSION_NUMBER, AFFECTED_SOP_CLASS_UID, COMMAND_DATA_SET_TYPE,
    COMMAND_FIELD, MESSAGE_ID, MODALITY, PATIENT_BIRTH_DATE, PATIENT_ID, PATIENT_NAME, PATIENT_SEX,
    PRIORITY, SCHEDULED_PROCEDURE_STEP_SEQUENCE, SCHEDULED_PROCEDURE_STEP_START_DATE,
    STUDY_INSTANCE_UID, WORKLIST_LABEL,
};

verus! {

/// The filter and return keys of one worklist query.
///
/// Each flat attribute is either a wildcard that matches everything or empty,
/// which asks the server to return the attribute for every match. The scheduled
/// procedure step fields make up the single item of the nested sequence.
pub struct QueryIdentifier {
    pub patient_name: String,
    pub patient_id: String,
    pub study_instance_uid: String,
    pub patient_sex: String,
    pub patient_birth_date: String,
    pub accession_number: String,
    pub worklist_label: String,
    pub scheduled_start_date: String,
    pub scheduled_modality: String,
}

/// `e` is the textual element `code` with representation `vr` and value `s`.
pub open spec fn is_text_element(e: Element, code: u32, vr: VR, s: String) -> bool {
    &&& e.tag == Tag::of(code)
    &&& e.vr == vr
    &&& e.value == Value::Text(s)
}

/// `e` is the element `code` of representation US holding the single value `v`.
pub open spec fn is_u16_element(e: Element, code: u32, v: u16) -> bool {
    &&& e.tag == Tag::of(code)
    &&& e.vr == VR::US
    &&& e.value matches Value::U16(vals)
    &&& vals@ == seq![v]
}

/// `ds` is the data set of the scheduled procedure step item of `q`.
pub open spec fn is_step_item_of(ds: DataSet, q: QueryIdentifier) -> bool {
    &&& ds.elements@.len() == 2
    &&& is_text_element(ds.elements@[0], SCHEDULED_PROCEDURE_STEP_START_DATE, VR::DA, q.scheduled_start_date)
    &&& is_text_element(ds.elements@[1], MODALITY, VR::CS, q.scheduled_modality)
}

/// `ds` is the identifier data set of `q`: the flat attributes in order, then the
/// scheduled procedure step sequence with exactly one item.
pub open spec fn is_identifier_of(ds: DataSet, q: QueryIdentifier) -> bool {
    &&& ds.elements@.len() == 8
    &&& is_text_element(ds.elements@[0], PATIENT_NAME, VR::PN, q.patient_name)
    &&& is_text_element(ds.elements@[1], PATIENT_ID, VR::LO, q.patient_id)
    &&& is_text_element(ds.elements@[2], STUDY_INSTANCE_UID, VR::UI, q.study_instance_uid)
    &&& is_text_element(ds.elements@[3], PATIENT_SEX, VR::CS, q.patient_sex)
    &&& is_text_element(ds.elements@[4], PATIENT_BIRTH_DATE, VR::DA, q.patient_birth_date)
    &&& is_text_element(ds.elements@[5], ACCESSION_NUMBER, VR::SH, q.accession_number)
    &&& is_text_element(ds.elements@[6], WORKLIST_LABEL, VR::LO, q.worklist_label)
    &&& ds.elements@[7].tag == Tag::of(SCHEDULED_PROCEDURE_STEP_SEQUENCE)
    &&& ds.elements@[7].vr == VR::SQ
    &&& ds.elements@[7].value matches Value::Items(items)
    &&& items@.len() == 1
    &&& is_step_item_of(items@[0], q)
}

/// `ds` is the C-FIND request command set for `sop_class` with message number `id`:
/// command field 0x0020, medium priority (0x0000), a data set present (0x0001).
pub open spec fn is_find_command(ds: DataSet, sop_class: Seq<char>, id: u16) -> bool {
    &&& ds.elements@.len() == 5
    &&& ds.elements@[0].tag == Tag::of(AFFECTED_SOP_CLASS_UID)
    &&& ds.elements@[0].vr == VR::UI
    &&& ds.elements@[0].value matches Value::Text(s)
    &&& s@ == sop_class
    &&& is_u16_element(ds.elements@[1], COMMAND_FIELD, 0x0020)
    &&& is_u16_element(ds.elements@[2], MESSAGE_ID, id)
    &&& is_u16_element(ds.elements@[3], PRIORITY, 0x0000)
    &&& is_u16_element(ds.elements@[4], COMMAND_DATA_SET_TYPE, 0x0001)
}

/// The query that asks for every scheduled entry under universal matching: any patient
/// name (`*`), and every other attribute, the schedule's start date and modality
/// included, empty so that the server returns it for each match.
pub fn build_query() -> (q: QueryIdentifier)
    ensures
        q.patient_name@ == "*"@,
        q.patient_id@.len() == 0,
        q.study_instance_uid@.len() == 0,
        q.patient_sex@.len() == 0,
        q.patient_birth_date@.len() == 0,
        q.accession_number@.len() == 0,
        q.worklist_label@.len() == 0,
        q.scheduled_start_date@.len() == 0,
        q.scheduled_modality@.len() == 0,
{
    QueryIdentifier {
        patient_name: "*".to_owned(),
        patient_id: String::new(),
        study_instance_uid: String::new(),
        patient_sex: String::new(),
        patient_birth_date: String::new(),
        accession_number: String::new(),
        worklist_label: String::new(),
        scheduled_start_date: String::new(),
        scheduled_modality: String::new(),
    }
}

impl QueryIdentifier {
    /// The identifier data set that carries this query.
    pub fn to_data_set(&self) -> (ds: DataSet)
        ensures
            is_identifier_of(ds, *self),
    {
        let mut step = DataSet::new();
        step.push(Element::text(Tag::from_code(SCHEDULED_PROCEDURE_STEP_START_DATE), VR::DA, self.scheduled_start_date.clone()));
        step.push(Element::text(Tag::from_code(MODALITY), VR::CS, self.scheduled_modality.clone()));
        let mut ds = DataSet::new();
        ds.push(Element::text(Tag::from_code(PATIENT_NAME), VR::PN, self.patient_name.clone()));
        ds.push(Element::text(Tag::from_code(PATIENT_ID), VR::LO, self.patient_id.clone()));
        ds.push(Element::text(Tag::from_code(STUDY_INSTANCE_UID), VR::UI, self.study_instance_uid.clone()));
        ds.push(Element::text(Tag::from_code(PATIENT_SEX), VR::CS, self.patient_sex.clone()));
        ds.push(Element::text(Tag::from_code(PATIENT_BIRTH_DATE), VR::DA, self.patient_birth_date.clone()));
        ds.push(Element::text(Tag::from_code(ACCESSION_NUMBER), VR::SH, self.accession_number.clone()));
        ds.push(Element::text(Tag::from_code(WORKLIST_LABEL), VR::LO, self.worklist_label.clone()));
        let mut items: Vec<DataSet> = Vec::new();
        items.push(step);
        ds.push(Element {
            tag: Tag::from_code(SCHEDULED_PROCEDURE_STEP_SEQUENCE),
            vr: VR::SQ,
            value: Value::Items(items),
        });
        ds
    }

    /// The identifier of this query encoded in the transfer syntax with UID `ts`;
    /// `None` where that syntax is unknown or the codec cannot write it.
    pub fn encode(&self, ts: &str) -> (r: Option<Vec<u8>>)
        ensures
            exists|ds: DataSet| is_identifier_of(ds, *self) && bytes_of(r) == encoded_data_set(ds, ts@),
    {
        let ds = self.to_data_set();
        encode_data_set(&ds, ts)
    }
}

/// A single unsigned 16-bit element.
fn u16_element(code: u32, v: u16) -> (e: Element)
    ensures
        is_u16_element(e, code, v),
{
    let mut vals: Vec<u16> = Vec::new();
    vals.push(v);
    Element { tag: Tag::from_code(code), vr: VR::US, value: Value::U16(vals) }
}

/// The C-FIND request command set for `sop_class_uid` with message number `message_id`.
pub fn find_req_command(sop_class_uid: &str, message_id: u16) -> (ds: DataSet)
    ensures
        is_find_command(ds, sop_class_uid@, message_id),
{
    let mut ds = DataSet::new();
    ds.push(Element::text(Tag::from_code(AFFECTED_SOP_CLASS_UID), VR::UI, sop_class_uid.to_owned()));
    ds.push(u16_element(COMMAND_FIELD, 0x0020));
    ds.push(u16_element(MESSAGE_ID, message_id));
    ds.push(u16_element(PRIORITY, 0x0000));
    ds.push(u16_element(COMMAND_DATA_SET_TYPE, 0x0001));
    ds
}

} // verus!
