use vstd::prelude::*;
use dicom_core::value::{DataSetSequence, PrimitiveValue, Value as DicomValue};
use dicom_core::header::{Header, Length};
use dicom_core::DataElement;
use dicom_encoding::TransferSyntaxIndex;
use dicom_object::InMemDicomObject;
use dicom_transfer_syntax_registry::TransferSyntaxRegistry;
use crate::dataset::{DataSet, Element, Tag, Value};

verus! {

/// `dicom_object::InMemDicomObject`, the codec's in-memory data set; opaque here, it only
/// passes between the conversions below and the codec.
#[verifier::external_type_specification]
#[verifier::external_body]
#[verifier::reject_recursive_types(D)]
pub struct ExInMemDicomObject<D>(dicom_object::InMemDicomObject<D>);

/// `dicom_dictionary_std::StandardDataDictionary`, the default dictionary parameter of
/// `InMemDicomObject`; opaque.
#[verifier::external_type_specification]
#[verifier::external_body]
pub struct ExStandardDataDictionary(dicom_dictionary_std::StandardDataDictionary);

/// `dicom_core::DataElement`, the codec's element; opaque.
#[verifier::external_type_specification]
#[verifier::external_body]
#[verifier::reject_recursive_types(I)]
#[verifier::reject_recursive_types(P)]
pub struct ExDataElement<I, P>(dicom_core::DataElement<I, P>);


/// Whether the local transfer syntax registry holds the syntax with this UID.
pub uninterp spec fn registry_has(uid: Seq<char>) -> bool;

/// The bytes of a data set written in a transfer syntax, or `None` where the codec fails.
pub uninterp spec fn encoded_data_set(ds: DataSet, ts: Seq<char>) -> Option<Seq<u8>>;

/// The bytes of a command set (with its group length) in Implicit VR Little Endian.
pub uninterp spec fn encoded_command(ds: DataSet) -> Option<Seq<u8>>;

/// The data set that the codec reads from bytes in a transfer syntax, or `None` where it fails.
pub uninterp spec fn decoded_data_set(bytes: Seq<u8>, ts: Seq<char>) -> Option<DataSet>;

/// The contents of an optional byte buffer.
pub open spec fn bytes_of(r: Option<Vec<u8>>) -> Option<Seq<u8>> {
    match r {
        Some(b) => Some(b@),
        None => None,
    }
}

/// Relies on `TransferSyntaxRegistry::get` (dicom-transfer-syntax-registry):
/// whether a transfer syntax with this UID is registered.
#[verifier::external_body]
pub(crate) fn transfer_syntax_known(uid: &str) -> (r: bool)
    ensures
        r == registry_has(uid@),
{
    TransferSyntaxRegistry.get(uid).is_some()
}

/// Relies on `dicom_dictionary_std::uids::MODALITY_WORKLIST_INFORMATION_MODEL_FIND`:
/// the UID of the Modality Worklist Information Model FIND SOP class.
#[verifier::external_body]
pub(crate) fn worklist_find_sop_class() -> (r: &'static str)
    ensures
        r@ == "1.2.840.10008.5.1.4.31"@,
{
    dicom_dictionary_std::uids::MODALITY_WORKLIST_INFORMATION_MODEL_FIND
}

/// Relies on `dicom_transfer_syntax_registry::entries::IMPLICIT_VR_LITTLE_ENDIAN`: the
/// UID of Implicit VR Little Endian, the transfer syntax of every command set.
#[verifier::external_body]
pub(crate) fn implicit_vr_little_endian() -> (r: &'static str)
    ensures
        r@ == "1.2.840.10008.1.2"@,
{
    dicom_transfer_syntax_registry::entries::IMPLICIT_VR_LITTLE_ENDIAN.uid()
}

/// Relies on `DataElement::new` and `InMemDicomObject::from_element_iter` (dicom-core,
/// dicom-object): the codec's in-memory copy of a data set. Only converts.
#[verifier::external_body]
fn to_dicom_object(ds: &DataSet) -> InMemDicomObject {
    InMemDicomObject::from_element_iter(ds.elements.iter().map(to_dicom_element))
}

/// Relies on `DataElement::new` (dicom-core): the codec's copy of one element. Only converts.
#[verifier::external_body]
fn to_dicom_element(e: &Element) -> DataElement<InMemDicomObject, Vec<u8>> {
    let value: DicomValue<InMemDicomObject, Vec<u8>> = match &e.value {
        Value::Text(s) => PrimitiveValue::from(s.as_str()).into(),
        Value::U16(v) => PrimitiveValue::U16(v.iter().copied().collect()).into(),
        Value::Items(items) => DataSetSequence::new(
            items.iter().map(to_dicom_object).collect::<Vec<_>>(),
            Length::UNDEFINED,
        ).into(),
    };
    DataElement::new(dicom_core::Tag(e.tag.group, e.tag.element), e.vr, value)
}

/// Relies on `InMemDicomObject::iter` (dicom-object): the elements of a codec object,
/// in tag order, as a data set of this library. Only converts.
#[verifier::external_body]
fn from_dicom_object(obj: &InMemDicomObject) -> DataSet {
    DataSet { elements: obj.iter().map(from_dicom_element).collect() }
}

/// Relies on `PrimitiveValue::to_str` (dicom-core): unsigned 16-bit values are kept as
/// numbers, other primitive values as the codec's text of them. Only converts.
#[verifier::external_body]
fn from_dicom_element(e: &DataElement<InMemDicomObject, Vec<u8>>) -> Element {
    let value = match e.value() {
        DicomValue::Primitive(PrimitiveValue::U16(v)) => Value::U16(v.to_vec()),
        DicomValue::Primitive(p) => Value::Text(p.to_str().into_owned()),
        DicomValue::Sequence(s) => Value::Items(s.items().iter().map(from_dicom_object).collect()),
        DicomValue::PixelSequence(_) => Value::Text(String::new()),
    };
    Element { tag: Tag { group: e.tag().0, element: e.tag().1 }, vr: e.vr(), value }
}

/// Relies on `InMemDicomObject::write_dataset_with_ts` (dicom-object): the bytes of
/// `ds` in the transfer syntax with UID `ts`, looked up in the registry.
#[verifier::external_body]
pub(crate) fn encode_data_set(ds: &DataSet, ts: &str) -> (r: Option<Vec<u8>>)
    ensures
        bytes_of(r) == encoded_data_set(*ds, ts@),
{
    let ts = TransferSyntaxRegistry.get(ts)?;
    let mut out = Vec::new();
    to_dicom_object(ds).write_dataset_with_ts(&mut out, ts).ok()?;
    Some(out)
}

/// Relies on `InMemDicomObject::command_from_element_iter`, which adds the command group
/// length, and `write_dataset_with_ts` with Implicit VR Little Endian (dicom-object).
#[verifier::external_body]
pub(crate) fn encode_command(ds: &DataSet) -> (r: Option<Vec<u8>>)
    ensures
        bytes_of(r) == encoded_command(*ds),
{
    let obj = InMemDicomObject::command_from_element_iter(ds.elements.iter().map(to_dicom_element));
    let ts = dicom_transfer_syntax_registry::entries::IMPLICIT_VR_LITTLE_ENDIAN.erased();
    let mut out = Vec::new();
    obj.write_dataset_with_ts(&mut out, &ts).ok()?;
    Some(out)
}

/// Relies on `InMemDicomObject::read_dataset_with_ts` (dicom-object): the data set in
/// `bytes`, read in the transfer syntax with UID `ts`, looked up in the registry.
#[verifier::external_body]
pub(crate) fn decode_data_set(bytes: &[u8], ts: &str) -> (r: Option<DataSet>)
    ensures
        r == decoded_data_set(bytes@, ts@),
{
    let ts = TransferSyntaxRegistry.get(ts)?;
    let obj = InMemDicomObject::read_dataset_with_ts(bytes, ts).ok()?;
    Some(from_dicom_object(&obj))
}

} // verus!
