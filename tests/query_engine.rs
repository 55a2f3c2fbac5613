use dicom_core::header::Header;
use dicom_core::{DataElement, PrimitiveValue, VR};
use dicom_dictionary_std::tags;
use dicom_object::InMemDicomObject;
use dicom_transfer_syntax_registry::entries;
use worklist_query::dataset::{DataSet, Element, Tag, Value, STATUS};
use worklist_query::engine::{
    Action, DataFragment, Event, Message, Phase, PresentationContext, QueryError, WorklistQuery,
};
use worklist_query::query::build_query;
use worklist_query::record::DicomData;

const IMPLICIT: &str = "1.2.840.10008.1.2";
const EXPLICIT: &str = "1.2.840.10008.1.2.1";

fn response_command(status: u16) -> Vec<u8> {
    let obj = InMemDicomObject::command_from_element_iter([
        DataElement::new(tags::COMMAND_FIELD, VR::US, PrimitiveValue::from(0x8020u16)),
        DataElement::new(tags::MESSAGE_ID_BEING_RESPONDED_TO, VR::US, PrimitiveValue::from(1u16)),
        DataElement::new(tags::STATUS, VR::US, PrimitiveValue::from(status)),
    ]);
    let mut out = Vec::new();
    obj.write_dataset_with_ts(&mut out, &entries::IMPLICIT_VR_LITTLE_ENDIAN.erased()).unwrap();
    out
}

fn response_identifier(name: &str, accession: &str, modality: &str, ts: &str) -> Vec<u8> {
    let step = InMemDicomObject::from_element_iter([DataElement::new(tags::MODALITY, VR::CS, PrimitiveValue::from(modality))]);
    let obj = InMemDicomObject::from_element_iter([
        DataElement::new(tags::PATIENT_NAME, VR::PN, PrimitiveValue::from(name)),
        DataElement::new(tags::ACCESSION_NUMBER, VR::SH, PrimitiveValue::from(accession)),
        DataElement::new(
            tags::SCHEDULED_PROCEDURE_STEP_SEQUENCE,
            VR::SQ,
            dicom_core::value::DataSetSequence::from(vec![step]),
        ),
    ]);
    let ts = if ts == IMPLICIT { entries::IMPLICIT_VR_LITTLE_ENDIAN.erased() } else { entries::EXPLICIT_VR_LITTLE_ENDIAN.erased() };
    let mut out = Vec::new();
    obj.write_dataset_with_ts(&mut out, &ts).unwrap();
    out
}

fn data(bytes: Vec<u8>) -> Event {
    Event::Received(Message::Data(vec![DataFragment {
        presentation_context_id: 1,
        is_command: true,
        is_last: true,
        data: bytes,
    }]))
}

fn accepted(ts: &str) -> Event {
    Event::Accepted(vec![PresentationContext { id: 1, transfer_syntax: ts.to_string() }])
}

/// A query whose request has been sent, ready for responses.
fn sent_query(ts: &str) -> WorklistQuery {
    let mut q = WorklistQuery::new(&build_query());
    match q.handle(accepted(ts)) {
        Action::Send(r) => {
            assert_eq!(r.presentation_context_id, 1);
            assert!(!r.command.is_empty());
            assert!(!r.identifier.is_empty());
        }
        _ => panic!("expected the request to be sent"),
    }
    assert_eq!(q.phase(), Phase::Associated);
    assert!(matches!(q.handle(Event::Sent), Action::Receive));
    assert_eq!(q.phase(), Phase::QueryPending);
    q
}

fn status_set(code: u16) -> DataSet {
    DataSet { elements: vec![Element { tag: Tag::from_code(STATUS), vr: VR::US, value: Value::U16(vec![code]) }] }
}

fn result(q: WorklistQuery) -> Result<Vec<DicomData>, QueryError> {
    q.into_result().expect("the query is over")
}

#[test]
fn immediate_success_gives_empty_result() {
    let mut q = sent_query(IMPLICIT);
    assert!(matches!(q.handle(data(response_command(0x0000))), Action::Release));
    assert_eq!(q.phase(), Phase::Completed);
    assert_eq!(result(q).unwrap().len(), 0);
}

#[test]
fn pending_matches_come_out_in_send_order() {
    let mut q = sent_query(EXPLICIT);
    let names = ["Alpha^A", "Bravo^B", "Charlie^C"];
    for (i, name) in names.iter().enumerate() {
        let status = if i % 2 == 0 { 0xFF00 } else { 0xFF01 };
        assert!(matches!(q.handle(data(response_command(status))), Action::ReceiveIdentifier));
        let bytes = response_identifier(name, &format!("ACC{}", i), "CT", EXPLICIT);
        assert!(matches!(q.handle(Event::IdentifierReceived(bytes)), Action::Receive));
    }
    assert!(matches!(q.handle(data(response_command(0))), Action::Release));
    let records = result(q).unwrap();
    assert_eq!(records.len(), 3);
    assert_eq!(records[0].patient_name, "Alpha^A");
    assert_eq!(records[1].patient_name, "Bravo^B");
    assert_eq!(records[2].patient_name, "Charlie^C");
    assert_eq!(records[2].accession_number, "ACC2");
    assert_eq!(records[0].modality, "CT");
    assert_eq!(records[0].patient_id, "");
}

#[test]
fn rejected_status_fails_without_records() {
    let mut q = sent_query(IMPLICIT);
    assert!(matches!(q.handle(data(response_command(0xFF00))), Action::ReceiveIdentifier));
    let bytes = response_identifier("Doe^J", "A1", "MR", IMPLICIT);
    assert!(matches!(q.handle(Event::IdentifierReceived(bytes)), Action::Receive));
    assert!(matches!(q.handle(data(response_command(0xA700))), Action::Abort));
    assert_eq!(q.phase(), Phase::Failed);
    assert_eq!(result(q).err(), Some(QueryError::QueryRejected(0xA700)));
}

#[test]
fn on_command_decides_by_status() {
    let mut q = sent_query(IMPLICIT);
    assert!(matches!(q.on_command(Some(status_set(0xFF01))), Action::ReceiveIdentifier));
    assert!(matches!(q.on_identifier(Some(DataSet::new())), Action::Receive));
    assert!(matches!(q.on_command(Some(status_set(0x0000))), Action::Release));
    let records = result(q).unwrap();
    assert_eq!(records.len(), 1);
    assert_eq!(records[0].modality, "");

    let mut q = sent_query(IMPLICIT);
    assert!(matches!(q.on_command(Some(status_set(0xC000))), Action::Abort));
    assert_eq!(result(q).err(), Some(QueryError::QueryRejected(0xC000)));
}

#[test]
fn command_without_status_is_a_decode_error() {
    let mut q = sent_query(IMPLICIT);
    assert!(matches!(q.on_command(Some(DataSet::new())), Action::Abort));
    assert_eq!(result(q).err(), Some(QueryError::DecodeError));
}

#[test]
fn malformed_command_bytes_are_a_decode_error() {
    let mut q = sent_query(IMPLICIT);
    assert!(matches!(q.handle(data(vec![0x00, 0x00, 0x00])), Action::Abort));
    assert_eq!(result(q).err(), Some(QueryError::DecodeError));
}

#[test]
fn data_message_without_fragments_is_a_decode_error() {
    let mut q = sent_query(IMPLICIT);
    assert!(matches!(q.handle(Event::Received(Message::Data(vec![]))), Action::Abort));
    assert_eq!(result(q).err(), Some(QueryError::DecodeError));
}

#[test]
fn malformed_identifier_is_a_decode_error() {
    let mut q = sent_query(IMPLICIT);
    assert!(matches!(q.handle(data(response_command(0xFF00))), Action::ReceiveIdentifier));
    assert!(matches!(q.on_identifier(None), Action::Abort));
    assert_eq!(result(q).err(), Some(QueryError::DecodeError));
}

#[test]
fn unexpected_message_kind_aborts() {
    let mut q = sent_query(IMPLICIT);
    assert!(matches!(q.handle(Event::Received(Message::ReleaseRequest)), Action::Abort));
    assert_eq!(q.phase(), Phase::Aborted);
    assert_eq!(result(q).err(), Some(QueryError::ProtocolViolation));
}

#[test]
fn connect_failure_is_a_connection_error() {
    let mut q = WorklistQuery::new(&build_query());
    assert!(matches!(q.handle(Event::ConnectFailed), Action::Abort));
    assert_eq!(result(q).err(), Some(QueryError::ConnectionError));
}

#[test]
fn rejection_and_missing_contexts_are_negotiation_errors() {
    let mut q = WorklistQuery::new(&build_query());
    assert!(matches!(q.handle(Event::Rejected), Action::Abort));
    assert_eq!(result(q).err(), Some(QueryError::NegotiationError));

    let mut q = WorklistQuery::new(&build_query());
    assert!(matches!(q.handle(Event::Accepted(vec![])), Action::Abort));
    assert_eq!(result(q).err(), Some(QueryError::NegotiationError));

    let mut q = WorklistQuery::new(&build_query());
    assert!(matches!(q.handle(accepted("1.2.999.1")), Action::Abort));
    assert_eq!(result(q).err(), Some(QueryError::NegotiationError));
}

#[test]
fn send_failure_is_a_transmission_error() {
    let mut q = WorklistQuery::new(&build_query());
    assert!(matches!(q.handle(accepted(IMPLICIT)), Action::Send(_)));
    assert!(matches!(q.handle(Event::SendFailed), Action::Abort));
    assert_eq!(result(q).err(), Some(QueryError::TransmissionError));
}

#[test]
fn receive_failure_is_a_transport_error() {
    let mut q = sent_query(IMPLICIT);
    assert!(matches!(q.handle(Event::ReceiveFailed), Action::Abort));
    assert_eq!(result(q).err(), Some(QueryError::TransportError));
}

#[test]
fn silence_is_a_timeout_error() {
    let mut q = sent_query(IMPLICIT);
    assert!(matches!(q.handle(data(response_command(0xFF00))), Action::ReceiveIdentifier));
    assert!(matches!(q.handle(Event::TimedOut), Action::Abort));
    assert_eq!(result(q).err(), Some(QueryError::TimeoutError));
}

#[test]
fn running_query_has_no_result() {
    let q = sent_query(IMPLICIT);
    assert!(q.into_result().is_none());
}

fn teardowns(events: Vec<Event>) -> (usize, usize) {
    let mut q = WorklistQuery::new(&build_query());
    let mut releases = 0;
    let mut aborts = 0;
    for e in events {
        match q.handle(e) {
            Action::Release => releases += 1,
            Action::Abort => aborts += 1,
            _ => {}
        }
    }
    (releases, aborts)
}

#[test]
fn teardown_happens_exactly_once() {
    let ok = vec![accepted(IMPLICIT), Event::Sent, data(response_command(0)), Event::TimedOut, Event::ReceiveFailed];
    assert_eq!(teardowns(ok), (1, 0));
    let rejected = vec![accepted(IMPLICIT), Event::Sent, data(response_command(0xA900)), data(response_command(0))];
    assert_eq!(teardowns(rejected), (0, 1));
    let violation = vec![accepted(IMPLICIT), Event::Sent, Event::Received(Message::Unknown), Event::Sent];
    assert_eq!(teardowns(violation), (0, 1));
    let refused = vec![Event::ConnectFailed, Event::Rejected, accepted(IMPLICIT)];
    assert_eq!(teardowns(refused), (0, 1));
    let out_of_order = vec![Event::Sent, accepted(IMPLICIT)];
    assert_eq!(teardowns(out_of_order), (0, 1));
    let running = vec![accepted(IMPLICIT), Event::Sent];
    assert_eq!(teardowns(running), (0, 0));
}

#[test]
fn request_on_the_wire_carries_the_find_command_then_the_identifier() {
    let mut q = WorklistQuery::new(&build_query());
    let request = match q.handle(Event::Accepted(vec![
        PresentationContext { id: 3, transfer_syntax: EXPLICIT.to_string() },
        PresentationContext { id: 5, transfer_syntax: IMPLICIT.to_string() },
    ])) {
        Action::Send(r) => r,
        _ => panic!("expected the request to be sent"),
    };
    assert_eq!(request.presentation_context_id, 3);
    let command = InMemDicomObject::read_dataset_with_ts(
        &request.command[..],
        &entries::IMPLICIT_VR_LITTLE_ENDIAN.erased(),
    )
    .unwrap();
    assert!(command.get(tags::COMMAND_GROUP_LENGTH).is_some());
    assert_eq!(command.get(tags::AFFECTED_SOP_CLASS_UID).unwrap().to_str().unwrap(), "1.2.840.10008.5.1.4.31");
    assert_eq!(command.get(tags::COMMAND_FIELD).unwrap().to_int::<u16>().unwrap(), 0x0020);
    assert_eq!(command.get(tags::MESSAGE_ID).unwrap().to_int::<u16>().unwrap(), 1);
    assert_eq!(command.get(tags::PRIORITY).unwrap().to_int::<u16>().unwrap(), 0x0000);
    assert_eq!(command.get(tags::COMMAND_DATA_SET_TYPE).unwrap().to_int::<u16>().unwrap(), 0x0001);
    let identifier = InMemDicomObject::read_dataset_with_ts(
        &request.identifier[..],
        &entries::EXPLICIT_VR_LITTLE_ENDIAN.erased(),
    )
    .unwrap();
    assert_eq!(identifier.get(tags::PATIENT_NAME).unwrap().to_str().unwrap(), "*");
    assert_eq!(identifier.get(tags::PATIENT_NAME).unwrap().vr(), VR::PN);
    assert!(identifier.get(tags::WORKLIST_LABEL).is_some());
    assert!(identifier.get(tags::SCHEDULED_PROCEDURE_STEP_SEQUENCE).is_some());
}

#[test]
fn decoded_multi_valued_modality_gives_its_first_value() {
    let mut q = sent_query(EXPLICIT);
    assert!(matches!(q.handle(data(response_command(0xFF00))), Action::ReceiveIdentifier));
    let bytes = response_identifier("Doe^J", "A1", "CT\\MR", EXPLICIT);
    assert!(matches!(q.handle(Event::IdentifierReceived(bytes)), Action::Receive));
    assert!(matches!(q.handle(data(response_command(0))), Action::Release));
    assert_eq!(result(q).unwrap()[0].modality, "CT");
}
