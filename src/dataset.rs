use vstd::prelude::*;

verus! {

/// `dicom_core::VR`, the codec's value representations, used here with their variants
/// as they are.
#[verifier::external_type_specification]
pub struct ExVr(dicom_core::VR);

/// Patient's Name (0010,0010).
pub const PATIENT_NAME: u32 = 0x0010_0010;
/// Patient ID (0010,0020).
pub const PATIENT_ID: u32 = 0x0010_0020;
/// Patient's Birth Date (0010,0030).
pub const PATIENT_BIRTH_DATE: u32 = 0x0010_0030;
/// Patient's Sex (0010,0040).
pub const PATIENT_SEX: u32 = 0x0010_0040;
/// Study Instance UID (0020,000D).
pub const STUDY_INSTANCE_UID: u32 = 0x0020_000D;
/// Accession Number (0008,0050).
pub const ACCESSION_NUMBER: u32 = 0x0008_0050;
/// Modality (0008,0060).
pub const MODALITY: u32 = 0x0008_0060;
/// Worklist Label (0074,1202).
pub const WORKLIST_LABEL: u32 = 0x0074_1202;
/// Scheduled Procedure Step Sequence (0040,0100).
pub const SCHEDULED_PROCEDURE_STEP_SEQUENCE: u32 = 0x0040_0100;
/// Scheduled Procedure Step Start Date (0040,0002).
pub const SCHEDULED_PROCEDURE_STEP_START_DATE: u32 = 0x0040_0002;
/// Affected SOP Class UID (0000,0002).
pub const AFFECTED_SOP_CLASS_UID: u32 = 0x0000_0002;
/// Command Field (0000,0100).
pub const COMMAND_FIELD: u32 = 0x0000_0100;
/// Message ID (0000,0110).
pub const MESSAGE_ID: u32 = 0x0000_0110;
/// Priority (0000,0700).
pub const PRIORITY: u32 = 0x0000_0700;
/// Command Data Set Type (0000,0800).
pub const COMMAND_DATA_SET_TYPE: u32 = 0x0000_0800;
/// Status (0000,0900).
pub const STATUS: u32 = 0x0000_0900;

/// An attribute tag: group number and element number.
#[derive(Clone, Copy, Debug, PartialEq, Eq, Structural)]
pub struct Tag {
    pub group: u16,
    pub element: u16,
}

impl Tag {
    /// The tag whose group and element are the high and low halves of `code`.
    pub open spec fn of(code: u32) -> Tag {
        Tag { group: (code / 0x10000) as u16, element: (code % 0x10000) as u16 }
    }

    /// Splits a tag written as one 32-bit number (`0xGGGG_EEEE`).
    pub fn from_code(code: u32) -> (t: Tag)
        ensures
            t == Tag::of(code),
    {
        Tag { group: (code / 0x10000) as u16, element: (code % 0x10000) as u16 }
    }
}

/// The value of an element.
pub enum Value {
    /// A textual value; a multi-valued one joins its values with a backslash.
    Text(String),
    /// One or more unsigned 16-bit integers.
    U16(Vec<u16>),
    /// The items of a sequence, each a nested data set.
    Items(Vec<DataSet>),
}

/// One attribute of a data set.
pub struct Element {
    pub tag: Tag,
    pub vr: dicom_core::VR,
    pub value: Value,
}

/// A data set: its elements, in order.
pub struct DataSet {
    pub elements: Vec<Element>,
}

/// The value of the first element of `elements` that carries `tag`.
pub open spec fn lookup(elements: Seq<Element>, tag: Tag) -> Option<Value>
    decreases elements.len(),
{
    if elements.len() == 0 {
        None
    } else if elements[0].tag == tag {
        Some(elements[0].value)
    } else {
        lookup(elements.drop_first(), tag)
    }
}

/// The text of the attribute `tag` of `ds`; empty when it is absent or not textual.
pub open spec fn text_of(ds: DataSet, tag: Tag) -> Seq<char> {
    match lookup(ds.elements@, tag) {
        Some(Value::Text(s)) => s@,
        _ => Seq::empty(),
    }
}

/// The first item of the sequence attribute `tag` of `ds`, if there is one.
pub open spec fn first_item(ds: DataSet, tag: Tag) -> Option<DataSet> {
    match lookup(ds.elements@, tag) {
        Some(Value::Items(items)) => if items@.len() > 0 {
            Some(items@[0])
        } else {
            None
        },
        _ => None,
    }
}

/// The first value of the unsigned 16-bit attribute `tag` of `ds`, if there is one.
pub open spec fn u16_of(ds: DataSet, tag: Tag) -> Option<u16> {
    match lookup(ds.elements@, tag) {
        Some(Value::U16(v)) => if v@.len() > 0 {
            Some(v@[0])
        } else {
            None
        },
        _ => None,
    }
}

/// The first of the values in a multi-valued text: everything before the first
/// backslash, or the whole text when it holds none.
pub open spec fn first_value_of(s: Seq<char>) -> Seq<char>
    decreases s.len(),
{
    if s.len() == 0 {
        s
    } else if s[0] == '\\' {
        Seq::empty()
    } else {
        seq![s[0]] + first_value_of(s.drop_first())
    }
}

/// The first of the values in a multi-valued text.
pub fn first_value(text: &str) -> (r: String)
    ensures
        r@ == first_value_of(text@),
{
    let n: usize = text.unicode_len();
    let mut i: usize = 0;
    assert(text@.subrange(0, n as int) =~= text@);
    assert(text@.subrange(0, 0) + first_value_of(text@) =~= first_value_of(text@));
    while i < n
        invariant
            n == text@.len(),
            i <= n,
            first_value_of(text@) == text@.subrange(0, i as int) + first_value_of(text@.subrange(i as int, n as int)),
        decreases n - i,
    {
        let ghost rest = text@.subrange(i as int, n as int);
        if text.get_char(i) == '\\' {
            assert(first_value_of(rest) =~= Seq::<char>::empty());
            assert(text@.subrange(0, i as int) + Seq::<char>::empty() =~= text@.subrange(0, i as int));
            return text.substring_char(0, i).to_owned();
        }
        assert(rest.drop_first() =~= text@.subrange(i + 1, n as int));
        assert(text@.subrange(0, i as int) + seq![rest[0]] =~= text@.subrange(0, i + 1));
        i = i + 1;
    }
    assert(text@.subrange(i as int, n as int) =~= Seq::<char>::empty());
    assert(text@.subrange(0, i as int) + Seq::<char>::empty() =~= text@);
    text.to_owned()
}

impl Element {
    /// An element holding a textual value.
    pub fn text(tag: Tag, vr: dicom_core::VR, s: String) -> (e: Element)
        ensures
            e.tag == tag,
            e.vr == vr,
            e.value == Value::Text(s),
    {
        Element { tag, vr, value: Value::Text(s) }
    }
}

impl DataSet {
    /// A data set with no elements.
    pub fn new() -> (ds: DataSet)
        ensures
            ds.elements@.len() == 0,
    {
        DataSet { elements: Vec::new() }
    }

    /// The value of the first element that carries `tag`.
    pub fn get(&self, tag: Tag) -> (r: Option<&Value>)
        ensures
            match r {
                Some(v) => lookup(self.elements@, tag) == Some(*v),
                None => lookup(self.elements@, tag) is None,
            },
    {
        let mut i: usize = 0;
        assert(self.elements@.subrange(0, self.elements@.len() as int) =~= self.elements@);
        while i < self.elements.len()
            invariant
                i <= self.elements@.len(),
                lookup(self.elements@, tag) == lookup(self.elements@.subrange(i as int, self.elements@.len() as int), tag),
            decreases self.elements@.len() - i,
        {
            let ghost rest = self.elements@.subrange(i as int, self.elements@.len() as int);
            if self.elements[i].tag == tag {
                return Some(&self.elements[i].value);
            }
            assert(rest.drop_first() =~= self.elements@.subrange(i + 1, self.elements@.len() as int));
            i = i + 1;
        }
        assert(self.elements@.subrange(i as int, self.elements@.len() as int).len() == 0);
        None
    }

    /// The text of the attribute `tag`; empty when it is absent or not textual.
    pub fn text(&self, tag: Tag) -> (r: String)
        ensures
            r@ == text_of(*self, tag),
    {
        match self.get(tag) {
            Some(Value::Text(s)) => s.clone(),
            _ => String::new(),
        }
    }

    /// The first item of the sequence attribute `tag`, if there is one.
    pub fn first_item(&self, tag: Tag) -> (r: Option<&DataSet>)
        ensures
            match r {
                Some(d) => first_item(*self, tag) == Some(*d),
                None => first_item(*self, tag) is None,
            },
    {
        match self.get(tag) {
            Some(Value::Items(items)) => if items.len() > 0 {
                Some(&items[0])
            } else {
                None
            },
            _ => None,
        }
    }

    /// The first value of the unsigned 16-bit attribute `tag`, if there is one.
    pub fn u16_value(&self, tag: Tag) -> (r: Option<u16>)
        ensures
            r == u16_of(*self, tag),
    {
        match self.get(tag) {
            Some(Value::U16(v)) => if v.len() > 0 {
                Some(v[0])
            } else {
                None
            },
            _ => None,
        }
    }

    /// Appends an element.
    pub fn push(&mut self, e: Element)
        ensures
            final(self).elements@ == old(self).elements@.push(e),
    {
        self.elements.push(e);
    }
}

} // verus!
