//! Rows of the contact table, and how contacts are written to them and
//! read back.

use crate::contact::{creation_fault, Contact, ContactView, Outcome};
use crate::database::Record;
use crate::error::{Error, ErrorView, Field};
use vstd::prelude::*;
use vstd::string::StringExecFns;

verus! {

/// One row of the contact table as the storage engine hands it out. Nothing
/// is known of its texts until they are checked.
#[derive(Debug)]
pub struct StoredRow {
    pub id: i64,
    pub forename: String,
    pub surname: String,
    pub email: String,
    pub organisation: Option<String>,
    pub telephone: Option<String>,
}

/// A [`StoredRow`] with each text taken as a sequence of characters.
pub struct StoredRowView {
    pub id: i64,
    pub forename: Seq<char>,
    pub surname: Seq<char>,
    pub email: Seq<char>,
    pub organisation: Option<Seq<char>>,
    pub telephone: Option<Seq<char>>,
}

/// An optional text taken as an optional sequence of characters.
pub open spec fn text_view(text: Option<String>) -> Option<Seq<char>> {
    match text {
        Some(t) => Some(t@),
        None => None,
    }
}

impl View for StoredRow {
    type V = StoredRowView;

    open spec fn view(&self) -> StoredRowView {
        StoredRowView {
            id: self.id,
            forename: self.forename@,
            surname: self.surname@,
            email: self.email@,
            organisation: text_view(self.organisation),
            telephone: text_view(self.telephone),
        }
    }
}

/// The five values that are bound when a contact is inserted, in column
/// order. An absent optional text is bound as `None`, which the table keeps
/// as NULL.
pub open spec fn insert_values_of(contact: ContactView) -> Seq<Option<Seq<char>>> {
    seq![
        Some(contact.forename),
        Some(contact.surname),
        Some(contact.email),
        contact.organisation,
        contact.telephone,
    ]
}

/// The row that the table holds under the identifier `id` once the five
/// values of an insert are bound: each column holds the value bound to it.
pub open spec fn row_of(id: i64, values: Seq<Option<Seq<char>>>) -> StoredRowView
    recommends
        values.len() == 5,
        values[0] is Some,
        values[1] is Some,
        values[2] is Some,
{
    StoredRowView {
        id,
        forename: values[0]->0,
        surname: values[1]->0,
        email: values[2]->0,
        organisation: values[3],
        telephone: values[4],
    }
}

/// The contact that a whole row stands for, or why it stands for none. The
/// required texts are checked first, then the organisation, then the
/// telephone: a stored optional text that is empty is a fault.
pub open spec fn decoded_contact(row: StoredRowView) -> Outcome {
    match creation_fault(row.forename, row.surname, row.email) {
        Some(fault) => Err(fault),
        None => if row.organisation matches Some(text) && text.len() == 0 {
            Err(ErrorView::Empty(Field::Organisation))
        } else if row.telephone matches Some(text) && text.len() == 0 {
            Err(ErrorView::Empty(Field::Telephone))
        } else {
            Ok(
                ContactView {
                    forename: row.forename,
                    surname: row.surname,
                    email: row.email,
                    organisation: row.organisation,
                    telephone: row.telephone,
                },
            )
        },
    }
}

/// The texts to bind when `contact` is inserted.
pub fn insert_values(contact: &Contact) -> (values: Vec<Option<String>>)
    ensures
        values@.map_values(|text: Option<String>| text_view(text)) == insert_values_of(contact@),
{
    let organisation = match contact.organisation() {
        Some(text) => Some(String::from_str(text)),
        None => None,
    };
    let telephone = match contact.telephone() {
        Some(text) => Some(String::from_str(text)),
        None => None,
    };
    let mut values: Vec<Option<String>> = Vec::new();
    values.push(Some(String::from_str(contact.forename())));
    values.push(Some(String::from_str(contact.surname())));
    values.push(Some(String::from_str(contact.email())));
    values.push(organisation);
    values.push(telephone);
    assert(values@.map_values(|text: Option<String>| text_view(text)) =~= insert_values_of(
        contact@,
    ));
    values
}

/// Rebuilds a contact from a whole row.
pub fn contact_from_row(row: &StoredRow) -> (r: Result<Contact, Error>)
    ensures
        match r {
            Ok(contact) => decoded_contact(row@) == Outcome::Ok(contact@),
            Err(e) => decoded_contact(row@) == Outcome::Err(e@),
        },
{
    let mut contact = match Contact::new(
        row.forename.as_str(),
        row.surname.as_str(),
        row.email.as_str(),
    ) {
        Ok(contact) => contact,
        Err(e) => {
            return Err(e);
        },
    };
    if let Some(organisation) = &row.organisation {
        if let Err(e) = contact.set_organisation(organisation.as_str()) {
            return Err(e);
        }
    }
    if let Some(telephone) = &row.telephone {
        if let Err(e) = contact.set_telephone(telephone.as_str()) {
            return Err(e);
        }
    }
    Ok(contact)
}

/// Rebuilds the record of a listing from a whole row.
pub fn record_from_row(row: &StoredRow) -> (r: Result<Record<Contact>, Error>)
    ensures
        match r {
            Ok(record) => {
                &&& record.spec_id() == row.id
                &&& decoded_contact(row@) == Outcome::Ok(record.spec_record()@)
            },
            Err(e) => decoded_contact(row@) == Outcome::Err(e@),
        },
{
    match contact_from_row(row) {
        Ok(contact) => Ok(Record::new(row.id, contact)),
        Err(e) => Err(e),
    }
}

/// Row `i` is the first of `rows` that stands for no contact when read
/// whole.
pub open spec fn first_bad_row(rows: Seq<StoredRow>, i: int) -> bool {
    &&& 0 <= i < rows.len()
    &&& decoded_contact(rows[i]@) is Err
    &&& forall|j: int| 0 <= j < i ==> (#[trigger] decoded_contact(rows[j]@)) is Ok
}

/// Whether `r` is what listing `rows` gives: `None` for no rows, the record
/// of every row in the rows' order where all rows stand for contacts, and
/// else the fault of the first row that stands for none.
pub open spec fn is_listing_of(
    rows: Seq<StoredRow>,
    r: Result<Option<Vec<Record<Contact>>>, Error>,
) -> bool {
    match r {
        Ok(None) => rows.len() == 0,
        Ok(Some(records)) => {
            &&& rows.len() > 0
            &&& records@.len() == rows.len()
            &&& forall|i: int|
                0 <= i < rows.len() ==> {
                    &&& (#[trigger] records@[i]).spec_id() == rows[i].id
                    &&& records@[i].spec_record()@.wf()
                    &&& decoded_contact(rows[i]@) == Outcome::Ok(records@[i].spec_record()@)
                }
        },
        Err(e) => exists|i: int|
            first_bad_row(rows, i) && #[trigger] decoded_contact(rows[i]@) == Outcome::Err(e@),
    }
}

/// Whether `r` is what searching gives when `rows` matched: `None` for no
/// rows, the whole contact of every row in the rows' order where all rows
/// stand for contacts, and else the fault of the first row that stands for
/// none.
pub open spec fn is_search_result_of(
    rows: Seq<StoredRow>,
    r: Result<Option<Vec<Contact>>, Error>,
) -> bool {
    match r {
        Ok(None) => rows.len() == 0,
        Ok(Some(contacts)) => {
            &&& rows.len() > 0
            &&& contacts@.len() == rows.len()
            &&& forall|i: int|
                0 <= i < rows.len() ==> {
                    &&& (#[trigger] contacts@[i])@.wf()
                    &&& decoded_contact(rows[i]@) == Outcome::Ok(contacts@[i]@)
                }
        },
        Err(e) => exists|i: int|
            first_bad_row(rows, i) && #[trigger] decoded_contact(rows[i]@) == Outcome::Err(e@),
    }
}

/// Turns the rows of a listing into records, in the order of the rows.
///
/// No rows give `None`, which tells "nothing stored" from a list. The first
/// row that stands for no contact makes the whole listing fail with that
/// row's fault.
pub fn records_from_rows(rows: &Vec<StoredRow>) -> (r: Result<Option<Vec<Record<Contact>>>, Error>)
    ensures
        is_listing_of(rows@, r),
{
    let mut records: Vec<Record<Contact>> = Vec::new();
    let mut index: usize = 0;
    while index < rows.len()
        invariant
            index <= rows@.len(),
            records@.len() == index,
            forall|i: int|
                0 <= i < index ==> {
                    &&& (#[trigger] records@[i]).spec_id() == rows@[i].id
                    &&& records@[i].spec_record()@.wf()
                    &&& decoded_contact(rows@[i]@) == Outcome::Ok(records@[i].spec_record()@)
                },
        decreases rows@.len() - index,
    {
        match record_from_row(&rows[index]) {
            Ok(record) => {
                records.push(record);
            },
            Err(e) => {
                assert forall|j: int| 0 <= j < index implies (#[trigger] decoded_contact(
                    rows@[j]@,
                )) is Ok by {
                    assert(records@[j].spec_id() == rows@[j].id);
                }
                assert(first_bad_row(rows@, index as int));
                return Err(e);
            },
        }
        index += 1;
    }
    if records.is_empty() {
        return Ok(None);
    }
    Ok(Some(records))
}

/// Turns the rows of a search into contacts, in the order of the rows.
/// Every row is read whole, so a contact found carries its organisation and
/// its telephone.
///
/// No rows give `None`. The first row that stands for no contact makes the
/// whole search fail with that row's fault.
pub fn contacts_from_rows(rows: &Vec<StoredRow>) -> (r: Result<Option<Vec<Contact>>, Error>)
    ensures
        is_search_result_of(rows@, r),
{
    let mut contacts: Vec<Contact> = Vec::new();
    let mut index: usize = 0;
    while index < rows.len()
        invariant
            index <= rows@.len(),
            contacts@.len() == index,
            forall|i: int|
                0 <= i < index ==> {
                    &&& (#[trigger] contacts@[i])@.wf()
                    &&& decoded_contact(rows@[i]@) == Outcome::Ok(contacts@[i]@)
                },
        decreases rows@.len() - index,
    {
        match contact_from_row(&rows[index]) {
            Ok(contact) => {
                contacts.push(contact);
            },
            Err(e) => {
                assert forall|j: int| 0 <= j < index implies (#[trigger] decoded_contact(
                    rows@[j]@,
                )) is Ok by {
                    assert(decoded_contact(rows@[j]@) == Outcome::Ok(contacts@[j]@));
                }
                assert(first_bad_row(rows@, index as int));
                return Err(e);
            },
        }
        index += 1;
    }
    if contacts.is_empty() {
        return Ok(None);
    }
    Ok(Some(contacts))
}

/// What is written for a contact reads back as the same contact: the row
/// that holds the inserted values of a well-formed contact decodes, whole,
/// to that contact, field for field, under the identifier that the store
/// gave it.
pub proof fn lemma_row_round_trip(id: i64, contact: ContactView)
    requires
        contact.wf(),
    ensures
        row_of(id, insert_values_of(contact)).id == id,
        decoded_contact(row_of(id, insert_values_of(contact))) == Outcome::Ok(contact),
{
}

/// An absent optional text is bound as no value at all, never as a text
/// that stands in for it, and is absent again in the row.
pub proof fn lemma_absent_text_is_unbound(id: i64, contact: ContactView)
    ensures
        insert_values_of(contact).len() == 5,
        contact.organisation is None ==> insert_values_of(contact)[3] is None,
        contact.telephone is None ==> insert_values_of(contact)[4] is None,
        row_of(id, insert_values_of(contact)).organisation == contact.organisation,
        row_of(id, insert_values_of(contact)).telephone == contact.telephone,
{
}

/// The names of a contact by which the store orders its rows: the surname,
/// then the forename.
pub open spec fn names_of(contact: ContactView) -> (Seq<char>, Seq<char>) {
    (contact.surname, contact.forename)
}

/// The names of a row by which the store orders its rows.
pub open spec fn row_names(row: StoredRowView) -> (Seq<char>, Seq<char>) {
    (row.surname, row.forename)
}

/// A listing is its rows, one for one: the record at each place has the
/// identifier and the five texts of the row at that place.
pub proof fn lemma_listing_is_the_rows(rows: Seq<StoredRow>, records: Vec<Record<Contact>>)
    requires
        is_listing_of(rows, Ok(Some(records))),
    ensures
        records@.len() == rows.len(),
        forall|i: int|
            0 <= i < rows.len() ==> (#[trigger] records@[i]).spec_id() == rows[i].id
                && row_of(rows[i].id, insert_values_of(records@[i].spec_record()@)) == rows[i]@,
{
    assert forall|i: int| 0 <= i < rows.len() implies (#[trigger] records@[i]).spec_id()
        == rows[i].id && row_of(rows[i].id, insert_values_of(records@[i].spec_record()@))
        == rows[i]@ by {
        assert(decoded_contact(rows[i]@) == Outcome::Ok(records@[i].spec_record()@));
    }
}

/// A search result is its rows, one for one: the contact at each place has
/// the five texts of the row at that place, the optional ones included.
pub proof fn lemma_search_result_is_the_rows(rows: Seq<StoredRow>, contacts: Vec<Contact>)
    requires
        is_search_result_of(rows, Ok(Some(contacts))),
    ensures
        contacts@.len() == rows.len(),
        forall|i: int|
            0 <= i < rows.len() ==> row_of(rows[i].id, insert_values_of((#[trigger] contacts@[i])@))
                == rows[i]@,
{
    assert forall|i: int| 0 <= i < rows.len() implies row_of(
        rows[i].id,
        insert_values_of((#[trigger] contacts@[i])@),
    ) == rows[i]@ by {
        assert(decoded_contact(rows[i]@) == Outcome::Ok(contacts@[i]@));
    }
}

/// Where the store hands out, at some place, the row that was written for
/// a contact, the listing has that contact at that place, field for field,
/// under the row's identifier.
pub proof fn lemma_listing_returns_what_was_written(
    rows: Seq<StoredRow>,
    records: Vec<Record<Contact>>,
    i: int,
    id: i64,
    contact: ContactView,
)
    requires
        is_listing_of(rows, Ok(Some(records))),
        0 <= i < rows.len(),
        contact.wf(),
        rows[i]@ == row_of(id, insert_values_of(contact)),
    ensures
        records@[i].spec_id() == id,
        records@[i].spec_record()@ == contact,
{
    lemma_row_round_trip(id, contact);
    assert(decoded_contact(rows[i]@) == Outcome::Ok(records@[i].spec_record()@));
}

/// Where the store hands out, at some place, the row that was written for
/// a contact, the search result has that contact at that place, field for
/// field.
pub proof fn lemma_search_returns_what_was_written(
    rows: Seq<StoredRow>,
    contacts: Vec<Contact>,
    i: int,
    id: i64,
    contact: ContactView,
)
    requires
        is_search_result_of(rows, Ok(Some(contacts))),
        0 <= i < rows.len(),
        contact.wf(),
        rows[i]@ == row_of(id, insert_values_of(contact)),
    ensures
        contacts@[i]@ == contact,
{
    lemma_row_round_trip(id, contact);
    assert(decoded_contact(rows[i]@) == Outcome::Ok(contacts@[i]@));
}

/// Rows with identifiers that differ from each other give records with
/// identifiers that differ from each other.
pub proof fn lemma_listing_keeps_identifiers_apart(
    rows: Seq<StoredRow>,
    records: Vec<Record<Contact>>,
)
    requires
        is_listing_of(rows, Ok(Some(records))),
        forall|i: int, j: int|
            0 <= i < j < rows.len() ==> (#[trigger] rows[i]).id != (#[trigger] rows[j]).id,
    ensures
        forall|i: int, j: int|
            0 <= i < j < records@.len() ==> (#[trigger] records@[i]).spec_id() != (
            #[trigger] records@[j]).spec_id(),
{
    assert forall|i: int, j: int| 0 <= i < j < records@.len() implies (
    #[trigger] records@[i]).spec_id() != (#[trigger] records@[j]).spec_id() by {
        assert(rows[i].id != rows[j].id);
    }
}

/// A listing keeps the order of its rows: whatever relation holds between
/// the names of every earlier and every later row holds between the names
/// of the records at their places.
pub proof fn lemma_listing_keeps_order(
    rows: Seq<StoredRow>,
    records: Vec<Record<Contact>>,
    before: spec_fn((Seq<char>, Seq<char>), (Seq<char>, Seq<char>)) -> bool,
)
    requires
        is_listing_of(rows, Ok(Some(records))),
        forall|i: int, j: int|
            0 <= i < j < rows.len() ==> before(
                row_names((#[trigger] rows[i])@),
                row_names((#[trigger] rows[j])@),
            ),
    ensures
        forall|i: int, j: int|
            0 <= i < j < records@.len() ==> before(
                names_of((#[trigger] records@[i]).spec_record()@),
                names_of((#[trigger] records@[j]).spec_record()@),
            ),
{
    assert forall|i: int, j: int| 0 <= i < j < records@.len() implies before(
        names_of((#[trigger] records@[i]).spec_record()@),
        names_of((#[trigger] records@[j]).spec_record()@),
    ) by {
        assert(decoded_contact(rows[i]@) == Outcome::Ok(records@[i].spec_record()@));
        assert(decoded_contact(rows[j]@) == Outcome::Ok(records@[j].spec_record()@));
        assert(before(row_names(rows[i]@), row_names(rows[j]@)));
    }
}

/// A search result keeps the order of its rows, as a listing does.
pub proof fn lemma_search_result_keeps_order(
    rows: Seq<StoredRow>,
    contacts: Vec<Contact>,
    before: spec_fn((Seq<char>, Seq<char>), (Seq<char>, Seq<char>)) -> bool,
)
    requires
        is_search_result_of(rows, Ok(Some(contacts))),
        forall|i: int, j: int|
            0 <= i < j < rows.len() ==> before(
                row_names((#[trigger] rows[i])@),
                row_names((#[trigger] rows[j])@),
            ),
    ensures
        forall|i: int, j: int|
            0 <= i < j < contacts@.len() ==> before(
                names_of((#[trigger] contacts@[i])@),
                names_of((#[trigger] contacts@[j])@),
            ),
{
    assert forall|i: int, j: int| 0 <= i < j < contacts@.len() implies before(
        names_of((#[trigger] contacts@[i])@),
        names_of((#[trigger] contacts@[j])@),
    ) by {
        assert(decoded_contact(rows[i]@) == Outcome::Ok(contacts@[i]@));
        assert(decoded_contact(rows[j]@) == Outcome::Ok(contacts@[j]@));
        assert(before(row_names(rows[i]@), row_names(rows[j]@)));
    }
}

} // verus!
