//! The lines that the address book shows for a listing and for a search.

use crate::contact::{display_text, Contact, ContactView};
use crate::database::Record;
use vstd::prelude::*;
use vstd::string::{StrSliceExecFns, StringExecFns};

verus! {

/// The decimal digit for a number below ten.
pub open spec fn digit(d: nat) -> char {
    "0123456789"@[d as int]
}

/// A natural number in decimal, without leading zeros.
pub open spec fn decimal_nat(n: nat) -> Seq<char>
    decreases n,
{
    if n < 10 {
        seq![digit(n)]
    } else {
        decimal_nat(n / 10).push(digit(n % 10))
    }
}

/// An integer in decimal, with a minus sign where it is negative.
pub open spec fn decimal(n: int) -> Seq<char> {
    if n < 0 {
        seq!['-'] + decimal_nat((-n) as nat)
    } else {
        decimal_nat(n as nat)
    }
}

/// `count` spaces.
pub open spec fn spaces(count: nat) -> Seq<char> {
    Seq::new(count, |i: int| ' ')
}

/// A text filled up with spaces on the right to `width` characters; a text
/// that is as long or longer stays as it is.
pub open spec fn padded(text: Seq<char>, width: nat) -> Seq<char> {
    if text.len() < width {
        text + spaces((width - text.len()) as nat)
    } else {
        text
    }
}

/// An optional text as a listing shows it.
pub open spec fn shown(text: Option<Seq<char>>) -> Seq<char> {
    match text {
        Some(t) => t,
        None => "None"@,
    }
}

/// The heading of a listing.
pub open spec fn listing_header() -> Seq<char> {
    padded("Id"@, 5) + padded("Forename"@, 10) + padded("Surname"@, 10) + padded("Email"@, 35)
        + padded("Organisation"@, 15) + padded("Telephone"@, 10)
}

/// The line of a listing for one record.
pub open spec fn listing_line(id: i64, contact: ContactView) -> Seq<char> {
    padded(decimal(id as int), 5) + padded(contact.forename, 10) + padded(contact.surname, 10)
        + padded(contact.email, 35) + padded(shown(contact.organisation), 15) + padded(
        shown(contact.telephone),
        10,
    )
}

/// The first line of a search result that holds `count` contacts.
pub open spec fn search_header(count: nat) -> Seq<char> {
    decimal_nat(count) + " result(s):"@
}

/// The text for one decimal digit.
fn digit_text(d: u64) -> (r: &'static str)
    requires
        d < 10,
    ensures
        r@ == seq![digit(d as nat)],
{
    proof {
        reveal_strlit("0123456789");
        reveal_strlit("0");
        reveal_strlit("1");
        reveal_strlit("2");
        reveal_strlit("3");
        reveal_strlit("4");
        reveal_strlit("5");
        reveal_strlit("6");
        reveal_strlit("7");
        reveal_strlit("8");
        reveal_strlit("9");
    }
    let r = if d == 0 {
        "0"
    } else if d == 1 {
        "1"
    } else if d == 2 {
        "2"
    } else if d == 3 {
        "3"
    } else if d == 4 {
        "4"
    } else if d == 5 {
        "5"
    } else if d == 6 {
        "6"
    } else if d == 7 {
        "7"
    } else if d == 8 {
        "8"
    } else {
        "9"
    };
    assert(r@ =~= seq![digit(d as nat)]);
    r
}

/// Appends `n` in decimal to `text`.
fn append_decimal_nat(text: &mut String, n: u64)
    ensures
        final(text)@ == old(text)@ + decimal_nat(n as nat),
    decreases n,
{
    if n >= 10 {
        append_decimal_nat(text, n / 10);
    }
    text.append(digit_text(n % 10));
    assert(text@ =~= old(text)@ + decimal_nat(n as nat));
}

/// Writes `n` in decimal.
pub fn decimal_text(n: i64) -> (r: String)
    ensures
        r@ == decimal(n as int),
{
    let mut text = String::new();
    if n < 0 {
        text.append("-");
        proof {
            reveal_strlit("-");
            assert(text@ =~= seq!['-']);
        }
        let magnitude: u64 = (-(n + 1)) as u64 + 1;
        append_decimal_nat(&mut text, magnitude);
    } else {
        append_decimal_nat(&mut text, n as u64);
        assert(text@ =~= decimal_nat(n as nat));
    }
    text
}

/// Fills `text` up with spaces on the right to `width` characters.
pub fn pad(text: &str, width: usize) -> (r: String)
    ensures
        r@ == padded(text@, width as nat),
{
    let length: usize = text.unicode_len();
    let mut line = String::from_str(text);
    let mut count: usize = length;
    proof {
        reveal_strlit(" ");
        assert(line@ =~= text@ + spaces(0));
    }
    while count < width
        invariant
            length == text@.len(),
            length <= count,
            count <= width || count == length,
            line@ == text@ + spaces((count - length) as nat),
            " "@.len() == 1,
            " "@[0] == ' ',
        decreases width - count,
    {
        line.append(" ");
        count += 1;
        assert(line@ =~= text@ + spaces((count - length) as nat));
    }
    assert(line@ =~= padded(text@, width as nat));
    line
}

/// Writes the heading of a listing.
pub fn header_text() -> (r: String)
    ensures
        r@ == listing_header(),
{
    let mut line = pad("Id", 5);
    line.append(pad("Forename", 10).as_str());
    line.append(pad("Surname", 10).as_str());
    line.append(pad("Email", 35).as_str());
    line.append(pad("Organisation", 15).as_str());
    line.append(pad("Telephone", 10).as_str());
    line
}

/// Writes the line of a listing for one record: the identifier, the names,
/// the email and the optional texts, each in its column.
pub fn line_text(record: &Record<Contact>) -> (r: String)
    ensures
        r@ == listing_line(record.spec_id(), record.spec_record()@),
{
    let contact = record.record();
    let organisation = match contact.organisation() {
        Some(text) => text,
        None => "None",
    };
    let telephone = match contact.telephone() {
        Some(text) => text,
        None => "None",
    };
    let mut line = pad(decimal_text(record.id()).as_str(), 5);
    line.append(pad(contact.forename(), 10).as_str());
    line.append(pad(contact.surname(), 10).as_str());
    line.append(pad(contact.email(), 35).as_str());
    line.append(pad(organisation, 15).as_str());
    line.append(pad(telephone, 10).as_str());
    line
}

/// Whether `lines` show the listing `records`: the heading, then one line
/// for each record, in order.
pub open spec fn is_listing_text(lines: Seq<String>, records: Seq<Record<Contact>>) -> bool {
    &&& lines.len() == records.len() + 1
    &&& lines[0]@ == listing_header()
    &&& forall|i: int|
        0 <= i < records.len() ==> (#[trigger] lines[i + 1])@ == listing_line(
            records[i].spec_id(),
            records[i].spec_record()@,
        )
}

/// Whether `lines` show the search result `contacts`: the number of
/// contacts found, then the canonical line of each, in order.
pub open spec fn is_search_text(lines: Seq<String>, contacts: Seq<Contact>) -> bool {
    &&& lines.len() == contacts.len() + 1
    &&& lines[0]@ == search_header(contacts.len())
    &&& forall|i: int|
        0 <= i < contacts.len() ==> (#[trigger] lines[i + 1])@ == display_text(contacts[i]@)
}

/// Writes a listing: the heading and a line for each record.
pub fn listing_text(records: &Vec<Record<Contact>>) -> (lines: Vec<String>)
    ensures
        is_listing_text(lines@, records@),
{
    let mut lines: Vec<String> = Vec::new();
    lines.push(header_text());
    let mut index: usize = 0;
    while index < records.len()
        invariant
            index <= records@.len(),
            lines@.len() == index + 1,
            lines@[0]@ == listing_header(),
            forall|i: int|
                0 <= i < index ==> (#[trigger] lines@[i + 1])@ == listing_line(
                    records@[i].spec_id(),
                    records@[i].spec_record()@,
                ),
        decreases records@.len() - index,
    {
        lines.push(line_text(&records[index]));
        index += 1;
    }
    lines
}

/// Writes a search result: how many contacts were found, then each of
/// them.
pub fn search_text(contacts: &Vec<Contact>) -> (lines: Vec<String>)
    ensures
        is_search_text(lines@, contacts@),
{
    let mut header = String::new();
    append_decimal_nat(&mut header, contacts.len() as u64);
    header.append(" result(s):");
    assert(header@ =~= search_header(contacts@.len()));
    let mut lines: Vec<String> = Vec::new();
    lines.push(header);
    let mut index: usize = 0;
    while index < contacts.len()
        invariant
            index <= contacts@.len(),
            lines@.len() == index + 1,
            lines@[0]@ == search_header(contacts@.len()),
            forall|i: int|
                0 <= i < index ==> (#[trigger] lines@[i + 1])@ == display_text(contacts@[i]@),
        decreases contacts@.len() - index,
    {
        lines.push(contacts[index].to_string());
        index += 1;
    }
    lines
}

/// The lines to show for what a listing answered: nothing where nothing is
/// stored, and else the listing.
pub fn listing_lines(listed: &Option<Vec<Record<Contact>>>) -> (lines: Vec<String>)
    ensures
        match *listed {
            None => lines@.len() == 0,
            Some(records) => is_listing_text(lines@, records@),
        },
{
    match listed {
        None => Vec::new(),
        Some(records) => listing_text(records),
    }
}

/// The lines to show for what a search answered: nothing where nothing was
/// found, and else the search result.
pub fn search_lines(found: &Option<Vec<Contact>>) -> (lines: Vec<String>)
    ensures
        match *found {
            None => lines@.len() == 0,
            Some(contacts) => is_search_text(lines@, contacts@),
        },
{
    match found {
        None => Vec::new(),
        Some(contacts) => search_text(contacts),
    }
}

} // verus!
