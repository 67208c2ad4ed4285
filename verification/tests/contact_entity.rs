use contact::contact::Contact;
use contact::error::{Error, Field};

fn fault(result: Result<Contact, Error>) -> Error {
    match result {
        Ok(_) => panic!("a contact was made"),
        Err(e) => e,
    }
}

#[test]
fn valid_texts_make_a_contact_that_holds_them() {
    let contact = Contact::new("Ada", "Lovelace", "ada@example.com").unwrap();
    assert_eq!(contact.forename(), "Ada");
    assert_eq!(contact.surname(), "Lovelace");
    assert_eq!(contact.email(), "ada@example.com");
    assert_eq!(contact.organisation(), None);
    assert_eq!(contact.telephone(), None);
}

#[test]
fn email_is_kept_as_the_validator_hands_it_back() {
    let contact = Contact::new("Grace", "Hopper", "Grace.Hopper+navy@Example.ORG").unwrap();
    assert_eq!(contact.email(), "Grace.Hopper+navy@Example.ORG");
    let quoted = Contact::new("Q", "R", "\"quoted local\"@example.com").unwrap();
    assert_eq!(quoted.email(), "\"quoted local\"@example.com");
    let literal = Contact::new("Q", "R", "user@[127.0.0.1]").unwrap();
    assert_eq!(literal.email(), "user@[127.0.0.1]");
}

#[test]
fn empty_forename_is_named() {
    assert!(matches!(
        fault(Contact::new("", "Lovelace", "ada@example.com")),
        Error::Empty(Field::Forename)
    ));
}

#[test]
fn empty_surname_is_named() {
    assert!(matches!(
        fault(Contact::new("Ada", "", "ada@example.com")),
        Error::Empty(Field::Surname)
    ));
}

#[test]
fn empty_email_is_named() {
    assert!(matches!(fault(Contact::new("Ada", "Lovelace", "")), Error::Empty(Field::Email)));
}

#[test]
fn first_empty_text_is_the_one_named() {
    assert!(matches!(fault(Contact::new("", "", "")), Error::Empty(Field::Forename)));
    assert!(matches!(fault(Contact::new("Ada", "", "")), Error::Empty(Field::Surname)));
    assert!(matches!(
        fault(Contact::new("", "Lovelace", "not-an-email")),
        Error::Empty(Field::Forename)
    ));
}

#[test]
fn invalid_email_is_reported_with_the_diagnostic() {
    match fault(Contact::new("Ada", "Lovelace", "not-an-email")) {
        Error::Email(diagnostic) => assert_eq!(diagnostic, "Missing separator character '@'."),
        other => panic!("unexpected: {:?}", other),
    }
    match fault(Contact::new("Ada", "Lovelace", "@example.com")) {
        Error::Email(diagnostic) => assert_eq!(diagnostic, "Local part is empty."),
        other => panic!("unexpected: {:?}", other),
    }
    match fault(Contact::new("Ada", "Lovelace", "ada@")) {
        Error::Email(diagnostic) => assert_eq!(diagnostic, "Domain is empty."),
        other => panic!("unexpected: {:?}", other),
    }
    match fault(Contact::new("Ada", "Lovelace", "ada lovelace@example.com")) {
        Error::Email(diagnostic) => assert_eq!(diagnostic, "Invalid character."),
        other => panic!("unexpected: {:?}", other),
    }
}

#[test]
fn organisation_is_set_and_replaced() {
    let mut contact = Contact::new("Ada", "Lovelace", "ada@example.com").unwrap();
    contact.set_organisation("Analytical Engines").unwrap();
    assert_eq!(contact.organisation(), Some("Analytical Engines"));
    contact.set_organisation("Royal Society").unwrap();
    assert_eq!(contact.organisation(), Some("Royal Society"));
    assert_eq!(contact.telephone(), None);
    assert_eq!(contact.forename(), "Ada");
    assert_eq!(contact.surname(), "Lovelace");
    assert_eq!(contact.email(), "ada@example.com");
}

#[test]
fn telephone_is_set_and_replaced() {
    let mut contact = Contact::new("Ada", "Lovelace", "ada@example.com").unwrap();
    contact.set_telephone("+44 20 7946 0000").unwrap();
    assert_eq!(contact.telephone(), Some("+44 20 7946 0000"));
    contact.set_telephone("555").unwrap();
    assert_eq!(contact.telephone(), Some("555"));
    assert_eq!(contact.organisation(), None);
}

#[test]
fn empty_organisation_is_refused_and_changes_nothing() {
    let mut contact = Contact::new("Ada", "Lovelace", "ada@example.com").unwrap();
    assert!(matches!(contact.set_organisation(""), Err(Error::Empty(Field::Organisation))));
    assert_eq!(contact.organisation(), None);
    contact.set_organisation("Analytical Engines").unwrap();
    assert!(matches!(contact.set_organisation(""), Err(Error::Empty(Field::Organisation))));
    assert_eq!(contact.organisation(), Some("Analytical Engines"));
}

#[test]
fn empty_telephone_is_refused_and_changes_nothing() {
    let mut contact = Contact::new("Ada", "Lovelace", "ada@example.com").unwrap();
    assert!(matches!(contact.set_telephone(""), Err(Error::Empty(Field::Telephone))));
    assert_eq!(contact.telephone(), None);
    contact.set_telephone("555").unwrap();
    assert!(matches!(contact.set_telephone(""), Err(Error::Empty(Field::Telephone))));
    assert_eq!(contact.telephone(), Some("555"));
}

#[test]
fn canonical_rendering_is_email_tab_forename_space_surname() {
    let mut contact = Contact::new("Ada", "Lovelace", "ada@example.com").unwrap();
    assert_eq!(contact.to_string(), "ada@example.com\tAda Lovelace");
    contact.set_organisation("Analytical Engines").unwrap();
    assert_eq!(contact.to_string(), "ada@example.com\tAda Lovelace");
}
