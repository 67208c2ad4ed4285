//! The contact entity: a person's name and how to reach them.

use crate::email::{email_diagnostic, is_valid_email, parse_email};
use crate::error::{Error, ErrorView, Field};
use vstd::prelude::*;
use vstd::string::StringExecFns;

verus! {

/// A contact as mathematics sees it: each text a sequence of characters.
pub struct ContactView {
    pub forename: Seq<char>,
    pub surname: Seq<char>,
    pub email: Seq<char>,
    pub organisation: Option<Seq<char>>,
    pub telephone: Option<Seq<char>>,
}

impl ContactView {
    /// The required texts are not empty, the email is one that the validator
    /// accepts, and an optional text is absent or not empty.
    pub open spec fn wf(self) -> bool {
        &&& self.forename.len() > 0
        &&& self.surname.len() > 0
        &&& self.email.len() > 0
        &&& is_valid_email(self.email)
        &&& (self.organisation matches Some(text) ==> text.len() > 0)
        &&& (self.telephone matches Some(text) ==> text.len() > 0)
    }
}

/// Why a contact cannot be made of the three texts, if it cannot: the first
/// empty text in the order forename, surname, email, or else the validator's
/// diagnostic for the email.
pub open spec fn creation_fault(
    forename: Seq<char>,
    surname: Seq<char>,
    email: Seq<char>,
) -> Option<ErrorView> {
    if forename.len() == 0 {
        Some(ErrorView::Empty(Field::Forename))
    } else if surname.len() == 0 {
        Some(ErrorView::Empty(Field::Surname))
    } else if email.len() == 0 {
        Some(ErrorView::Empty(Field::Email))
    } else {
        match email_diagnostic(email) {
            Some(diagnostic) => Some(ErrorView::Email(diagnostic)),
            None => None,
        }
    }
}

/// What making or reading a contact gives, in specifications: the contact
/// or the fault.
pub type Outcome = Result<ContactView, ErrorView>;

/// What making a contact of the three texts gives: the contact with no
/// optional text, or the fault.
pub open spec fn created(forename: Seq<char>, surname: Seq<char>, email: Seq<char>) -> Outcome {
    match creation_fault(forename, surname, email) {
        Some(fault) => Err(fault),
        None => Ok(
            ContactView { forename, surname, email, organisation: None, telephone: None },
        ),
    }
}

/// The canonical one-line rendering of a contact: the email, a tab, the
/// forename, a space, the surname.
pub open spec fn display_text(contact: ContactView) -> Seq<char> {
    contact.email + seq!['\t'] + contact.forename + seq![' '] + contact.surname
}

/// A validated contact. Every value of this type is well formed.
#[derive(Debug)]
pub struct Contact {
    forename: String,
    surname: String,
    email: String,
    organisation: Option<String>,
    telephone: Option<String>,
}

impl View for Contact {
    type V = ContactView;

    closed spec fn view(&self) -> ContactView {
        ContactView {
            forename: self.forename@,
            surname: self.surname@,
            email: self.email@,
            organisation: match self.organisation {
                Some(text) => Some(text@),
                None => None,
            },
            telephone: match self.telephone {
                Some(text) => Some(text@),
                None => None,
            },
        }
    }
}

impl Contact {
    #[verifier::type_invariant]
    spec fn well_formed(self) -> bool {
        self@.wf()
    }

    /// Makes a contact of the three required texts, with no organisation and
    /// no telephone. The email is kept as the validator hands it back.
    pub fn new(forename: &str, surname: &str, email: &str) -> (r: Result<Contact, Error>)
        ensures
            match r {
                Ok(contact) => {
                    &&& created(forename@, surname@, email@) == Outcome::Ok(contact@)
                    &&& contact@.wf()
                },
                Err(e) => created(forename@, surname@, email@) == Outcome::Err(e@),
            },
    {
        if forename.is_empty() {
            return Err(Error::Empty(Field::Forename));
        } else if surname.is_empty() {
            return Err(Error::Empty(Field::Surname));
        } else if email.is_empty() {
            return Err(Error::Empty(Field::Email));
        }
        match parse_email(email) {
            Ok(address) => Ok(
                Contact {
                    forename: String::from_str(forename),
                    surname: String::from_str(surname),
                    email: address,
                    organisation: None,
                    telephone: None,
                },
            ),
            Err(diagnostic) => Err(Error::Email(diagnostic)),
        }
    }

    /// Sets the organisation, unless the text is empty.
    pub fn set_organisation(&mut self, organisation: &str) -> (r: Result<(), Error>)
        ensures
            final(self)@.wf(),
            match r {
                Ok(()) => organisation@.len() > 0 && final(self)@ == (ContactView {
                    organisation: Some(organisation@),
                    ..old(self)@
                }),
                Err(e) => organisation@.len() == 0 && e@ == ErrorView::Empty(Field::Organisation)
                    && final(self)@ == old(self)@,
            },
    {
        proof {
            use_type_invariant(&*self);
        }
        if organisation.is_empty() {
            return Err(Error::Empty(Field::Organisation));
        }
        self.organisation = Some(String::from_str(organisation));
        Ok(())
    }

    /// Sets the telephone number, unless the text is empty.
    pub fn set_telephone(&mut self, telephone: &str) -> (r: Result<(), Error>)
        ensures
            final(self)@.wf(),
            match r {
                Ok(()) => telephone@.len() > 0 && final(self)@ == (ContactView {
                    telephone: Some(telephone@),
                    ..old(self)@
                }),
                Err(e) => telephone@.len() == 0 && e@ == ErrorView::Empty(Field::Telephone)
                    && final(self)@ == old(self)@,
            },
    {
        proof {
            use_type_invariant(&*self);
        }
        if telephone.is_empty() {
            return Err(Error::Empty(Field::Telephone));
        }
        self.telephone = Some(String::from_str(telephone));
        Ok(())
    }

    /// The forename.
    pub fn forename(&self) -> (r: &str)
        ensures
            r@ == self@.forename,
            self@.wf(),
    {
        proof {
            use_type_invariant(self);
        }
        self.forename.as_str()
    }

    /// The surname.
    pub fn surname(&self) -> (r: &str)
        ensures
            r@ == self@.surname,
            self@.wf(),
    {
        proof {
            use_type_invariant(self);
        }
        self.surname.as_str()
    }

    /// The email address, in the text form that the validator handed back.
    pub fn email(&self) -> (r: &str)
        ensures
            r@ == self@.email,
            self@.wf(),
    {
        proof {
            use_type_invariant(self);
        }
        self.email.as_str()
    }

    /// The organisation, if one was set.
    pub fn organisation(&self) -> (r: Option<&str>)
        ensures
            match r {
                Some(text) => self@.organisation == Some(text@),
                None => self@.organisation is None,
            },
            self@.wf(),
    {
        proof {
            use_type_invariant(self);
        }
        match &self.organisation {
            Some(text) => Some(text.as_str()),
            None => None,
        }
    }

    /// The telephone number, if one was set.
    pub fn telephone(&self) -> (r: Option<&str>)
        ensures
            match r {
                Some(text) => self@.telephone == Some(text@),
                None => self@.telephone is None,
            },
            self@.wf(),
    {
        proof {
            use_type_invariant(self);
        }
        match &self.telephone {
            Some(text) => Some(text.as_str()),
            None => None,
        }
    }

    /// The canonical one-line rendering, as search results show it.
    pub fn to_string(&self) -> (r: String)
        ensures
            r@ == display_text(self@),
    {
        let mut text = String::from_str(self.email.as_str());
        text.append("\t");
        text.append(self.forename.as_str());
        text.append(" ");
        text.append(self.surname.as_str());
        proof {
            reveal_strlit("\t");
            reveal_strlit(" ");
            assert("\t"@ =~= seq!['\t']);
            assert(" "@ =~= seq![' ']);
        }
        text
    }
}

/// Three texts that are not empty, the third a valid email, always make a
/// contact, and the contact holds exactly these texts and nothing else.
pub proof fn lemma_valid_texts_make_a_contact(
    forename: Seq<char>,
    surname: Seq<char>,
    email: Seq<char>,
)
    requires
        forename.len() > 0,
        surname.len() > 0,
        email.len() > 0,
        is_valid_email(email),
    ensures
        created(forename, surname, email) == Outcome::Ok(
            ContactView { forename, surname, email, organisation: None, telephone: None },
        ),
        created(forename, surname, email)->Ok_0.wf(),
{
}

/// An empty required text makes creation fail with the fault that names
/// it, where the texts before it are not empty.
pub proof fn lemma_empty_text_is_named(forename: Seq<char>, surname: Seq<char>, email: Seq<char>)
    ensures
        forename.len() == 0 ==> created(forename, surname, email) == Outcome::Err(
            ErrorView::Empty(Field::Forename),
        ),
        forename.len() > 0 && surname.len() == 0 ==> created(forename, surname, email)
            == Outcome::Err(ErrorView::Empty(Field::Surname)),
        forename.len() > 0 && surname.len() > 0 && email.len() == 0 ==> created(
            forename,
            surname,
            email,
        ) == Outcome::Err(ErrorView::Empty(Field::Email)),
{
}

/// An email that the validator refuses makes creation fail with the
/// validator's diagnostic, where no required text is empty.
pub proof fn lemma_invalid_email_is_reported(
    forename: Seq<char>,
    surname: Seq<char>,
    email: Seq<char>,
)
    requires
        forename.len() > 0,
        surname.len() > 0,
        email.len() > 0,
        !is_valid_email(email),
    ensures
        created(forename, surname, email) == Outcome::Err(
            ErrorView::Email(email_diagnostic(email)->0),
        ),
{
}

} // verus!
