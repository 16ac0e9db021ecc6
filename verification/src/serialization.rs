//! Values that can be written as JSON text and as bytes.

use vstd::prelude::*;
use vstd::string::*;
use vstd::utf8::encode_utf8;
use crate::repository::User;
use crate::text::{decimal, to_decimal};

verus! {

/// Something that has a JSON form.
pub trait Serializable: Sized {
    /// The JSON text of this value.
    spec fn json(&self) -> Seq<char>;

    /// Writes this value as JSON.
    fn to_json(&self) -> (text: String)
        ensures
            text@ == self.json(),
    ;

    /// Reads a value from JSON.
    fn from_json(json: &str) -> Result<Self, String>;

    /// The JSON text of this value in UTF-8.
    fn to_bytes(&self) -> (bytes: Vec<u8>)
        ensures
            bytes@ == encode_utf8(self.json()),
    {
        self.to_json().as_str().as_bytes_vec()
    }
}

/// The JSON text of a user: an object with the name as it stands, not
/// escaped, and the age.
pub open spec fn user_json(name: Seq<char>, age: u32) -> Seq<char> {
    "{\"name\": \""@ + name + "\", \"age\": "@ + decimal(age as nat) + "}"@
}

impl Serializable for User {
    open spec fn json(&self) -> Seq<char> {
        user_json(self.name@, self.age)
    }

    fn to_json(&self) -> (text: String) {
        let mut text: String = "{\"name\": \"".to_owned();
        text.append(self.name.as_str());
        text.append("\", \"age\": ");
        text.append(to_decimal(self.age as u64).as_str());
        text.append("}");
        text
    }

    /// Reads nothing of the text: the user is always the same.
    fn from_json(json: &str) -> (r: Result<User, String>)
        ensures
            r is Ok,
            r->Ok_0.name@ == "Parsed User"@,
            r->Ok_0.age == 25,
    {
        Ok(User { name: "Parsed User".to_owned(), age: 25 })
    }
}

} // verus!
